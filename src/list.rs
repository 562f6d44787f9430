use vstd::prelude::*;

use crate::cursor::{CursorIter, CursorView};
use crate::probe::{Probe, NOT_IN_LIST};
use crate::request::{
    add_list_param, add_name_param, list_params, name_params, Endpoint, ListID, Method, ParamList,
    ParamValue, Request, UserID,
};

verus! {

/// The page size that the list traversals ask for.
pub const LIST_PAGE_SIZE: u32 = 20;

/// `v` is a traversal of `endpoint` with `params` that has not started.
pub open spec fn starts_traversal<'a, T>(
    v: CursorView<'a, T>,
    endpoint: Endpoint,
    params: Seq<(&'static str, ParamValue<'a>)>,
) -> bool {
    &&& v.endpoint == endpoint
    &&& v.params == params
    &&& v.page_size == Some(LIST_PAGE_SIZE)
    &&& v.rate_limit.is_none()
    &&& v.phase is Fresh
}

/// `r` is the call `method` on `endpoint` with `params`.
pub open spec fn is_call<'a>(
    r: Request<'a>,
    method: Method,
    endpoint: Endpoint,
    params: Seq<(&'static str, ParamValue<'a>)>,
) -> bool {
    r.method == method && r.endpoint == endpoint && r.params@ == params
}

fn user_traversal<'a, T>(endpoint: Endpoint, user: UserID<'a>) -> (r: CursorIter<'a, T>)
    ensures
        starts_traversal(r@, endpoint, name_params(user)),
{
    let mut params: ParamList<'a> = Vec::new();
    add_name_param(&mut params, user);
    assert(params@ =~= name_params(user));
    CursorIter::new(endpoint, params, Some(LIST_PAGE_SIZE))
}

fn list_traversal<'a, T>(endpoint: Endpoint, list: ListID<'a>) -> (r: CursorIter<'a, T>)
    ensures
        starts_traversal(r@, endpoint, list_params(list)),
{
    let mut params: ParamList<'a> = Vec::new();
    add_list_param(&mut params, list);
    assert(params@ =~= list_params(list));
    CursorIter::new(endpoint, params, Some(LIST_PAGE_SIZE))
}

fn list_user_call<'a>(method: Method, endpoint: Endpoint, list: ListID<'a>, user: UserID<'a>) -> (r: Request<'a>)
    ensures
        is_call(r, method, endpoint, list_params(list) + name_params(user)),
{
    let mut params: ParamList<'a> = Vec::new();
    add_list_param(&mut params, list);
    add_name_param(&mut params, user);
    assert(params@ =~= list_params(list) + name_params(user));
    Request { method, endpoint, params }
}

/// Traverses the lists that `user` has been added to.
pub fn memberships<'a, T>(user: &UserID<'a>) -> (r: CursorIter<'a, T>)
    ensures
        starts_traversal(r@, Endpoint::Memberships, name_params(*user)),
{
    user_traversal(Endpoint::Memberships, *user)
}

/// The call that returns up to 100 lists `user` subscribes to, including
/// those the user made; with `owned_first`, the user's own lists come first.
pub fn list<'a>(user: &UserID<'a>, owned_first: bool) -> (r: Request<'a>)
    ensures
        is_call(r, Method::Get, Endpoint::List, name_params(*user) + seq![("reverse", ParamValue::Flag(owned_first))]),
{
    let mut params: ParamList<'a> = Vec::new();
    add_name_param(&mut params, *user);
    params.push(("reverse", ParamValue::Flag(owned_first)));
    assert(params@ =~= name_params(*user) + seq![("reverse", ParamValue::Flag(owned_first))]);
    Request { method: Method::Get, endpoint: Endpoint::List, params }
}

/// Traverses the lists that `user` subscribes to but did not make.
pub fn subscriptions<'a, T>(user: &UserID<'a>) -> (r: CursorIter<'a, T>)
    ensures
        starts_traversal(r@, Endpoint::Subscriptions, name_params(*user)),
{
    user_traversal(Endpoint::Subscriptions, *user)
}

/// Traverses the lists that `user` made.
pub fn ownerships<'a, T>(user: &UserID<'a>) -> (r: CursorIter<'a, T>)
    ensures
        starts_traversal(r@, Endpoint::Ownerships, name_params(*user)),
{
    user_traversal(Endpoint::Ownerships, *user)
}

/// The call that looks up one list.
pub fn show<'a>(list: ListID<'a>) -> (r: Request<'a>)
    ensures
        is_call(r, Method::Get, Endpoint::Show, list_params(list)),
{
    let mut params: ParamList<'a> = Vec::new();
    add_list_param(&mut params, list);
    assert(params@ =~= list_params(list));
    Request { method: Method::Get, endpoint: Endpoint::Show, params }
}

/// Traverses the users that have been added to `list`.
pub fn members<'a, T>(list: ListID<'a>) -> (r: CursorIter<'a, T>)
    ensures
        starts_traversal(r@, Endpoint::Members, list_params(list)),
{
    list_traversal(Endpoint::Members, list)
}

/// Traverses the users that subscribe to `list`.
pub fn subscribers<'a, T>(list: ListID<'a>) -> (r: CursorIter<'a, T>)
    ensures
        starts_traversal(r@, Endpoint::Subscribers, list_params(list)),
{
    list_traversal(Endpoint::Subscribers, list)
}

/// Asks whether `user` subscribes to `list`; the API says no with the
/// "not in this list" error.
pub fn is_subscribed<'a>(user: UserID<'a>, list: ListID<'a>) -> (r: Probe<'a>)
    ensures
        is_call(r.request, Method::Get, Endpoint::IsSubscriber, list_params(list) + name_params(user)),
        r.absent_code == NOT_IN_LIST,
{
    Probe {
        request: list_user_call(Method::Get, Endpoint::IsSubscriber, list, user),
        absent_code: NOT_IN_LIST,
    }
}

/// Asks whether `user` has been added to `list`; the API says no with the
/// "not in this list" error.
pub fn is_member<'a>(user: UserID<'a>, list: ListID<'a>) -> (r: Probe<'a>)
    ensures
        is_call(r.request, Method::Get, Endpoint::IsMember, list_params(list) + name_params(user)),
        r.absent_code == NOT_IN_LIST,
{
    Probe {
        request: list_user_call(Method::Get, Endpoint::IsMember, list, user),
        absent_code: NOT_IN_LIST,
    }
}

/// The call that starts the timeline of tweets by the members of `list`,
/// with retweets when `with_rts`.
pub fn statuses<'a>(list: ListID<'a>, with_rts: bool) -> (r: Request<'a>)
    ensures
        is_call(r, Method::Get, Endpoint::Statuses, list_params(list) + seq![("include_rts", ParamValue::Flag(with_rts))]),
{
    let mut params: ParamList<'a> = Vec::new();
    add_list_param(&mut params, list);
    params.push(("include_rts", ParamValue::Flag(with_rts)));
    assert(params@ =~= list_params(list) + seq![("include_rts", ParamValue::Flag(with_rts))]);
    Request { method: Method::Get, endpoint: Endpoint::Statuses, params }
}

/// The call that adds `user` to `list`.
pub fn add<'a>(list: ListID<'a>, user: UserID<'a>) -> (r: Request<'a>)
    ensures
        is_call(r, Method::Post, Endpoint::Add, list_params(list) + name_params(user)),
{
    list_user_call(Method::Post, Endpoint::Add, list, user)
}

} // verus!
