use vstd::prelude::*;

verus! {

/// A user, named by numeric ID or by screen name.
#[derive(Clone, Copy, Debug, PartialEq, Eq)]
pub enum UserID<'a> {
    ID(u64),
    ScreenName(&'a str),
}

/// A list, named by its numeric ID or by its owner and slug.
#[derive(Clone, Copy, Debug, PartialEq, Eq)]
pub enum ListID<'a> {
    Slug(UserID<'a>, &'a str),
    ID(u64),
}

/// The value of one request parameter; the transport renders it as text.
#[derive(Clone, Copy, Debug, PartialEq, Eq)]
pub enum ParamValue<'a> {
    Text(&'a str),
    Id(u64),
    Flag(bool),
}

/// Request parameters, in the order they were added.
pub type ParamList<'a> = Vec<(&'static str, ParamValue<'a>)>;

/// The HTTP verb of a request.
#[derive(Clone, Copy, Debug, PartialEq, Eq, Structural)]
pub enum Method {
    Get,
    Post,
}

/// The API resources that this library addresses; the transport maps each
/// to its URL.
#[derive(Clone, Copy, Debug, PartialEq, Eq, Structural)]
pub enum Endpoint {
    Memberships,
    List,
    Subscriptions,
    Ownerships,
    Show,
    Members,
    Subscribers,
    IsSubscriber,
    IsMember,
    Statuses,
    Add,
}

/// A single call to make: verb, resource and parameters.
#[derive(Clone, Debug, PartialEq, Eq)]
pub struct Request<'a> {
    pub method: Method,
    pub endpoint: Endpoint,
    pub params: ParamList<'a>,
}

/// The parameters that name a user.
pub open spec fn name_params<'a>(user: UserID<'a>) -> Seq<(&'static str, ParamValue<'a>)> {
    match user {
        UserID::ID(id) => seq![("user_id", ParamValue::Id(id))],
        UserID::ScreenName(name) => seq![("screen_name", ParamValue::Text(name))],
    }
}

/// The parameters that name a list.
pub open spec fn list_params<'a>(list: ListID<'a>) -> Seq<(&'static str, ParamValue<'a>)> {
    match list {
        ListID::Slug(owner, slug) => match owner {
            UserID::ID(id) => seq![("owner_id", ParamValue::Id(id)), ("slug", ParamValue::Text(slug))],
            UserID::ScreenName(name) => seq![
                ("owner_screen_name", ParamValue::Text(name)),
                ("slug", ParamValue::Text(slug)),
            ],
        },
        ListID::ID(id) => seq![("list_id", ParamValue::Id(id))],
    }
}

/// Appends the parameters that name `user`.
pub fn add_name_param<'a>(params: &mut ParamList<'a>, user: UserID<'a>)
    ensures
        final(params)@ == old(params)@ + name_params(user),
{
    match user {
        UserID::ID(id) => params.push(("user_id", ParamValue::Id(id))),
        UserID::ScreenName(name) => params.push(("screen_name", ParamValue::Text(name))),
    }
    assert(params@ =~= old(params)@ + name_params(user));
}

/// Appends the parameters that name `list`.
pub fn add_list_param<'a>(params: &mut ParamList<'a>, list: ListID<'a>)
    ensures
        final(params)@ == old(params)@ + list_params(list),
{
    match list {
        ListID::Slug(owner, slug) => {
            match owner {
                UserID::ID(id) => params.push(("owner_id", ParamValue::Id(id))),
                UserID::ScreenName(name) => params.push(("owner_screen_name", ParamValue::Text(name))),
            }
            params.push(("slug", ParamValue::Text(slug)));
        },
        ListID::ID(id) => params.push(("list_id", ParamValue::Id(id))),
    }
    assert(params@ =~= old(params)@ + list_params(list));
}

} // verus!
