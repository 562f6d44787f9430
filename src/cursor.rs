use vstd::prelude::*;

use crate::error::Error;
use crate::request::{Endpoint, ParamList, ParamValue};
use crate::response::{RateLimit, WebResponse};

verus! {

/// The cursor value that asks for the first page.
pub const START_CURSOR: i64 = -1;

/// The cursor value that means "no further page in that direction".
pub const END_CURSOR: i64 = 0;

/// One decoded page of a paginated resource.
#[derive(Clone, Debug, PartialEq, Eq)]
pub struct CursorPage<T> {
    pub items: Vec<T>,
    pub previous_cursor: i64,
    pub next_cursor: i64,
}

/// Where a cursor traversal stands.
#[derive(Clone, Copy, Debug, PartialEq, Eq, Structural)]
pub enum CursorState {
    /// Nothing fetched yet.
    Fresh,
    /// A page has been asked for and its result not yet handed in.
    Fetching,
    /// Items of the last page are being handed out.
    Yielding,
    /// No more items: the last page was consumed, or a fetch failed.
    Exhausted,
}

/// What the consumer of a cursor traversal must do next.
#[derive(Debug, PartialEq, Eq)]
pub enum Step<T> {
    /// Fetch the page at this cursor and hand its result to `on_page`.
    Fetch(i64),
    /// The next element of the traversal.
    Item(Result<T, Error>),
    /// A fetch is outstanding: hand its result to `on_page` first.
    Waiting,
    /// The traversal is over.
    Done,
}

/// The abstract state of a traversal.
pub enum Phase<T> {
    Fresh,
    /// The page at this cursor was asked for.
    Fetching(i64),
    /// The items left of the current page, and the cursor of the page after it.
    Yielding(Seq<T>, i64),
    /// A fetch failed with this error, not yet reported.
    Failed(Error),
    Exhausted,
}

/// The next step of a traversal in phase `p`, and the phase after it.
pub open spec fn poll_model<T>(p: Phase<T>) -> (Phase<T>, Step<T>) {
    match p {
        Phase::Fresh => (Phase::Fetching(START_CURSOR), Step::Fetch(START_CURSOR)),
        Phase::Fetching(c) => (Phase::Fetching(c), Step::Waiting),
        Phase::Yielding(items, next) => if items.len() > 0 {
            (Phase::Yielding(items.drop_first(), next), Step::Item(Ok(items[0])))
        } else if next == END_CURSOR {
            (Phase::Exhausted, Step::Done)
        } else {
            (Phase::Fetching(next), Step::Fetch(next))
        },
        Phase::Failed(e) => (Phase::Exhausted, Step::Item(Err(e))),
        Phase::Exhausted => (Phase::Exhausted, Step::Done),
    }
}

/// The phase after the result of a fetch is handed in: the page's items and
/// next cursor, or the error. A result that no fetch waits for changes nothing.
pub open spec fn page_model<T>(p: Phase<T>, page: Result<(Seq<T>, i64), Error>) -> Phase<T> {
    match p {
        Phase::Fetching(_) => match page {
            Ok((items, next)) => Phase::Yielding(items, next),
            Err(e) => Phase::Failed(e),
        },
        _ => p,
    }
}

/// What a fetch result holds, as the traversal sees it.
pub open spec fn page_view<T>(r: WebResponse<CursorPage<T>>) -> Result<(Seq<T>, i64), Error> {
    match r {
        Ok(env) => Ok((env.body.items@, env.body.next_cursor)),
        Err(e) => Err(e),
    }
}

/// A lazy traversal of a cursor-paginated resource, flattening its pages
/// into one sequence of items. The consumer drives it: `poll` says what to
/// do next, and the result of each fetch goes back through `on_page`.
/// It is not restartable.
pub struct CursorIter<'a, T> {
    endpoint: Endpoint,
    params: ParamList<'a>,
    page_size: Option<u32>,
    rate_limit: Option<RateLimit>,
    state: CursorState,
    /// While fetching, the cursor asked for; while yielding, the next page's.
    cursor: i64,
    /// The items of the current page not yet handed out.
    items: Vec<T>,
    /// A fetch failure not yet reported.
    failure: Option<Error>,
}

/// What a traversal is, abstractly.
pub struct CursorView<'a, T> {
    pub endpoint: Endpoint,
    pub params: Seq<(&'static str, ParamValue<'a>)>,
    /// The page size to ask for; the API's default when `None`.
    pub page_size: Option<u32>,
    /// The accounting of the last page received.
    pub rate_limit: Option<RateLimit>,
    pub phase: Phase<T>,
}

impl<'a, T> View for CursorIter<'a, T> {
    type V = CursorView<'a, T>;

    closed spec fn view(&self) -> CursorView<'a, T> {
        CursorView {
            endpoint: self.endpoint,
            params: self.params@,
            page_size: self.page_size,
            rate_limit: self.rate_limit,
            phase: self.phase(),
        }
    }
}

impl<'a, T> CursorIter<'a, T> {
    /// The abstract state of the traversal.
    closed spec fn phase(&self) -> Phase<T> {
        match self.state {
            CursorState::Fresh => Phase::Fresh,
            CursorState::Fetching => Phase::Fetching(self.cursor),
            CursorState::Yielding => Phase::Yielding(self.items@, self.cursor),
            CursorState::Exhausted => match self.failure {
                Some(e) => Phase::Failed(e),
                None => Phase::Exhausted,
            },
        }
    }

    /// Starts a traversal of `endpoint` with `params`, from the first page.
    pub fn new(endpoint: Endpoint, params: ParamList<'a>, page_size: Option<u32>) -> (r: Self)
        ensures
            r@.endpoint == endpoint,
            r@.params == params@,
            r@.page_size == page_size,
            r@.rate_limit.is_none(),
            r@.phase is Fresh,
    {
        CursorIter {
            endpoint,
            params,
            page_size,
            rate_limit: None,
            state: CursorState::Fresh,
            cursor: START_CURSOR,
            items: Vec::new(),
            failure: None,
        }
    }

    /// The resource traversed.
    pub fn endpoint(&self) -> (r: Endpoint)
        ensures
            r == self@.endpoint,
    {
        self.endpoint
    }

    /// The fixed parameters of every page request.
    pub fn params(&self) -> (r: &ParamList<'a>)
        ensures
            r@ == self@.params,
    {
        &self.params
    }

    /// The page size asked for, if any.
    pub fn page_size(&self) -> (r: Option<u32>)
        ensures
            r == self@.page_size,
    {
        self.page_size
    }

    /// The accounting of the last page received, if any.
    pub fn rate_limit(&self) -> (r: Option<RateLimit>)
        ensures
            r == self@.rate_limit,
    {
        self.rate_limit
    }

    /// Where the traversal stands.
    pub fn state(&self) -> (r: CursorState)
        ensures
            r == match self@.phase {
                Phase::Fresh => CursorState::Fresh,
                Phase::Fetching(_) => CursorState::Fetching,
                Phase::Yielding(_, _) => CursorState::Yielding,
                _ => CursorState::Exhausted,
            },
    {
        self.state
    }

    /// Says what to do next and moves the traversal on: hands out the next
    /// item of the current page, asks for the next page when the current one
    /// is used up and a further page exists, reports a failed fetch once, and
    /// then ends for good.
    pub fn poll(&mut self) -> (r: Step<T>)
        ensures
            (final(self)@.phase, r) == poll_model(old(self)@.phase),
            final(self)@.endpoint == old(self)@.endpoint,
            final(self)@.params == old(self)@.params,
            final(self)@.page_size == old(self)@.page_size,
            final(self)@.rate_limit == old(self)@.rate_limit,
    {
        match self.state {
            CursorState::Fresh => {
                self.state = CursorState::Fetching;
                self.cursor = START_CURSOR;
                Step::Fetch(START_CURSOR)
            },
            CursorState::Fetching => Step::Waiting,
            CursorState::Yielding => {
                if self.items.len() > 0 {
                    let x = self.items.remove(0);
                    assert(self.items@ =~= old(self).items@.drop_first());
                    Step::Item(Ok(x))
                } else if self.cursor == END_CURSOR {
                    self.state = CursorState::Exhausted;
                    self.failure = None;
                    Step::Done
                } else {
                    self.state = CursorState::Fetching;
                    Step::Fetch(self.cursor)
                }
            },
            CursorState::Exhausted => match self.failure.take() {
                Some(e) => Step::Item(Err(e)),
                None => Step::Done,
            },
        }
    }

    /// Hands in the result of the fetch that `poll` asked for: a page starts
    /// being handed out, an error will be reported by the next `poll` and
    /// ends the traversal. A result that no fetch waits for is dropped.
    pub fn on_page(&mut self, page: WebResponse<CursorPage<T>>)
        ensures
            final(self)@.phase == page_model(old(self)@.phase, page_view(page)),
            final(self)@.endpoint == old(self)@.endpoint,
            final(self)@.params == old(self)@.params,
            final(self)@.page_size == old(self)@.page_size,
            final(self)@.rate_limit == match (old(self)@.phase, page) {
                (Phase::Fetching(_), Ok(env)) => Some(env.rate_limit),
                _ => old(self)@.rate_limit,
            },
    {
        if self.state != CursorState::Fetching {
            return;
        }
        match page {
            Ok(env) => {
                let rate_limit = env.rate_limit;
                let CursorPage { items, previous_cursor: _, next_cursor } = env.body;
                self.rate_limit = Some(rate_limit);
                self.items = items;
                self.cursor = next_cursor;
                self.state = CursorState::Yielding;
            },
            Err(e) => {
                self.failure = Some(e);
                self.state = CursorState::Exhausted;
            },
        }
    }
}

} // verus!
