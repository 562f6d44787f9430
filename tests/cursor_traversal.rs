use egg_mode::cursor::{CursorIter, CursorPage, CursorState, Step, END_CURSOR, START_CURSOR};
use egg_mode::error::{Error, ErrorCode};
use egg_mode::list::{members, memberships, LIST_PAGE_SIZE};
use egg_mode::request::{Endpoint, ListID, ParamValue, UserID};
use egg_mode::response::{RateLimit, ResponseEnvelope, WebResponse};

fn rate(remaining: u32) -> RateLimit {
    RateLimit { limit: 900, remaining, reset_at: 1_500_000_000 }
}

fn page(items: Vec<u64>, next_cursor: i64) -> WebResponse<CursorPage<u64>> {
    Ok(ResponseEnvelope {
        rate_limit: rate(100),
        body: CursorPage { items, previous_cursor: 0, next_cursor },
    })
}

/// Polls `iter` until it is done, serving each fetch with `serve`; returns
/// the elements handed out and the cursors asked for.
fn run<F>(iter: &mut CursorIter<u64>, mut serve: F) -> (Vec<Result<u64, Error>>, Vec<i64>)
where
    F: FnMut(i64) -> WebResponse<CursorPage<u64>>,
{
    let mut out = Vec::new();
    let mut fetched = Vec::new();
    for _ in 0..1000 {
        match iter.poll() {
            Step::Fetch(c) => {
                fetched.push(c);
                iter.on_page(serve(c));
            }
            Step::Item(x) => out.push(x),
            Step::Waiting => panic!("no fetch is outstanding"),
            Step::Done => return (out, fetched),
        }
    }
    panic!("traversal did not end");
}

#[test]
fn three_pages_of_two_ids() {
    let a: i64 = 1111;
    let b: i64 = 2222;
    let mut iter: CursorIter<u64> = members(ListID::ID(7));
    let (items, fetched) = run(&mut iter, |c| {
        if c == START_CURSOR {
            page(vec![1, 2], a)
        } else if c == a {
            page(vec![3, 4], b)
        } else if c == b {
            page(vec![5, 6], END_CURSOR)
        } else {
            panic!("unexpected cursor {}", c)
        }
    });
    let ids: Vec<u64> = items.into_iter().map(|r| r.unwrap()).collect();
    assert_eq!(ids, vec![1, 2, 3, 4, 5, 6]);
    assert_eq!(fetched, vec![START_CURSOR, a, b]);
    assert_eq!(fetched.len(), 3);
    assert_eq!(iter.state(), CursorState::Exhausted);
}

#[test]
fn exhausted_traversal_stays_done() {
    let mut iter: CursorIter<u64> = CursorIter::new(Endpoint::Members, Vec::new(), None);
    let (items, fetched) = run(&mut iter, |_| page(vec![9], END_CURSOR));
    assert_eq!(items.len(), 1);
    assert_eq!(fetched.len(), 1);
    for _ in 0..5 {
        assert_eq!(iter.poll(), Step::Done);
    }
    // a late page is ignored
    iter.on_page(page(vec![10, 11], 5));
    assert_eq!(iter.poll(), Step::Done);
    assert_eq!(iter.state(), CursorState::Exhausted);
}

#[test]
fn single_empty_page_ends_at_once() {
    let mut iter: CursorIter<u64> = CursorIter::new(Endpoint::Subscribers, Vec::new(), Some(5));
    let (items, fetched) = run(&mut iter, |_| page(Vec::new(), END_CURSOR));
    assert!(items.is_empty());
    assert_eq!(fetched, vec![START_CURSOR]);
}

#[test]
fn empty_middle_page_is_followed() {
    let mut iter: CursorIter<u64> = CursorIter::new(Endpoint::Members, Vec::new(), None);
    let (items, fetched) = run(&mut iter, |c| match c {
        START_CURSOR => page(Vec::new(), 40),
        40 => page(vec![8], END_CURSOR),
        _ => panic!("unexpected cursor"),
    });
    assert_eq!(items, vec![Ok(8)]);
    assert_eq!(fetched, vec![START_CURSOR, 40]);
}

#[test]
fn failed_fetch_is_reported_once_then_ends() {
    let mut iter: CursorIter<u64> = CursorIter::new(Endpoint::Members, Vec::new(), None);
    let (items, fetched) = run(&mut iter, |c| {
        if c == START_CURSOR {
            page(vec![1, 2], 77)
        } else {
            Err(Error::TransportError("connection reset".to_string()))
        }
    });
    assert_eq!(fetched, vec![START_CURSOR, 77]);
    assert_eq!(
        items,
        vec![Ok(1), Ok(2), Err(Error::TransportError("connection reset".to_string()))]
    );
    assert_eq!(iter.poll(), Step::Done);
}

#[test]
fn api_error_ends_traversal_with_its_codes() {
    let mut iter: CursorIter<u64> = CursorIter::new(Endpoint::Members, Vec::new(), None);
    let errs = vec![ErrorCode { code: 88, message: "Rate limit exceeded".to_string() }];
    let sent = errs.clone();
    let (items, _) = run(&mut iter, move |_| Err(Error::ApiError(sent.clone())));
    assert_eq!(items, vec![Err(Error::ApiError(errs))]);
}

#[test]
fn poll_while_fetching_waits() {
    let mut iter: CursorIter<u64> = CursorIter::new(Endpoint::Members, Vec::new(), None);
    assert_eq!(iter.state(), CursorState::Fresh);
    assert_eq!(iter.poll(), Step::Fetch(START_CURSOR));
    assert_eq!(iter.state(), CursorState::Fetching);
    assert_eq!(iter.poll(), Step::Waiting);
    iter.on_page(page(vec![4], END_CURSOR));
    assert_eq!(iter.state(), CursorState::Yielding);
    assert_eq!(iter.rate_limit(), Some(rate(100)));
    assert_eq!(iter.poll(), Step::Item(Ok(4)));
    assert_eq!(iter.poll(), Step::Done);
}

#[test]
fn memberships_traversal_setup() {
    let iter: CursorIter<u64> = memberships(&UserID::ScreenName("rustlang"));
    assert_eq!(iter.endpoint(), Endpoint::Memberships);
    assert_eq!(iter.params(), &vec![("screen_name", ParamValue::Text("rustlang"))]);
    assert_eq!(iter.page_size(), Some(LIST_PAGE_SIZE));
    assert_eq!(iter.page_size(), Some(20));
    assert_eq!(iter.rate_limit(), None);
    assert_eq!(iter.state(), CursorState::Fresh);
}
