use vstd::prelude::*;

use crate::cursor::{page_model, poll_model, Phase, Step, END_CURSOR, START_CURSOR};
use crate::error::Error;

verus! {

/// A page as a traversal sees it: its items and the cursor of the next page.
pub type PageModel<T> = (Seq<T>, i64);

/// The items of `pages`, page after page, each page in its own order.
pub open spec fn flatten<T>(pages: Seq<PageModel<T>>) -> Seq<T>
    decreases pages.len(),
{
    if pages.len() == 0 {
        Seq::empty()
    } else {
        pages[0].0 + flatten(pages.drop_first())
    }
}

/// The next cursors of all pages but the last, in order.
pub open spec fn linking_cursors<T>(pages: Seq<PageModel<T>>) -> Seq<i64>
    decreases pages.len(),
{
    if pages.len() <= 1 {
        Seq::empty()
    } else {
        seq![pages[0].1] + linking_cursors(pages.drop_first())
    }
}

/// The polls that a traversal of `pages` takes before it ends: one fetch
/// per page and one per item.
pub open spec fn poll_count<T>(pages: Seq<PageModel<T>>) -> nat
    decreases pages.len(),
{
    if pages.len() == 0 {
        0
    } else {
        1 + pages[0].0.len() + poll_count(pages.drop_first())
    }
}

/// A finite chain of pages as the API serves it: the last page's next cursor
/// is the end marker, and no other page's is.
pub open spec fn is_chain<T>(pages: Seq<PageModel<T>>) -> bool {
    &&& pages.len() > 0
    &&& pages.last().1 == END_CURSOR
    &&& forall|i: int| 0 <= i < pages.len() - 1 ==> #[trigger] pages[i].1 != END_CURSOR
}

/// What a consumer sees that polls a traversal in phase `p` up to `fuel`
/// times and answers each fetch with the next page of `pages`: the items
/// handed out, the cursors asked for, and whether the traversal said it was
/// done. It stops at the first error or wait, and when a fetch finds no page
/// left to serve.
pub open spec fn drive<T>(p: Phase<T>, pages: Seq<PageModel<T>>, fuel: nat) -> (Seq<T>, Seq<i64>, bool)
    decreases fuel,
{
    if fuel == 0 {
        (Seq::empty(), Seq::empty(), false)
    } else {
        let (q, s) = poll_model(p);
        match s {
            Step::Fetch(c) => if pages.len() == 0 {
                (Seq::empty(), seq![c], false)
            } else {
                let (xs, cs, d) = drive(
                    page_model(q, Ok::<PageModel<T>, Error>(pages[0])),
                    pages.drop_first(),
                    (fuel - 1) as nat,
                );
                (xs, seq![c] + cs, d)
            },
            Step::Item(Ok(x)) => {
                let (xs, cs, d) = drive(q, pages, (fuel - 1) as nat);
                (seq![x] + xs, cs, d)
            },
            Step::Done => {
                let (xs, cs, d) = drive(q, pages, (fuel - 1) as nat);
                (xs, cs, true)
            },
            _ => (Seq::empty(), Seq::empty(), false),
        }
    }
}

proof fn lemma_linking_len<T>(pages: Seq<PageModel<T>>)
    requires
        pages.len() > 0,
    ensures
        linking_cursors(pages).len() == pages.len() - 1,
    decreases pages.len(),
{
    if pages.len() > 1 {
        lemma_linking_len(pages.drop_first());
    }
}

/// Once a traversal is exhausted, polling it any number of times hands out
/// no item and asks for no page, whatever pages are on offer.
pub proof fn lemma_no_restart<T>(pages: Seq<PageModel<T>>, fuel: nat)
    ensures
        drive(Phase::<T>::Exhausted, pages, fuel).0 == Seq::<T>::empty(),
        drive(Phase::<T>::Exhausted, pages, fuel).1 == Seq::<i64>::empty(),
        drive(Phase::<T>::Exhausted, pages, fuel).2 == (fuel > 0),
        forall|r: Result<PageModel<T>, Error>| page_model(Phase::<T>::Exhausted, r) == Phase::<T>::Exhausted,
    decreases fuel,
{
    if fuel > 0 {
        lemma_no_restart(pages, (fuel - 1) as nat);
    }
}

/// A failed fetch is reported exactly once, as the next element, and the
/// traversal is then exhausted: it never retries and never resumes.
pub proof fn lemma_failure_ends<T>(cursor: i64, e: Error)
    ensures
        poll_model(page_model(Phase::<T>::Fetching(cursor), Err(e))) == (
            Phase::<T>::Exhausted,
            Step::<T>::Item(Err(e)),
        ),
{
}

proof fn lemma_yielding<T>(items: Seq<T>, next: i64, rest: Seq<PageModel<T>>, fuel: nat)
    requires
        (next == END_CURSOR) == (rest.len() == 0),
        rest.len() > 0 ==> is_chain(rest),
        fuel > items.len() + poll_count(rest),
    ensures
        drive(Phase::Yielding(items, next), rest, fuel) == (
            items + flatten(rest),
            if rest.len() == 0 { Seq::empty() } else { seq![next] + linking_cursors(rest) },
            true,
        ),
    decreases rest.len(), items.len(),
{
    if items.len() > 0 {
        lemma_yielding(items.drop_first(), next, rest, (fuel - 1) as nat);
        assert(seq![items[0]] + (items.drop_first() + flatten(rest)) =~= items + flatten(rest));
    } else if next == END_CURSOR {
        lemma_no_restart(rest, (fuel - 1) as nat);
        assert(items + flatten(rest) =~= Seq::<T>::empty());
    } else {
        let tail = rest.drop_first();
        if tail.len() > 0 {
            assert forall|i: int| 0 <= i < tail.len() - 1 implies #[trigger] tail[i].1 != END_CURSOR by {
                assert(tail[i] == rest[i + 1]);
            }
            assert(tail.last() == rest.last());
        } else {
            assert(rest[0] == rest.last());
        }
        if tail.len() > 0 {
            assert(rest[0].1 != END_CURSOR);
        }
        lemma_yielding(rest[0].0, rest[0].1, tail, (fuel - 1) as nat);
        assert(items + flatten(rest) =~= rest[0].0 + flatten(tail));
    }
}

/// A traversal served a finite chain of pages hands out exactly the
/// concatenation of the pages' items, in order; it asks for the pages one by
/// one, first at the start cursor and then at each page's next cursor, once
/// each; and then it is done, and further polls ask for nothing more.
pub proof fn lemma_traversal_exhausts<T>(pages: Seq<PageModel<T>>, fuel: nat)
    requires
        is_chain(pages),
        fuel > poll_count(pages),
    ensures
        drive(Phase::Fresh, pages, fuel) == (
            flatten(pages),
            seq![START_CURSOR] + linking_cursors(pages),
            true,
        ),
        drive(Phase::Fresh, pages, fuel).1.len() == pages.len(),
{
    let tail = pages.drop_first();
    if tail.len() > 0 {
        assert forall|i: int| 0 <= i < tail.len() - 1 implies #[trigger] tail[i].1 != END_CURSOR by {
            assert(tail[i] == pages[i + 1]);
        }
        assert(tail.last() == pages.last());
        assert(pages[0].1 != END_CURSOR);
    } else {
        assert(pages[0] == pages.last());
    }
    lemma_yielding(pages[0].0, pages[0].1, tail, (fuel - 1) as nat);
    assert(pages[0].0 + flatten(tail) =~= flatten(pages));
    if tail.len() == 0 {
        assert(linking_cursors(pages) =~= Seq::<i64>::empty());
    }
    lemma_linking_len(pages);
}

} // verus!
