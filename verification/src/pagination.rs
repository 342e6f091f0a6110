//! Cursor pagination.
//!
//! The GraphANN server returns `next_cursor` on the endpoints that support
//! cursor pagination. A [`PageCursor`] decides which page to fetch next and
//! when the listing is over.
use vstd::prelude::*;

verus! {

/// One page of results from a cursor-paginated endpoint.
#[derive(Debug, Clone)]
pub struct Page<T> {
    /// Items in this page.
    pub items: Vec<T>,
    /// Cursor for the next page (absent when exhausted).
    pub next_cursor: Option<String>,
}

/// Where a paginated listing stands.
#[derive(Debug, Clone)]
pub enum PageCursor {
    /// No page fetched yet: the first request carries no cursor.
    Start,
    /// The last page pointed at a following page.
    Next(String),
    /// The listing is over: the last page had no cursor, or a fetch failed.
    Done,
}

impl PageCursor {
    /// The cursor the next fetch carries, or `None` when nothing is left
    /// to fetch.
    pub open spec fn request(self) -> Option<Option<Seq<char>>> {
        match self {
            PageCursor::Start => Some(None),
            PageCursor::Next(c) => Some(Some(c@)),
            PageCursor::Done => None,
        }
    }

    /// The state after a page whose cursor is `next` arrives.
    pub open spec fn after_page(self, next: Option<String>) -> PageCursor {
        match self {
            PageCursor::Done => PageCursor::Done,
            _ => match next {
                Some(c) => PageCursor::Next(c),
                None => PageCursor::Done,
            },
        }
    }

    /// A fresh listing.
    pub fn new() -> (r: PageCursor)
        ensures
            r is Start,
    {
        PageCursor::Start
    }

    /// The cursor to fetch the next page with: `Some(None)` for the first
    /// page, `Some(Some(c))` for a later one, `None` once the listing is over.
    pub fn next_request(&self) -> (r: Option<Option<String>>)
        ensures
            match self.request() {
                Some(None) => r matches Some(None),
                Some(Some(c)) => r matches Some(Some(s)) && s@ == c,
                None => r is None,
            },
    {
        match self {
            PageCursor::Start => Some(None),
            PageCursor::Next(c) => Some(Some(c.clone())),
            PageCursor::Done => None,
        }
    }

    /// Records a page that arrived with cursor `next`: the listing goes on
    /// at `next`, or ends when the page carried none.
    pub fn on_page(&mut self, next: Option<String>)
        ensures
            *final(self) == old(self).after_page(next),
    {
        if let PageCursor::Done = self {
            return;
        }
        *self = match next {
            Some(c) => PageCursor::Next(c),
            None => PageCursor::Done,
        };
    }

    /// Records a failed fetch: the listing ends after reporting the error.
    pub fn on_error(&mut self)
        ensures
            *final(self) is Done,
    {
        *self = PageCursor::Done;
    }
}

/// The state after pages with cursors `nexts` arrive in order.
pub open spec fn after_pages(state: PageCursor, nexts: Seq<Option<String>>) -> PageCursor
    decreases nexts.len(),
{
    if nexts.len() == 0 {
        state
    } else {
        after_pages(state.after_page(nexts[0]), nexts.drop_first())
    }
}

/// A listing fetches its first page without a cursor, fetches each later
/// page with the cursor the previous page returned, and is over as soon as
/// a page comes back without one.
pub proof fn lemma_cursor_chain(nexts: Seq<Option<String>>, i: int)
    requires
        0 <= i < nexts.len(),
        forall|k: int| 0 <= k < i ==> nexts[k] is Some,
    ensures
        PageCursor::Start.request() == Some(None::<Seq<char>>),
        after_pages(PageCursor::Start, nexts.take(i + 1)).request() == match nexts[i] {
            Some(c) => Some(Some(c@)),
            None => None,
        },
    decreases i,
{
    if i > 0 {
        lemma_cursor_chain(nexts, i - 1);
        lemma_after_pages_push(PageCursor::Start, nexts.take(i), nexts[i]);
        assert(nexts.take(i + 1) =~= nexts.take(i).push(nexts[i]));
        let prev = after_pages(PageCursor::Start, nexts.take(i));
        assert(prev.request() == Some(Some(nexts[i - 1]->0@)));
    } else {
        let t = nexts.take(1);
        assert(t.drop_first() =~= Seq::<Option<String>>::empty());
        assert(t[0] == nexts[0]);
        assert(after_pages(PageCursor::Start.after_page(nexts[0]), t.drop_first())
            == PageCursor::Start.after_page(nexts[0]));
    }
}

/// Feeding one more page extends the run.
pub proof fn lemma_after_pages_push(state: PageCursor, nexts: Seq<Option<String>>, n: Option<String>)
    ensures
        after_pages(state, nexts.push(n)) == after_pages(state, nexts).after_page(n),
    decreases nexts.len(),
{
    let pushed = nexts.push(n);
    assert(pushed[0] == if nexts.len() == 0 { n } else { nexts[0] });
    if nexts.len() == 0 {
        assert(pushed.drop_first() =~= Seq::<Option<String>>::empty());
        assert(after_pages(state.after_page(n), pushed.drop_first()) == state.after_page(n));
    } else {
        assert(pushed.drop_first() =~= nexts.drop_first().push(n));
        lemma_after_pages_push(state.after_page(nexts[0]), nexts.drop_first(), n);
    }
}

/// Once over, a listing stays over: no page or error restarts it.
pub proof fn lemma_done_is_final(nexts: Seq<Option<String>>)
    ensures
        after_pages(PageCursor::Done, nexts) is Done,
    decreases nexts.len(),
{
    if nexts.len() > 0 {
        lemma_done_is_final(nexts.drop_first());
    }
}

} // verus!
