//! Walking every page of a list operation. The requests are sent by the
//! caller; a walk decides, from each page that came back, whether another
//! page follows and which cursor or offset asks for it, and gathers the
//! records in the order the pages arrived.

use crate::types::ListResult;
use vstd::prelude::*;

verus! {

/// The records of `pages`, one page after another.
pub open spec fn concat<T>(pages: Seq<Seq<T>>) -> Seq<T>
    decreases pages.len(),
{
    if pages.len() == 0 {
        Seq::empty()
    } else {
        concat(pages.drop_last()) + pages.last()
    }
}

/// Whether the page answered with `has_next_page` and `end_cursor` is
/// followed by another one under cursor-based pagination.
pub open spec fn cursor_continues(has_next_page: bool, end_cursor: Option<String>) -> bool {
    has_next_page && end_cursor is Some
}

/// Whether the page answered with `has_next_page` and `count` records is
/// followed by another one under offset-based pagination.
pub open spec fn offset_continues(has_next_page: bool, count: nat) -> bool {
    has_next_page && count > 0
}

/// A walk over the pages of a cursor-paginated list: each request carries
/// the `end_cursor` of the page before it, until a page says no other
/// follows or carries no cursor.
pub struct CursorWalk<T> {
    after: Option<String>,
    items: Vec<T>,
    finished: bool,
    pages: Ghost<Seq<Seq<T>>>,
}

impl<T> CursorWalk<T> {
    /// The records gathered so far.
    pub closed spec fn items(&self) -> Seq<T> {
        self.items@
    }

    /// The records of each page accepted so far, in order.
    pub closed spec fn pages(&self) -> Seq<Seq<T>> {
        self.pages@
    }

    /// The cursor the next request carries as `after`.
    pub closed spec fn cursor(&self) -> Option<String> {
        self.after
    }

    /// Whether the last page has been accepted.
    pub closed spec fn finished(&self) -> bool {
        self.finished
    }

    /// The records gathered are those of the pages accepted.
    pub closed spec fn wf(&self) -> bool {
        self.items@ == concat(self.pages@)
    }

    /// A walk whose first request carries `after`.
    pub fn new(after: Option<String>) -> (w: Self)
        ensures
            w.wf(),
            w.items() == Seq::<T>::empty(),
            w.pages() == Seq::<Seq<T>>::empty(),
            w.cursor() == after,
            !w.finished(),
    {
        CursorWalk { after, items: Vec::new(), finished: false, pages: Ghost(Seq::empty()) }
    }

    /// Whether the last page has been accepted.
    pub fn is_finished(&self) -> (b: bool)
        ensures
            b == self.finished(),
    {
        self.finished
    }

    /// The cursor the next request carries as `after`.
    pub fn next_after(&self) -> (a: Option<String>)
        ensures
            a == self.cursor(),
    {
        match &self.after {
            Some(c) => Some(c.clone()),
            None => None,
        }
    }

    /// Takes in the page the last request was answered with: its records
    /// join the others, and the walk goes on under the page's end cursor
    /// exactly when the page says another follows and carries a cursor.
    pub fn accept(&mut self, page: ListResult<T>)
        requires
            old(self).wf(),
            !old(self).finished(),
        ensures
            final(self).wf(),
            final(self).pages() == old(self).pages().push(page.nodes@),
            final(self).items() == old(self).items() + page.nodes@,
            final(self).finished() == !cursor_continues(
                page.page_info.has_next_page,
                page.page_info.end_cursor,
            ),
            !final(self).finished() ==> final(self).cursor() == page.page_info.end_cursor,
    {
        let ListResult { nodes, page_info } = page;
        let ghost received = nodes@;
        let ghost before = self.pages@;
        let mut nodes = nodes;
        self.items.append(&mut nodes);
        self.pages = Ghost(self.pages@.push(received));
        assert(self.pages@.drop_last() == before);
        if page_info.has_next_page {
            match page_info.end_cursor {
                Some(c) => {
                    self.after = Some(c);
                },
                None => {
                    self.finished = true;
                },
            }
        } else {
            self.finished = true;
        }
    }

    /// The records of every page accepted, in order.
    pub fn into_items(self) -> (v: Vec<T>)
        requires
            self.wf(),
        ensures
            v@ == concat(self.pages()),
            v@ == self.items(),
    {
        self.items
    }
}

/// A walk over the pages of an offset-paginated list: each request asks for
/// the records after those already received, until a page says no other
/// follows or comes back empty.
pub struct OffsetWalk<T> {
    start: i32,
    offset: i32,
    items: Vec<T>,
    finished: bool,
    pages: Ghost<Seq<Seq<T>>>,
}

impl<T> OffsetWalk<T> {
    /// The records gathered so far.
    pub closed spec fn items(&self) -> Seq<T> {
        self.items@
    }

    /// The records of each page accepted so far, in order.
    pub closed spec fn pages(&self) -> Seq<Seq<T>> {
        self.pages@
    }

    /// The offset the first request carried.
    pub closed spec fn start(&self) -> i32 {
        self.start
    }

    /// The offset the next request carries.
    pub closed spec fn offset(&self) -> i32 {
        self.offset
    }

    /// Whether the last page has been accepted.
    pub closed spec fn finished(&self) -> bool {
        self.finished
    }

    /// The records gathered are those of the pages accepted, and until the
    /// walk ends the next offset follows the last record received.
    pub closed spec fn wf(&self) -> bool {
        &&& self.items@ == concat(self.pages@)
        &&& !self.finished ==> self.offset == self.start + self.items@.len()
    }

    /// A walk whose first request carries `offset`, or 0 when none is given.
    pub fn new(offset: Option<i32>) -> (w: Self)
        ensures
            w.wf(),
            w.items() == Seq::<T>::empty(),
            w.pages() == Seq::<Seq<T>>::empty(),
            w.start() == (match offset {
                Some(o) => o,
                None => 0,
            }),
            w.offset() == w.start(),
            !w.finished(),
    {
        let start: i32 = match offset {
            Some(o) => o,
            None => 0,
        };
        OffsetWalk {
            start,
            offset: start,
            items: Vec::new(),
            finished: false,
            pages: Ghost(Seq::empty()),
        }
    }

    /// Whether the last page has been accepted.
    pub fn is_finished(&self) -> (b: bool)
        ensures
            b == self.finished(),
    {
        self.finished
    }

    /// The offset the next request carries.
    pub fn next_offset(&self) -> (o: i32)
        ensures
            o == self.offset(),
    {
        self.offset
    }

    /// Takes in the page the last request was answered with: its records
    /// join the others, and the walk goes on past them exactly when the page
    /// says another follows and is not empty. The next offset must fit in
    /// an `i32`.
    pub fn accept(&mut self, page: ListResult<T>)
        requires
            old(self).wf(),
            !old(self).finished(),
            page.nodes@.len() <= i32::MAX,
            offset_continues(page.page_info.has_next_page, page.nodes@.len()) ==> old(
                self,
            ).offset() + page.nodes@.len() <= i32::MAX,
        ensures
            final(self).wf(),
            final(self).start() == old(self).start(),
            final(self).pages() == old(self).pages().push(page.nodes@),
            final(self).items() == old(self).items() + page.nodes@,
            final(self).finished() == !offset_continues(
                page.page_info.has_next_page,
                page.nodes@.len(),
            ),
            !final(self).finished() ==> final(self).offset() == old(self).offset()
                + page.nodes@.len(),
    {
        let ListResult { nodes, page_info } = page;
        let ghost received = nodes@;
        let ghost before = self.pages@;
        let count = nodes.len();
        let mut nodes = nodes;
        self.items.append(&mut nodes);
        self.pages = Ghost(self.pages@.push(received));
        assert(self.pages@.drop_last() == before);
        if !page_info.has_next_page || count == 0 {
            self.finished = true;
        } else {
            self.offset = self.offset + count as i32;
        }
    }

    /// The records of every page accepted, in order.
    pub fn into_items(self) -> (v: Vec<T>)
        requires
            self.wf(),
        ensures
            v@ == concat(self.pages()),
            v@ == self.items(),
    {
        self.items
    }
}

/// A cursor walk holds exactly the records of the pages it accepted, in the
/// order they came.
pub proof fn lemma_cursor_walk_gathers_pages<T>(w: &CursorWalk<T>)
    requires
        w.wf(),
    ensures
        w.items() == concat(w.pages()),
{
}

/// An offset walk holds exactly the records of the pages it accepted, in
/// the order they came, and until it ends its next request starts right
/// after the last record received.
pub proof fn lemma_offset_walk_is_contiguous<T>(w: &OffsetWalk<T>)
    requires
        w.wf(),
    ensures
        w.items() == concat(w.pages()),
        !w.finished() ==> w.offset() == w.start() + w.items().len(),
{
}

/// The records of pages gathered one after another are those of all the
/// pages together: `concat` of the pages followed by one more page is the
/// records so far followed by that page.
pub proof fn lemma_concat_push<T>(pages: Seq<Seq<T>>, page: Seq<T>)
    ensures
        concat(pages.push(page)) == concat(pages) + page,
        concat(pages.push(page)).len() == concat(pages).len() + page.len(),
{
    assert(pages.push(page).drop_last() == pages);
}

} // verus!
