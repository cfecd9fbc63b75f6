use vstd::prelude::*;

use crate::queue::Track;

verus! {

/// How many pages a queue of `len` tracks takes at `size` per page: the
/// ceiling of `len / size`, and at least one (an empty queue still shows a
/// "nothing queued" page).
pub open spec fn page_count(len: nat, size: nat) -> nat {
    let full = len / size;
    let pages = if len % size == 0 {
        full
    } else {
        full + 1
    };
    if pages == 0 {
        1
    } else {
        pages
    }
}

/// A stored page index brought back within the pages that exist now.
pub open spec fn clamp_page(stored: nat, len: nat, size: nat) -> nat {
    let last = (page_count(len, size) - 1) as nat;
    if stored <= last {
        stored
    } else {
        last
    }
}

/// What a queue display shows: one page of tracks and its navigation.
pub struct PageModel {
    pub page: nat,
    pub page_count: nat,
    pub tracks: Seq<Track>,
    pub has_prev: bool,
    pub has_next: bool,
}

/// The view of page `clamp_page(stored, ..)` of `s` at `size` per page.
pub open spec fn page_model(s: Seq<Track>, stored: nat, size: nat) -> PageModel {
    let count = page_count(s.len(), size);
    let page = clamp_page(stored, s.len(), size);
    let lo: int = (page * size) as int;
    let hi: int = if lo + size <= s.len() {
        lo + size
    } else {
        s.len() as int
    };
    PageModel {
        page,
        page_count: count,
        tracks: s.subrange(lo as int, hi),
        has_prev: page > 0,
        has_next: page + 1 < count,
    }
}

/// The data a queue display is rendered from.
pub struct QueuePage {
    pub page: usize,
    pub page_count: usize,
    pub tracks: Vec<Track>,
    pub has_prev: bool,
    pub has_next: bool,
}

impl View for QueuePage {
    type V = PageModel;

    open spec fn view(&self) -> PageModel {
        PageModel {
            page: self.page as nat,
            page_count: self.page_count as nat,
            tracks: self.tracks@,
            has_prev: self.has_prev,
            has_next: self.has_next,
        }
    }
}

proof fn lemma_page_start_fits(len: nat, size: nat, page: nat)
    requires
        size > 0,
        page < page_count(len, size),
    ensures
        page * size <= len,
{
    let q = len / size;
    let r = len % size;
    vstd::arithmetic::div_mod::lemma_fundamental_div_mod(len as int, size as int);
    if len == 0 {
        assert(page == 0);
    } else if r == 0 {
        assert(q != 0) by (nonlinear_arith)
            requires
                len == size * q,
                len > 0,
        ;
        assert(page + 1 <= q);
        assert(page * size <= q * size) by (nonlinear_arith)
            requires
                page <= q,
        ;
    } else {
        assert(page <= q);
        assert(page * size <= q * size) by (nonlinear_arith)
            requires
                page <= q,
        ;
    }
    assert(size * q == q * size) by (nonlinear_arith);
}

/// The number of pages for `len` tracks at `size` per page.
pub fn num_pages(len: usize, size: usize) -> (r: usize)
    requires
        size > 0,
    ensures
        r == page_count(len as nat, size as nat),
{
    let full = len / size;
    proof {
        let q = full as int;
        vstd::arithmetic::div_mod::lemma_fundamental_div_mod(len as int, size as int);
        assert(q <= size * q) by (nonlinear_arith)
            requires
                size >= 1,
                q >= 0,
        ;
    }
    let pages = if len % size == 0 {
        full
    } else {
        full + 1
    };
    if pages == 0 {
        1
    } else {
        pages
    }
}

/// A stored page index clamped to the last page that exists for `len`
/// tracks.
pub fn clamp_stored_page(stored: usize, len: usize, size: usize) -> (r: usize)
    requires
        size > 0,
    ensures
        r == clamp_page(stored as nat, len as nat, size as nat),
{
    let last = num_pages(len, size) - 1;
    if stored <= last {
        stored
    } else {
        last
    }
}

/// Renders the view of the page a display had open (clamped to the pages
/// that exist now) over the snapshot `tracks`.
pub fn render_page(tracks: &[Track], stored: usize, size: usize) -> (r: QueuePage)
    requires
        size > 0,
    ensures
        r@ == page_model(tracks@, stored as nat, size as nat),
{
    let len = tracks.len();
    let count = num_pages(len, size);
    let page = clamp_stored_page(stored, len, size);
    proof {
        lemma_page_start_fits(len as nat, size as nat, page as nat);
    }
    let lo = page * size;
    let hi = if len - lo >= size {
        lo + size
    } else {
        len
    };
    let mut out: Vec<Track> = Vec::new();
    let mut i = lo;
    while i < hi
        invariant
            lo <= i <= hi <= len,
            len == tracks@.len(),
            out@ == tracks@.subrange(lo as int, i as int),
        decreases hi - i,
    {
        out.push(tracks[i]);
        i += 1;
        assert(out@ =~= tracks@.subrange(lo as int, i as int));
    }
    QueuePage { page, page_count: count, tracks: out, has_prev: page > 0, has_next: page + 1 < count }
}

/// Re-rendering is stable: once a display's stored page has been clamped
/// and rendered, rendering the same snapshot again from the stored page
/// gives the same view.
pub proof fn lemma_render_stable(s: Seq<Track>, stored: nat, size: nat)
    requires
        size > 0,
    ensures
        page_model(s, clamp_page(stored, s.len(), size), size) == page_model(s, stored, size),
{
}

} // verus!
