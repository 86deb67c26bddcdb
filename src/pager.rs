use vstd::prelude::*;

verus! {

/// First index of the window of `page_size` entries over a list of
/// `total` entries that shows entry `cursor`: the cursor is centred, and the
/// window is pushed back inside the list where centring would leave it.
pub open spec fn page_start(total: int, page_size: int, cursor: int) -> int {
    if total <= page_size {
        0
    } else if cursor < page_size / 2 {
        0
    } else if cursor - page_size / 2 > total - page_size {
        total - page_size
    } else {
        cursor - page_size / 2
    }
}

/// One past the last index of that window.
pub open spec fn page_end(total: int, page_size: int, cursor: int) -> int {
    if total <= page_size {
        total
    } else {
        page_start(total, page_size, cursor) + page_size
    }
}

/// The visible part of a list.
pub struct Page<'a, T> {
    /// The entries shown, in list order.
    pub content: &'a [T],
    /// Index within `content` of the highlighted entry.
    pub selection: usize,
    /// Whether the window starts at the head of the list.
    pub first: bool,
    /// Whether the window ends at the last entry of the list.
    pub last: bool,
    /// Length of the whole list.
    pub total: usize,
}

/// Start and end (exclusive) of the window shown for a list of `total`
/// entries, `page_size` at a time, with entry `cursor` highlighted.
pub fn page_bounds(total: usize, page_size: usize, cursor: usize) -> (r: (usize, usize))
    requires
        page_size > 0,
        cursor < total,
    ensures
        r.0 == page_start(total as int, page_size as int, cursor as int),
        r.1 == page_end(total as int, page_size as int, cursor as int),
        r.0 <= cursor < r.1 <= total,
        r.1 - r.0 == if total <= page_size { total } else { page_size },
{
    let half = page_size / 2;
    if total <= page_size {
        (0, total)
    } else if cursor < half {
        (0, page_size)
    } else if cursor - half > total - page_size {
        (total - page_size, total)
    } else {
        (cursor - half, cursor - half + page_size)
    }
}

/// The window of `choices` shown `page_size` at a time with entry `sel`
/// highlighted.
pub fn paginate<'a, T>(page_size: usize, choices: &'a [T], sel: usize) -> (r: Page<'a, T>)
    requires
        page_size > 0,
        sel < choices@.len(),
    ensures
        ({
            let n = choices@.len() as int;
            let s = page_start(n, page_size as int, sel as int);
            let e = page_end(n, page_size as int, sel as int);
            &&& r.content@ == choices@.subrange(s, e)
            &&& r.selection == sel - s
            &&& r.first == (s == 0)
            &&& r.last == (e == n)
            &&& r.total == n
        }),
        r.content@.len() <= page_size,
        r.selection < r.content@.len(),
{
    let n = choices.len();
    let (s, e) = page_bounds(n, page_size, sel);
    Page { content: &choices[s..e], selection: sel - s, first: s == 0, last: e == n, total: n }
}

} // verus!
