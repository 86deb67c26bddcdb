use vstd::prelude::*;
use vstd::string::StrSliceExecFns;

verus! {

/// Unicode's White_Space property.
pub open spec fn white_space(c: char) -> bool {
    let u = c as u32;
    (0x09 <= u <= 0x0d) || u == 0x20 || u == 0x85 || u == 0xa0 || u == 0x1680 || (0x2000 <= u
        <= 0x200a) || u == 0x2028 || u == 0x2029 || u == 0x202f || u == 0x205f || u == 0x3000
}

/// Relies on `char::is_whitespace`, documented as Unicode's White_Space property.
#[verifier::external_body]
pub fn char_is_whitespace(c: char) -> (r: bool)
    ensures
        r == white_space(c),
{
    c.is_whitespace()
}

/// Relies on `String`'s `FromIterator<&char>`: the characters in order.
#[verifier::external_body]
pub fn string_from_chars(chars: &[char]) -> (r: String)
    ensures
        r@ == chars@,
{
    chars.iter().collect()
}

/// The characters of `s`, in order.
pub fn chars_of(s: &str) -> (r: Vec<char>)
    ensures
        r@ == s@,
{
    let n = s.unicode_len();
    let mut out: Vec<char> = Vec::new();
    let mut i: usize = 0;
    while i < n
        invariant
            n == s@.len(),
            i <= n,
            out@ == s@.subrange(0, i as int),
        decreases n - i,
    {
        out.push(s.get_char(i));
        i = i + 1;
        assert(out@ =~= s@.subrange(0, i as int));
    }
    assert(out@ =~= s@);
    out
}

} // verus!

verus! {

/// What `str::to_lowercase` makes of a text.
pub uninterp spec fn lower_of(s: Seq<char>) -> Seq<char>;

/// Relies on `str::to_lowercase`: the result depends on the text alone,
/// and empty text stays empty.
#[verifier::external_body]
pub fn lowercase(s: &str) -> (r: String)
    ensures
        r@ == lower_of(s@),
        s@.len() == 0 ==> r@.len() == 0,
{
    s.to_lowercase()
}

/// Whether `q` occurs in `t` at position `i`.
pub open spec fn occurs_at(t: Seq<char>, q: Seq<char>, i: int) -> bool {
    0 <= i && i + q.len() <= t.len() && t.subrange(i, i + q.len()) == q
}

/// Whether `q` occurs somewhere in `t`.
pub open spec fn occurs_in(t: Seq<char>, q: Seq<char>) -> bool {
    exists|i: int| occurs_at(t, q, i)
}

/// Whether `q` occurs in `t`.
pub fn contains_str(t: &str, q: &str) -> (r: bool)
    ensures
        r == occurs_in(t@, q@),
{
    let tc = chars_of(t);
    let qc = chars_of(q);
    let n = tc.len();
    let m = qc.len();
    if m > n {
        assert forall|i: int| !occurs_at(t@, q@, i) by {}
        return false;
    }
    let mut i: usize = 0;
    while i <= n - m
        invariant
            tc@ == t@,
            qc@ == q@,
            n == tc@.len(),
            m == qc@.len(),
            m <= n,
            i <= n - m + 1,
            forall|j: int| 0 <= j < i ==> !occurs_at(t@, q@, j),
        decreases n - i,
    {
        let mut k: usize = 0;
        while k < m && tc[i + k] == qc[k]
            invariant
                tc@ == t@,
                qc@ == q@,
                n == tc@.len(),
                m == qc@.len(),
                i + m <= n,
                k <= m,
                forall|x: int| 0 <= x < k ==> tc@[i + x] == qc@[x],
            decreases m - k,
        {
            k = k + 1;
        }
        if k == m {
            assert(t@.subrange(i as int, i + m) =~= q@);
            assert(occurs_at(t@, q@, i as int));
            return true;
        }
        assert(t@.subrange(i as int, i + m)[k as int] != q@[k as int]);
        i = i + 1;
    }
    assert forall|j: int| !occurs_at(t@, q@, j) by {
        if 0 <= j < i {
        } else if j >= i {
            assert(j + m > n);
        }
    }
    false
}

} // verus!
