//! Character-level text helpers: appending a character to a `String`,
//! whitespace classification, string equality, and trimming.

use vstd::prelude::*;
use vstd::string::*;

verus! {

/// Whether `c` has the Unicode white-space property, as `char::is_whitespace`
/// decides it. The full property list is long, so it is only named here,
/// never written out.
pub uninterp spec fn is_unicode_space(c: char) -> bool;

/// Relies on char::is_whitespace: true exactly on Unicode white-space, which
/// includes the ASCII space, tab, line feed and carriage return.
#[verifier::external_body]
fn is_space(c: char) -> (r: bool)
    ensures
        r == is_unicode_space(c),
{
    c.is_whitespace()
}

/// Relies on String::push: appends the given character to the end.
#[verifier::external_body]
pub(crate) fn push_char(s: &mut String, c: char)
    ensures
        final(s)@ == old(s)@.push(c),
{
    s.push(c)
}

/// Whether two strings hold the same characters.
pub fn str_eq(a: &str, b: &str) -> (r: bool)
    ensures
        r == (a@ == b@),
{
    let alen = a.unicode_len();
    let blen = b.unicode_len();
    if alen != blen {
        return false;
    }
    let mut i: usize = 0;
    while i < alen
        invariant
            i <= alen,
            alen == a@.len(),
            alen == b@.len(),
            forall|j: int| 0 <= j < i ==> a@[j] == b@[j],
        decreases alen - i,
    {
        if a.get_char(i) != b.get_char(i) {
            return false;
        }
        i = i + 1;
    }
    proof {
        assert(a@ =~= b@);
    }
    true
}

/// `s` with its leading white-space removed.
pub open spec fn trim_start_spec(s: Seq<char>) -> Seq<char>
    decreases s.len(),
{
    if s.len() == 0 {
        s
    } else if is_unicode_space(s[0]) {
        trim_start_spec(s.drop_first())
    } else {
        s
    }
}

/// `s` with its trailing white-space removed.
pub open spec fn trim_end_spec(s: Seq<char>) -> Seq<char>
    decreases s.len(),
{
    if s.len() == 0 {
        s
    } else if is_unicode_space(s.last()) {
        trim_end_spec(s.drop_last())
    } else {
        s
    }
}

/// `s` with white-space removed from both ends, as `str::trim` leaves it.
pub open spec fn trim_spec(s: Seq<char>) -> Seq<char> {
    trim_end_spec(trim_start_spec(s))
}

proof fn lemma_trim_start_prefix(s: Seq<char>, lo: int)
    requires
        0 <= lo <= s.len(),
        forall|j: int| 0 <= j < lo ==> is_unicode_space(s[j]),
        lo == s.len() || !is_unicode_space(s[lo]),
    ensures
        trim_start_spec(s) =~= s.subrange(lo, s.len() as int),
    decreases lo,
{
    if lo == 0 {
        if s.len() == 0 || !is_unicode_space(s[0]) {
            assert(trim_start_spec(s) == s);
        }
        assert(s.subrange(0, s.len() as int) =~= s);
    } else {
        assert(is_unicode_space(s[0]));
        let t = s.drop_first();
        assert(forall|j: int| 0 <= j < lo - 1 ==> is_unicode_space(t[j]));
        lemma_trim_start_prefix(t, lo - 1);
        assert(t.subrange(lo - 1, t.len() as int) =~= s.subrange(lo, s.len() as int));
    }
}

proof fn lemma_trim_end_suffix(t: Seq<char>, hi: int)
    requires
        0 <= hi <= t.len(),
        forall|j: int| hi <= j < t.len() ==> is_unicode_space(t[j]),
        hi == 0 || !is_unicode_space(t[hi - 1]),
    ensures
        trim_end_spec(t) =~= t.subrange(0, hi),
    decreases t.len(),
{
    if hi == t.len() {
        if t.len() == 0 || !is_unicode_space(t.last()) {
            assert(trim_end_spec(t) == t);
        }
        assert(t.subrange(0, t.len() as int) =~= t);
    } else {
        assert(is_unicode_space(t.last()));
        let u = t.drop_last();
        lemma_trim_end_suffix(u, hi);
        assert(u.subrange(0, hi) =~= t.subrange(0, hi));
    }
}

/// `s` with white-space removed from both ends, as a fresh `String`.
pub fn trim(s: &str) -> (r: String)
    ensures
        r@ == trim_spec(s@),
{
    let len = s.unicode_len();
    let mut lo: usize = 0;
    loop
        invariant
            lo <= len,
            len == s@.len(),
            forall|j: int| 0 <= j < lo ==> is_unicode_space(s@[j]),
        ensures
            lo <= len,
            len == s@.len(),
            forall|j: int| 0 <= j < lo ==> is_unicode_space(s@[j]),
            lo == len || !is_unicode_space(s@[lo as int]),
        decreases len - lo,
    {
        if lo == len {
            break ;
        }
        if !is_space(s.get_char(lo)) {
            break ;
        }
        lo = lo + 1;
    }
    let mut hi: usize = len;
    loop
        invariant
            lo <= hi <= len,
            len == s@.len(),
            forall|j: int| hi <= j < len ==> is_unicode_space(s@[j]),
            lo == len || !is_unicode_space(s@[lo as int]),
        ensures
            lo <= hi <= len,
            len == s@.len(),
            forall|j: int| hi <= j < len ==> is_unicode_space(s@[j]),
            hi == lo || !is_unicode_space(s@[hi - 1]),
        decreases hi,
    {
        if hi == lo {
            break ;
        }
        if !is_space(s.get_char(hi - 1)) {
            break ;
        }
        hi = hi - 1;
    }
    let mut out = String::new();
    let mut i: usize = lo;
    while i < hi
        invariant
            lo <= i <= hi <= len,
            len == s@.len(),
            out@ =~= s@.subrange(lo as int, i as int),
        decreases hi - i,
    {
        push_char(&mut out, s.get_char(i));
        proof {
            assert(out@ =~= s@.subrange(lo as int, i + 1 as int));
        }
        i = i + 1;
    }
    proof {
        lemma_trim_start_prefix(s@, lo as int);
        let t = s@.subrange(lo as int, len as int);
        assert(forall|j: int| hi - lo <= j < t.len() ==> is_unicode_space(t[j]));
        if hi > lo {
            assert(t[hi - lo - 1] == s@[hi - 1]);
        }
        lemma_trim_end_suffix(t, hi - lo);
        assert(t.subrange(0, hi - lo) =~= s@.subrange(lo as int, hi as int));
        assert(out@ =~= trim_spec(s@));
    }
    out
}

} // verus!
