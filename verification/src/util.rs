//! Joining URL fragments into a single path.

use vstd::prelude::*;
use vstd::string::StrSliceExecFns;

verus! {

/// `s` without its leading `/` characters.
pub open spec fn trim_leading_slashes(s: Seq<char>) -> Seq<char>
    decreases s.len(),
{
    if s.len() > 0 && s[0] == '/' {
        trim_leading_slashes(s.drop_first())
    } else {
        s
    }
}

/// `s` without its trailing `/` characters.
pub open spec fn trim_trailing_slashes(s: Seq<char>) -> Seq<char>
    decreases s.len(),
{
    if s.len() > 0 && s.last() == '/' {
        trim_trailing_slashes(s.drop_last())
    } else {
        s
    }
}

/// `s` without its leading and trailing `/` characters.
pub open spec fn spec_trim_slashes(s: Seq<char>) -> Seq<char> {
    trim_trailing_slashes(trim_leading_slashes(s))
}

/// The URL fragments, each stripped of leading and trailing slashes, joined
/// with a single slash.
pub open spec fn spec_urljoin(parts: Seq<Seq<char>>) -> Seq<char>
    decreases parts.len(),
{
    if parts.len() == 0 {
        Seq::empty()
    } else if parts.len() == 1 {
        spec_trim_slashes(parts[0])
    } else {
        spec_urljoin(parts.drop_last()) + seq!['/'] + spec_trim_slashes(parts.last())
    }
}

proof fn lemma_trim_leading_range(s: Seq<char>, lo: int)
    requires
        0 <= lo <= s.len(),
        forall|i: int| 0 <= i < lo ==> s[i] == '/',
        lo < s.len() ==> s[lo] != '/',
    ensures
        trim_leading_slashes(s) == s.subrange(lo, s.len() as int),
    decreases lo,
{
    if lo == 0 {
        assert(trim_leading_slashes(s) =~= s.subrange(0, s.len() as int));
    } else {
        assert(s[0] == '/');
        lemma_trim_leading_range(s.drop_first(), lo - 1);
        assert(s.drop_first().subrange(lo - 1, s.drop_first().len() as int) =~= s.subrange(
            lo,
            s.len() as int,
        ));
    }
}

proof fn lemma_trim_trailing_range(s: Seq<char>, hi: int)
    requires
        0 <= hi <= s.len(),
        forall|i: int| hi <= i < s.len() ==> s[i] == '/',
        hi > 0 ==> s[hi - 1] != '/',
    ensures
        trim_trailing_slashes(s) == s.subrange(0, hi),
    decreases s.len() - hi,
{
    if hi == s.len() {
        assert(trim_trailing_slashes(s) =~= s.subrange(0, hi));
    } else {
        assert(s.last() == '/');
        lemma_trim_trailing_range(s.drop_last(), hi);
    }
}

/// Strips leading and trailing `/` characters from a fragment.
fn trim_slashes(s: &str) -> (r: &str)
    ensures
        r@ == spec_trim_slashes(s@),
{
    let n = s.unicode_len();
    let mut lo: usize = 0;
    while lo < n && s.get_char(lo) == '/'
        invariant
            n == s@.len(),
            0 <= lo <= n,
            forall|i: int| 0 <= i < lo ==> s@[i] == '/',
        decreases n - lo,
    {
        lo = lo + 1;
    }
    let mut hi: usize = n;
    while hi > lo && s.get_char(hi - 1) == '/'
        invariant
            n == s@.len(),
            0 <= lo <= hi <= n,
            forall|i: int| hi <= i < n ==> s@[i] == '/',
        decreases hi,
    {
        hi = hi - 1;
    }
    proof {
        lemma_trim_leading_range(s@, lo as int);
        let trimmed = s@.subrange(lo as int, n as int);
        lemma_trim_trailing_range(trimmed, hi - lo);
        assert(trimmed.subrange(0, hi - lo) =~= s@.subrange(lo as int, hi as int));
    }
    s.substring_char(lo, hi)
}

/// Joins URL fragments with single slashes, stripping each fragment's own
/// leading and trailing slashes first.
pub fn urljoin(args: &[&str]) -> (r: String)
    ensures
        r@ == spec_urljoin(args.deep_view()),
{
    let ghost parts = args.deep_view();
    let mut out = String::new();
    let n = args.len();
    proof {
        assert(parts.len() == n);
    }
    let mut i: usize = 0;
    while i < n
        invariant
            n == args@.len(),
            parts == args.deep_view(),
            parts.len() == n,
            0 <= i <= n,
            out@ == spec_urljoin(parts.take(i as int)),
        decreases n - i,
    {
        if i > 0 {
            out.append("/");
            proof {
                reveal_strlit("/");
                assert("/"@ =~= seq!['/']);
            }
        }
        let part = trim_slashes(*vstd::slice::slice_index_get(args, i));
        out.append(part);
        proof {
            assert(args@[i as int]@ == parts[i as int]);
            assert(parts.take(i + 1).drop_last() =~= parts.take(i as int));
            assert(parts.take(i + 1).last() == parts[i as int]);
            if i > 0 {
                assert(out@ =~= spec_urljoin(parts.take(i + 1)));
            } else {
                assert(out@ =~= spec_urljoin(parts.take(1)));
            }
        }
        i = i + 1;
    }
    proof {
        assert(parts.take(n as int) =~= parts);
    }
    out
}

} // verus!
