//! Small string helpers shared by the command table and the launch planner.

use vstd::prelude::*;
use vstd::string::StrSliceExecFns;

verus! {

/// Relies on str's PartialEq: two string slices are equal exactly when their
/// character sequences are.
#[verifier::external_body]
pub(crate) fn str_eq(a: &str, b: &str) -> (r: bool)
    ensures
        r == (a@ == b@),
{
    a == b
}

/// Whitespace as the launcher strips it from typed input.
pub open spec fn is_blank(c: char) -> bool {
    c == ' ' || c == '\t' || c == '\n' || c == '\r'
}

fn is_blank_char(c: char) -> (r: bool)
    ensures
        r == is_blank(c),
{
    c == ' ' || c == '\t' || c == '\n' || c == '\r'
}

/// The sequence with its leading blanks removed.
pub open spec fn trim_front(s: Seq<char>) -> Seq<char>
    decreases s.len(),
{
    if s.len() > 0 && is_blank(s[0]) {
        trim_front(s.drop_first())
    } else {
        s
    }
}

/// The sequence with its trailing blanks removed.
pub open spec fn trim_back(s: Seq<char>) -> Seq<char>
    decreases s.len(),
{
    if s.len() > 0 && is_blank(s.last()) {
        trim_back(s.drop_last())
    } else {
        s
    }
}

/// The sequence with leading and trailing blanks removed.
pub open spec fn trim_spec(s: Seq<char>) -> Seq<char> {
    trim_back(trim_front(s))
}

/// Strip leading and trailing blanks from a string slice.
pub fn trim(s: &str) -> (r: &str)
    ensures
        r@ == trim_spec(s@),
{
    let n = s.unicode_len();
    let mut lo: usize = 0;
    proof {
        assert(s@.skip(0) =~= s@);
    }
    loop
        invariant
            0 <= lo <= n,
            n == s@.len(),
            trim_front(s@) == trim_front(s@.skip(lo as int)),
        ensures
            lo >= n || !is_blank(s@[lo as int]),
        decreases n - lo,
    {
        if lo >= n {
            break ;
        }
        let c = s.get_char(lo);
        if !is_blank_char(c) {
            break ;
        }
        proof {
            assert(s@.skip(lo as int)[0] == s@[lo as int]);
            assert(s@.skip(lo as int).drop_first() =~= s@.skip(lo as int + 1));
        }
        lo = lo + 1;
    }
    proof {
        if lo < n {
            assert(s@.skip(lo as int)[0] == s@[lo as int]);
        }
        assert(trim_front(s@.skip(lo as int)) == s@.skip(lo as int));
    }
    let mut hi: usize = n;
    proof {
        assert(s@.subrange(lo as int, n as int) =~= s@.skip(lo as int));
    }
    loop
        invariant
            lo <= hi <= n,
            n == s@.len(),
            trim_front(s@) == s@.skip(lo as int),
            trim_back(s@.skip(lo as int)) == trim_back(s@.subrange(lo as int, hi as int)),
        ensures
            lo <= hi <= n,
            hi <= lo || !is_blank(s@[hi as int - 1]),
            trim_back(s@.skip(lo as int)) == trim_back(s@.subrange(lo as int, hi as int)),
        decreases hi,
    {
        if hi <= lo {
            break ;
        }
        let c = s.get_char(hi - 1);
        if !is_blank_char(c) {
            break ;
        }
        proof {
            let part = s@.subrange(lo as int, hi as int);
            assert(part.last() == s@[hi as int - 1]);
            assert(part.drop_last() =~= s@.subrange(lo as int, hi as int - 1));
        }
        hi = hi - 1;
    }
    proof {
        let part = s@.subrange(lo as int, hi as int);
        if hi > lo {
            assert(part.last() == s@[hi as int - 1]);
        }
        assert(trim_back(part) == part);
    }
    s.substring_char(lo, hi)
}

} // verus!
