use vstd::prelude::*;
use vstd::string::StrSliceExecFns;

verus! {

/// True when `suf` is a suffix of `s`.
pub open spec fn seq_ends_with(s: Seq<char>, suf: Seq<char>) -> bool {
    suf.len() <= s.len() && s.skip(s.len() - suf.len()) == suf
}

/// All of `s` but its last character.
pub fn drop_last_char(s: &str) -> (r: String)
    requires
        s@.len() > 0,
    ensures
        r@ == s@.drop_last(),
{
    let n = s.unicode_len();
    let stem = s.substring_char(0, n - 1);
    proof {
        assert(stem@ =~= s@.drop_last());
    }
    stem.to_owned()
}

/// The last character of `s`, as a one-character string.
pub fn last_char(s: &str) -> (r: String)
    requires
        s@.len() > 0,
    ensures
        r@ == seq![s@.last()],
{
    let n = s.unicode_len();
    let tail = s.substring_char(n - 1, n);
    proof {
        assert(tail@ =~= seq![s@.last()]);
    }
    tail.to_owned()
}

/// Character-wise equality of two string slices.
pub fn str_eq(a: &str, b: &str) -> (r: bool)
    ensures
        r == (a@ == b@),
{
    let n = a.unicode_len();
    if n != b.unicode_len() {
        return false;
    }
    let mut k: usize = 0;
    while k < n
        invariant
            n == a@.len(),
            n == b@.len(),
            k <= n,
            forall|j: int| 0 <= j < k ==> a@[j] == b@[j],
        decreases n - k,
    {
        if a.get_char(k) != b.get_char(k) {
            return false;
        }
        k += 1;
    }
    proof {
        assert(a@ =~= b@);
    }
    true
}

/// Whether `s` ends with the character sequence of `suffix`.
pub fn str_ends_with(s: &str, suffix: &str) -> (r: bool)
    ensures
        r == seq_ends_with(s@, suffix@),
{
    let n = s.unicode_len();
    let m = suffix.unicode_len();
    if m > n {
        return false;
    }
    let offset = n - m;
    let mut k: usize = 0;
    while k < m
        invariant
            n == s@.len(),
            m == suffix@.len(),
            m <= n,
            offset == n - m,
            k <= m,
            forall|j: int| 0 <= j < k ==> s@[offset + j] == suffix@[j],
        decreases m - k,
    {
        if s.get_char(offset + k) != suffix.get_char(k) {
            proof {
                if seq_ends_with(s@, suffix@) {
                    assert(s@.skip(offset as int)[k as int] == s@[offset + k]);
                }
            }
            return false;
        }
        k += 1;
    }
    proof {
        assert(s@.skip(offset as int) =~= suffix@);
    }
    true
}

} // verus!
