//! ASCII case folding for discriminant strings.
//!
//! The wire protocol names payload shapes with short ASCII discriminants
//! (`"TTS"`, `"LLM"`, ...) that are matched case-insensitively, so only the
//! ASCII letters are folded; every other character stands for itself.
use vstd::prelude::*;
use vstd::string::StrSliceExecFns;

verus! {

/// The Unicode scalar value of `c`, with ASCII uppercase letters lowered.
pub open spec fn lower_char(c: char) -> u32 {
    if 65 <= c as u32 && c as u32 <= 90 {
        (c as u32 + 32) as u32
    } else {
        c as u32
    }
}

/// The scalar values of `s`, each ASCII-lowercased.
pub open spec fn spec_lower(s: Seq<char>) -> Seq<u32> {
    s.map_values(|c: char| lower_char(c))
}

/// `k` is exactly the ASCII-lowercase form of `s`.
pub open spec fn is_lower_of(k: Seq<char>, s: Seq<char>) -> bool {
    &&& k.len() == s.len()
    &&& forall|i: int| 0 <= i < s.len() ==> (#[trigger] k[i]) as u32 == lower_char(s[i])
}

fn lower_u32(c: char) -> (r: u32)
    ensures
        r == lower_char(c),
{
    let u = c as u32;
    if 65 <= u && u <= 90 {
        u + 32
    } else {
        u
    }
}

/// True exactly when `s` and `t` agree after ASCII lowercasing.
pub fn eq_ignore_ascii_case(s: &str, t: &str) -> (r: bool)
    ensures
        r == (spec_lower(s@) == spec_lower(t@)),
{
    let n = s.unicode_len();
    if n != t.unicode_len() {
        assert(spec_lower(s@).len() != spec_lower(t@).len());
        return false;
    }
    let mut i: usize = 0;
    while i < n
        invariant
            n == s@.len(),
            n == t@.len(),
            i <= n,
            forall|j: int| 0 <= j < i ==> #[trigger] lower_char(s@[j]) == lower_char(t@[j]),
        decreases n - i,
    {
        if lower_u32(s.get_char(i)) != lower_u32(t.get_char(i)) {
            assert(spec_lower(s@)[i as int] != spec_lower(t@)[i as int]);
            return false;
        }
        i += 1;
    }
    assert(spec_lower(s@) =~= spec_lower(t@));
    true
}

/// True exactly when `k` is the ASCII-lowercase form of `s`.
pub fn is_ascii_lower_of(k: &str, s: &str) -> (r: bool)
    ensures
        r == is_lower_of(k@, s@),
{
    let n = k.unicode_len();
    if n != s.unicode_len() {
        return false;
    }
    let mut i: usize = 0;
    while i < n
        invariant
            n == k@.len(),
            n == s@.len(),
            i <= n,
            forall|j: int| 0 <= j < i ==> (#[trigger] k@[j]) as u32 == lower_char(s@[j]),
        decreases n - i,
    {
        if k.get_char(i) as u32 != lower_u32(s.get_char(i)) {
            return false;
        }
        i += 1;
    }
    true
}

} // verus!
