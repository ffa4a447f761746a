//! Character and substring matching used by the name, path and fingerprint
//! heuristics.
//!
//! All heuristic patterns in this library are ASCII. Matching a pattern
//! case-insensitively against an observed name compares each character pair
//! after mapping the ASCII letters `A ..= Z` down to their lowercase forms;
//! characters outside that range are compared verbatim.

use vstd::prelude::*;
use vstd::string::StrSliceExecFns;

verus! {

/// Code point of `c` after ASCII lowercasing.
pub open spec fn lower_code(c: char) -> u32 {
    if 'A' <= c && c <= 'Z' {
        (c as u32 + 32) as u32
    } else {
        c as u32
    }
}

/// Two characters are equal up to ASCII case.
pub open spec fn chars_eq_ci(a: char, b: char) -> bool {
    lower_code(a) == lower_code(b)
}

/// `pat` occurs in `s` at offset `k`, up to ASCII case.
pub open spec fn matches_at_ci(pat: Seq<char>, s: Seq<char>, k: int) -> bool {
    forall|j: int| 0 <= j < pat.len() ==> chars_eq_ci(pat[j], s[k + j])
}

/// `pat` occurs somewhere in `s`, up to ASCII case.
pub open spec fn contains_ci(pat: Seq<char>, s: Seq<char>) -> bool {
    exists|k: int| 0 <= k && k + pat.len() <= s.len() && matches_at_ci(pat, s, k)
}

/// `s` begins with `pat`, up to ASCII case.
pub open spec fn starts_with_ci(pat: Seq<char>, s: Seq<char>) -> bool {
    pat.len() <= s.len() && matches_at_ci(pat, s, 0)
}

/// `pat` occurs in `s` at offset `k`, exactly.
pub open spec fn matches_at_cs(pat: Seq<char>, s: Seq<char>, k: int) -> bool {
    forall|j: int| 0 <= j < pat.len() ==> pat[j] == s[k + j]
}

/// `pat` occurs somewhere in `s`, exactly.
pub open spec fn contains_cs(pat: Seq<char>, s: Seq<char>) -> bool {
    exists|k: int| 0 <= k && k + pat.len() <= s.len() && matches_at_cs(pat, s, k)
}

/// Compare two characters up to ASCII case.
pub fn char_eq_ci(a: char, b: char) -> (r: bool)
    ensures
        r == chars_eq_ci(a, b),
{
    let ac: u32 = if 'A' <= a && a <= 'Z' {
        a as u32 + 32
    } else {
        a as u32
    };
    let bc: u32 = if 'A' <= b && b <= 'Z' {
        b as u32 + 32
    } else {
        b as u32
    };
    ac == bc
}

/// Collect the characters of a string slice into a vector.
pub fn chars_vec(s: &str) -> (r: Vec<char>)
    ensures
        r@ == s@,
{
    let n = s.unicode_len();
    let mut v: Vec<char> = Vec::new();
    let mut i: usize = 0;
    while i < n
        invariant
            i <= n,
            n == s@.len(),
            v@ == s@.subrange(0, i as int),
        decreases n - i,
    {
        let c = s.get_char(i);
        v.push(c);
        i += 1;
    }
    proof {
        assert(v@ =~= s@);
    }
    v
}

fn vec_matches_at_ci(pat: &Vec<char>, s: &Vec<char>, k: usize) -> (r: bool)
    requires
        k + pat@.len() <= s@.len(),
    ensures
        r == matches_at_ci(pat@, s@, k as int),
{
    let slen = s.len();
    let mut j: usize = 0;
    while j < pat.len()
        invariant
            j <= pat@.len(),
            k + pat@.len() <= slen,
            slen == s@.len(),
            forall|t: int| 0 <= t < j ==> chars_eq_ci(pat@[t], s@[k + t]),
        decreases pat@.len() - j,
    {
        if !char_eq_ci(pat[j], s[k + j]) {
            assert(!chars_eq_ci(pat@[j as int], s@[k + j]));
            return false;
        }
        j += 1;
    }
    true
}

fn vec_matches_at_cs(pat: &Vec<char>, s: &Vec<char>, k: usize) -> (r: bool)
    requires
        k + pat@.len() <= s@.len(),
    ensures
        r == matches_at_cs(pat@, s@, k as int),
{
    let slen = s.len();
    let mut j: usize = 0;
    while j < pat.len()
        invariant
            j <= pat@.len(),
            k + pat@.len() <= slen,
            slen == s@.len(),
            forall|t: int| 0 <= t < j ==> pat@[t] == s@[k + t],
        decreases pat@.len() - j,
    {
        if pat[j] != s[k + j] {
            assert(pat@[j as int] != s@[k + j]);
            return false;
        }
        j += 1;
    }
    true
}

fn vec_contains_ci(pat: &Vec<char>, s: &Vec<char>) -> (r: bool)
    ensures
        r == contains_ci(pat@, s@),
{
    if pat.len() > s.len() {
        return false;
    }
    let bound = s.len() - pat.len();
    let mut k: usize = 0;
    loop
        invariant
            pat@.len() <= s@.len(),
            bound == s@.len() - pat@.len(),
            k <= bound,
            forall|t: int| 0 <= t < k ==> !matches_at_ci(pat@, s@, t),
        decreases bound - k,
    {
        if vec_matches_at_ci(pat, s, k) {
            assert(contains_ci(pat@, s@));
            return true;
        }
        if k == bound {
            assert(forall|t: int|
                0 <= t && t + pat@.len() <= s@.len() ==> !matches_at_ci(pat@, s@, t));
            return false;
        }
        k += 1;
    }
}

fn vec_contains_cs(pat: &Vec<char>, s: &Vec<char>) -> (r: bool)
    ensures
        r == contains_cs(pat@, s@),
{
    if pat.len() > s.len() {
        return false;
    }
    let bound = s.len() - pat.len();
    let mut k: usize = 0;
    loop
        invariant
            pat@.len() <= s@.len(),
            bound == s@.len() - pat@.len(),
            k <= bound,
            forall|t: int| 0 <= t < k ==> !matches_at_cs(pat@, s@, t),
        decreases bound - k,
    {
        if vec_matches_at_cs(pat, s, k) {
            assert(contains_cs(pat@, s@));
            return true;
        }
        if k == bound {
            assert(forall|t: int|
                0 <= t && t + pat@.len() <= s@.len() ==> !matches_at_cs(pat@, s@, t));
            return false;
        }
        k += 1;
    }
}

/// Does `hay` contain `pat`, up to ASCII case?
pub fn str_contains_ci(hay: &str, pat: &str) -> (r: bool)
    ensures
        r == contains_ci(pat@, hay@),
{
    let h = chars_vec(hay);
    let p = chars_vec(pat);
    vec_contains_ci(&p, &h)
}

/// Does `hay` contain `pat`, exactly?
pub fn str_contains_cs(hay: &str, pat: &str) -> (r: bool)
    ensures
        r == contains_cs(pat@, hay@),
{
    let h = chars_vec(hay);
    let p = chars_vec(pat);
    vec_contains_cs(&p, &h)
}

/// Does `hay` begin with `pat`, up to ASCII case?
pub fn str_starts_with_ci(hay: &str, pat: &str) -> (r: bool)
    ensures
        r == starts_with_ci(pat@, hay@),
{
    let h = chars_vec(hay);
    let p = chars_vec(pat);
    if p.len() > h.len() {
        return false;
    }
    vec_matches_at_ci(&p, &h, 0)
}

} // verus!
