//! What a finished helper command leaves behind, and the tests that read it.
use vstd::prelude::*;
use crate::error::Error;
use crate::pattern::{regex_is_match, regex_result};
use crate::request::texts;

verus! {

/// A finished helper command: whether it exited with success, and its
/// standard output and error as text.
pub struct Output {
    pub success: bool,
    pub stdout: String,
    pub stderr: String,
}

/// Whether `pattern` matches somewhere in `text`; a pattern that does not
/// compile is an error.
pub fn pattern_matches(pattern: &str, text: &str) -> (r: Result<bool, Error>)
    ensures
        match regex_result(pattern@, text@) {
            Some(b) => r == Ok::<bool, Error>(b),
            None => (r matches Err(Error::Regex(p)) && p@ == pattern@),
        },
{
    match regex_is_match(pattern, text) {
        Some(b) => Ok(b),
        None => Err(Error::Regex(pattern.to_owned())),
    }
}

/// Whether `pat` occurs in `text`.
pub open spec fn occurs(text: Seq<char>, pat: Seq<char>) -> bool {
    exists|i: int| 0 <= i && i + pat.len() <= text.len() && #[trigger] text.subrange(i, i + pat.len()) == pat
}

/// Whether `pat` occurs in `text`.
pub fn contains_text(text: &str, pat: &str) -> (r: bool)
    ensures
        r == occurs(text@, pat@),
{
    let n = text.unicode_len();
    let m = pat.unicode_len();
    if m > n {
        return false;
    }
    let mut i: usize = 0;
    while i <= n - m
        invariant
            n == text@.len(),
            m == pat@.len(),
            m <= n,
            i <= n - m + 1,
            forall|k: int| 0 <= k < i ==> #[trigger] text@.subrange(k, k + m) != pat@,
        decreases n - m + 1 - i,
    {
        let mut j: usize = 0;
        let mut same = true;
        while j < m
            invariant
                n == text@.len(),
                m == pat@.len(),
                i + m <= n,
                j <= m,
                same == (forall|q: int| 0 <= q < j ==> text@[i + q] == pat@[q]),
            decreases m - j,
        {
            if text.get_char(i + j) != pat.get_char(j) {
                same = false;
            }
            j = j + 1;
        }
        if same {
            assert(text@.subrange(i as int, i + m) =~= pat@);
            return true;
        }
        assert(text@.subrange(i as int, i + m)[0] == text@[i as int]);
        assert(text@.subrange(i as int, i + m) != pat@) by {
            let q = choose|q: int| 0 <= q < m && text@[i + q] != pat@[q];
            assert(text@.subrange(i as int, i + m)[q] == text@[i + q]);
        }
        i = i + 1;
    }
    assert(!occurs(text@, pat@)) by {
        if occurs(text@, pat@) {
            let k = choose|k: int| 0 <= k && k + m <= n && #[trigger] text@.subrange(k, k + m) == pat@;
            assert(k < i);
        }
    }
    false
}

/// An argument list made of the given words.
pub fn argv(parts: &[&str]) -> (r: Vec<String>)
    ensures
        texts(r@) == parts@.map_values(|p: &str| p@),
{
    let mut args: Vec<String> = Vec::new();
    let mut i: usize = 0;
    while i < parts.len()
        invariant
            i <= parts@.len(),
            args@.len() == i,
            forall|k: int| 0 <= k < i ==> (#[trigger] args@[k])@ == parts@[k]@,
        decreases parts@.len() - i,
    {
        let a: &str = parts[i];
        args.push(a.to_owned());
        i = i + 1;
    }
    assert(texts(args@) =~= parts@.map_values(|p: &str| p@));
    args
}

/// The concatenation of two texts.
pub fn join2(a: &str, b: &str) -> (r: String)
    ensures
        r@ == a@ + b@,
{
    let mut r = a.to_owned();
    r.append(b);
    r
}

/// The concatenation of three texts.
pub fn join3(a: &str, b: &str, c: &str) -> (r: String)
    ensures
        r@ == a@ + b@ + c@,
{
    let mut r = a.to_owned();
    r.append(b);
    r.append(c);
    r
}

} // verus!
