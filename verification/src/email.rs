//! The email syntax rule: one or more local-part characters, a single `@`,
//! one or more domain characters, then a final label of two or more letters
//! after the last dot. [`valid_email`] states the rule as a decomposition of
//! the character sequence; [`matches_email`] decides it.

use vstd::prelude::*;
use vstd::string::StrSliceExecFns;

verus! {

/// An ASCII letter.
pub open spec fn is_alpha_char(c: char) -> bool {
    let u = c as u32;
    (0x41 <= u && u <= 0x5A) || (0x61 <= u && u <= 0x7A)
}

/// An ASCII digit.
pub open spec fn is_digit_char(c: char) -> bool {
    let u = c as u32;
    0x30 <= u && u <= 0x39
}

/// A character the local part (before the `@`) may contain.
pub open spec fn is_local_char(c: char) -> bool {
    is_alpha_char(c) || is_digit_char(c) || c == '.' || c == '_' || c == '%' || c == '+' || c
        == '-'
}

/// A character the domain (between the `@` and the last dot) may contain.
pub open spec fn is_domain_char(c: char) -> bool {
    is_alpha_char(c) || is_digit_char(c) || c == '.' || c == '-'
}

/// `s` splits as `local '@' domain '.' label` with the `@` at `at` and the
/// final dot at `dot`: a non-empty local part of local characters, a
/// non-empty domain of domain characters, and a label of two or more
/// letters.
pub open spec fn email_split_at(s: Seq<char>, at: int, dot: int) -> bool {
    &&& 1 <= at
    &&& at + 2 <= dot
    &&& dot + 3 <= s.len()
    &&& s[at] == '@'
    &&& s[dot] == '.'
    &&& (forall|i: int| 0 <= i < at ==> is_local_char(s[i]))
    &&& (forall|i: int| at < i < dot ==> is_domain_char(s[i]))
    &&& (forall|i: int| dot < i < s.len() ==> is_alpha_char(s[i]))
}

/// The email syntax rule over a character sequence.
pub open spec fn valid_email(s: Seq<char>) -> bool {
    exists|at: int, dot: int| email_split_at(s, at, dot)
}

/// In any valid split, the `@` is the first (indeed only) `@` of the string:
/// no region of the split admits one.
proof fn lemma_split_pins_at(s: Seq<char>, at: int, dot: int, a: int)
    requires
        email_split_at(s, at, dot),
        0 <= a < s.len(),
        s[a] == '@',
        forall|j: int| 0 <= j < a ==> s[j] != '@',
    ensures
        at == a,
{
    if at < a {
        assert(s[at] != '@');
    }
    if at > a {
        assert(is_local_char(s[a]));
    }
}

/// In any valid split, the separating dot is the last dot after the `@`:
/// every later position holds a letter.
proof fn lemma_split_pins_dot(s: Seq<char>, at: int, dot: int, d: int)
    requires
        email_split_at(s, at, dot),
        at < d < s.len(),
        s[d] == '.',
        forall|j: int| d < j < s.len() ==> s[j] != '.',
    ensures
        dot == d,
{
    if dot > d {
        assert(s[dot] != '.');
    }
    if dot < d {
        assert(is_alpha_char(s[d]));
    }
}

/// Whether `c` is an ASCII letter.
fn alpha_char(c: char) -> (r: bool)
    ensures
        r == is_alpha_char(c),
{
    let u: u32 = c as u32;
    (0x41 <= u && u <= 0x5A) || (0x61 <= u && u <= 0x7A)
}

/// Whether `c` is an ASCII digit.
fn digit_char(c: char) -> (r: bool)
    ensures
        r == is_digit_char(c),
{
    let u: u32 = c as u32;
    0x30 <= u && u <= 0x39
}

/// Whether `c` may appear in the local part.
fn local_char(c: char) -> (r: bool)
    ensures
        r == is_local_char(c),
{
    alpha_char(c) || digit_char(c) || c == '.' || c == '_' || c == '%' || c == '+' || c == '-'
}

/// Whether `c` may appear in the domain.
fn domain_char(c: char) -> (r: bool)
    ensures
        r == is_domain_char(c),
{
    alpha_char(c) || digit_char(c) || c == '.' || c == '-'
}

/// The position of the first `@` of `s`, if any.
fn first_at(s: &str, n: usize) -> (r: Option<usize>)
    requires
        n == s@.len(),
    ensures
        match r {
            Some(i) => i < n && s@[i as int] == '@' && (forall|j: int| 0 <= j < i ==> s@[j] != '@'),
            None => forall|j: int| 0 <= j < n ==> s@[j] != '@',
        },
{
    let mut i: usize = 0;
    while i < n
        invariant
            n == s@.len(),
            i <= n,
            forall|j: int| 0 <= j < i ==> s@[j] != '@',
        decreases n - i,
    {
        if s.get_char(i) == '@' {
            return Some(i);
        }
        i += 1;
    }
    None
}

/// The position of the last `.` of `s` strictly after `lo`, if any.
fn last_dot_after(s: &str, lo: usize, n: usize) -> (r: Option<usize>)
    requires
        n == s@.len(),
        lo < n,
    ensures
        match r {
            Some(i) => lo < i && i < n && s@[i as int] == '.' && (forall|j: int|
                i < j < n ==> s@[j] != '.'),
            None => forall|j: int| lo < j < n ==> s@[j] != '.',
        },
{
    let mut i: usize = n;
    while i > lo + 1
        invariant
            n == s@.len(),
            lo + 1 <= i <= n,
            forall|j: int| i <= j < n ==> s@[j] != '.',
        decreases i,
    {
        i -= 1;
        if s.get_char(i) == '.' {
            return Some(i);
        }
    }
    None
}

/// Whether every character of `s` in `[lo, hi)` is a local-part character.
fn all_local(s: &str, lo: usize, hi: usize) -> (r: bool)
    requires
        lo <= hi <= s@.len(),
    ensures
        r == (forall|j: int| lo <= j < hi ==> is_local_char(s@[j])),
{
    let mut i: usize = lo;
    while i < hi
        invariant
            lo <= i <= hi <= s@.len(),
            forall|j: int| lo <= j < i ==> is_local_char(s@[j]),
        decreases hi - i,
    {
        if !local_char(s.get_char(i)) {
            return false;
        }
        i += 1;
    }
    true
}

/// Whether every character of `s` in `[lo, hi)` is a domain character.
fn all_domain(s: &str, lo: usize, hi: usize) -> (r: bool)
    requires
        lo <= hi <= s@.len(),
    ensures
        r == (forall|j: int| lo <= j < hi ==> is_domain_char(s@[j])),
{
    let mut i: usize = lo;
    while i < hi
        invariant
            lo <= i <= hi <= s@.len(),
            forall|j: int| lo <= j < i ==> is_domain_char(s@[j]),
        decreases hi - i,
    {
        if !domain_char(s.get_char(i)) {
            return false;
        }
        i += 1;
    }
    true
}

/// Whether every character of `s` in `[lo, hi)` is an ASCII letter.
fn all_alpha(s: &str, lo: usize, hi: usize) -> (r: bool)
    requires
        lo <= hi <= s@.len(),
    ensures
        r == (forall|j: int| lo <= j < hi ==> is_alpha_char(s@[j])),
{
    let mut i: usize = lo;
    while i < hi
        invariant
            lo <= i <= hi <= s@.len(),
            forall|j: int| lo <= j < i ==> is_alpha_char(s@[j]),
        decreases hi - i,
    {
        if !alpha_char(s.get_char(i)) {
            return false;
        }
        i += 1;
    }
    true
}

/// Decides [`valid_email`]: the unique candidate split is around the first
/// `@` and the last dot after it, so checking that one split decides the
/// rule.
pub fn matches_email(s: &str) -> (r: bool)
    ensures
        r == valid_email(s@),
{
    let n = s.unicode_len();
    let a = match first_at(s, n) {
        Some(a) => a,
        None => {
            proof {
                if valid_email(s@) {
                    let (at, dot) = choose|at: int, dot: int| email_split_at(s@, at, dot);
                    assert(s@[at] == '@');
                }
            }
            return false;
        },
    };
    if a == 0 {
        proof {
            if valid_email(s@) {
                let (at, dot) = choose|at: int, dot: int| email_split_at(s@, at, dot);
                assert(is_local_char(s@[0]));
            }
        }
        return false;
    }
    if !all_local(s, 0, a) {
        proof {
            if valid_email(s@) {
                let (at, dot) = choose|at: int, dot: int| email_split_at(s@, at, dot);
                lemma_split_pins_at(s@, at, dot, a as int);
            }
        }
        return false;
    }
    let d = match last_dot_after(s, a, n) {
        Some(d) => d,
        None => {
            proof {
                if valid_email(s@) {
                    let (at, dot) = choose|at: int, dot: int| email_split_at(s@, at, dot);
                    lemma_split_pins_at(s@, at, dot, a as int);
                    assert(s@[dot] == '.');
                }
            }
            return false;
        },
    };
    if d - a < 2 {
        proof {
            if valid_email(s@) {
                let (at, dot) = choose|at: int, dot: int| email_split_at(s@, at, dot);
                lemma_split_pins_at(s@, at, dot, a as int);
                lemma_split_pins_dot(s@, at, dot, d as int);
            }
        }
        return false;
    }
    if !all_domain(s, a + 1, d) {
        proof {
            if valid_email(s@) {
                let (at, dot) = choose|at: int, dot: int| email_split_at(s@, at, dot);
                lemma_split_pins_at(s@, at, dot, a as int);
                lemma_split_pins_dot(s@, at, dot, d as int);
            }
        }
        return false;
    }
    if n - d < 3 {
        proof {
            if valid_email(s@) {
                let (at, dot) = choose|at: int, dot: int| email_split_at(s@, at, dot);
                lemma_split_pins_at(s@, at, dot, a as int);
                lemma_split_pins_dot(s@, at, dot, d as int);
            }
        }
        return false;
    }
    if !all_alpha(s, d + 1, n) {
        proof {
            if valid_email(s@) {
                let (at, dot) = choose|at: int, dot: int| email_split_at(s@, at, dot);
                lemma_split_pins_at(s@, at, dot, a as int);
                lemma_split_pins_dot(s@, at, dot, d as int);
            }
        }
        return false;
    }
    proof {
        assert(email_split_at(s@, a as int, d as int));
    }
    true
}

} // verus!
