//! The format of an email address and the strength rules of a password.

use crate::error::{ApplicationError, ApplicationErrorView};
use crate::text::{chars_of, lower_char, lowercased};
use crate::user::User;
use crate::unicode::{char_is_lowercase, char_is_uppercase};
use vstd::prelude::*;

verus! {

/// `a`..`z` or `A`..`Z`.
pub open spec fn is_ascii_letter(c: char) -> bool {
    ('a' <= c && c <= 'z') || ('A' <= c && c <= 'Z')
}

/// `0`..`9`.
pub open spec fn is_ascii_digit(c: char) -> bool {
    '0' <= c && c <= '9'
}

/// A character allowed before the `@`: a letter, a digit, or one of `._%+-`.
pub open spec fn is_local_char(c: char) -> bool {
    is_ascii_letter(c) || is_ascii_digit(c) || c == '.' || c == '_' || c == '%' || c == '+' || c
        == '-'
}

/// A character allowed between the `@` and the last dot: a letter, a digit,
/// a dot or a hyphen.
pub open spec fn is_domain_char(c: char) -> bool {
    is_ascii_letter(c) || is_ascii_digit(c) || c == '.' || c == '-'
}

/// `s` reads as `local@domain.tld` with the `@` at index `at` and the dot
/// that starts the top-level domain at index `dot`: a non-empty local part,
/// a non-empty domain, and a top-level domain of two or more letters.
pub open spec fn splits_as_email(s: Seq<char>, at: int, dot: int) -> bool {
    &&& 0 < at
    &&& at + 1 < dot
    &&& dot + 2 < s.len()
    &&& s[at] == '@'
    &&& s[dot] == '.'
    &&& forall|i: int| 0 <= i < at ==> is_local_char(#[trigger] s[i])
    &&& forall|i: int| at < i < dot ==> is_domain_char(#[trigger] s[i])
    &&& forall|i: int| dot < i < s.len() ==> is_ascii_letter(#[trigger] s[i])
}

/// The format of an email address: one or more local characters, `@`, one or
/// more domain characters, `.`, and two or more letters, with nothing before
/// or after.
pub open spec fn is_email_address(s: Seq<char>) -> bool {
    exists|at: int, dot: int| splits_as_email(s, at, dot)
}

fn ascii_letter(c: char) -> (b: bool)
    ensures
        b == is_ascii_letter(c),
{
    ('a' <= c && c <= 'z') || ('A' <= c && c <= 'Z')
}

fn ascii_digit(c: char) -> (b: bool)
    ensures
        b == is_ascii_digit(c),
{
    '0' <= c && c <= '9'
}

fn local_char(c: char) -> (b: bool)
    ensures
        b == is_local_char(c),
{
    ascii_letter(c) || ascii_digit(c) || c == '.' || c == '_' || c == '%' || c == '+' || c == '-'
}

fn domain_char(c: char) -> (b: bool)
    ensures
        b == is_domain_char(c),
{
    ascii_letter(c) || ascii_digit(c) || c == '.' || c == '-'
}

/// In any reading of `s` as an email address the `@` is where the run of
/// local characters that starts the string ends.
proof fn lemma_at_is_unique(s: Seq<char>, run: int, at: int, dot: int)
    requires
        0 <= run <= s.len(),
        forall|i: int| 0 <= i < run ==> is_local_char(#[trigger] s[i]),
        run < s.len() ==> !is_local_char(s[run]),
        splits_as_email(s, at, dot),
    ensures
        at == run,
{
    if at < run {
        assert(is_local_char(s[at]));
    } else if run < at {
        assert(is_local_char(s[run]));
    }
}

/// In any reading of `s` as an email address the dot stands just before the
/// run of letters that ends the string.
proof fn lemma_dot_is_unique(s: Seq<char>, floor: int, start: int, at: int, dot: int)
    requires
        floor < start <= s.len(),
        forall|i: int| start <= i < s.len() ==> is_ascii_letter(#[trigger] s[i]),
        start > floor + 1 ==> !is_ascii_letter(s[start - 1]),
        splits_as_email(s, at, dot),
        at == floor,
    ensures
        dot == start - 1,
{
    if start <= dot {
        assert(is_ascii_letter(s[dot]));
    } else if dot + 1 < start {
        assert(is_ascii_letter(s[start - 1]));
    }
}

/// Whether `input` has the format of an email address.
///
/// The `@` can only stand where the local characters at the start end, and
/// the dot only before the letters at the end: the two places are found by
/// one scan from each side, and what lies between is checked.
#[verifier::loop_isolation(false)]
pub fn matches_email(input: &str) -> (ok: bool)
    ensures
        ok == is_email_address(input@),
{
    let chars = chars_of(input);
    let n = chars.len();
    let ghost s = input@;

    let mut at: usize = 0;
    while at < n && local_char(chars[at])
        invariant
            at <= n,
            forall|i: int| 0 <= i < at ==> is_local_char(#[trigger] s[i]),
        decreases n - at,
    {
        at += 1;
    }
    if at == 0 || at >= n || chars[at] != '@' {
        proof {
            assert forall|a: int, d: int| !splits_as_email(s, a, d) by {
                if splits_as_email(s, a, d) {
                    lemma_at_is_unique(s, at as int, a, d);
                }
            }
        }
        return false;
    }
    let mut start: usize = n;
    while start > at + 1 && ascii_letter(chars[start - 1])
        invariant
            at < start <= n,
            forall|i: int| start <= i < n ==> is_ascii_letter(#[trigger] s[i]),
        decreases start,
    {
        start -= 1;
    }
    proof {
        assert forall|a: int, d: int| splits_as_email(s, a, d) implies a == at && d == start
            - 1 by {
            lemma_at_is_unique(s, at as int, a, d);
            lemma_dot_is_unique(s, at as int, start as int, a, d);
        }
    }
    if n - start < 2 || start < at + 3 || chars[start - 1] != '.' {
        return false;
    }
    let dot: usize = start - 1;
    let mut i: usize = at + 1;
    while i < dot
        invariant
            at < i <= dot,
            forall|j: int| at < j < i ==> is_domain_char(#[trigger] s[j]),
        decreases dot - i,
    {
        if !domain_char(chars[i]) {
            assert(!is_domain_char(s[i as int]));
            return false;
        }
        i += 1;
    }
    assert(splits_as_email(s, at as int, dot as int));
    true
}

/// An email address stays one when it is lowercased: the format admits
/// every lowercase letter where it admits the capital.
pub proof fn lemma_lowercased_email_is_an_email(s: Seq<char>)
    requires
        is_email_address(s),
    ensures
        is_email_address(lowercased(s)),
{
    let (at, dot) = choose|at: int, dot: int| splits_as_email(s, at, dot);
    let l = lowercased(s);
    assert forall|i: int| 0 <= i < s.len() implies {
        &&& (#[trigger] l[i]) == lower_char(s[i])
        &&& is_local_char(s[i]) ==> is_local_char(l[i])
        &&& is_domain_char(s[i]) ==> is_domain_char(l[i])
        &&& is_ascii_letter(s[i]) ==> is_ascii_letter(l[i])
        &&& s[i] == '@' ==> l[i] == '@'
        &&& s[i] == '.' ==> l[i] == '.'
    } by {}
    assert(splits_as_email(l, at, dot));
}

/// The message that rejects a malformed email address.
pub open spec fn invalid_email_message() -> Seq<char> {
    "Invalid email address"@
}

/// Some character of `s` is an uppercase letter.
pub open spec fn has_uppercase(s: Seq<char>) -> bool {
    exists|i: int| 0 <= i < s.len() && char_is_uppercase(#[trigger] s[i])
}

/// Some character of `s` is a lowercase letter.
pub open spec fn has_lowercase(s: Seq<char>) -> bool {
    exists|i: int| 0 <= i < s.len() && char_is_lowercase(#[trigger] s[i])
}

/// Some character of `s` is one of `0`..`9`.
pub open spec fn has_digit(s: Seq<char>) -> bool {
    exists|i: int| 0 <= i < s.len() && is_ascii_digit(#[trigger] s[i])
}

/// The least number of characters of an acceptable password.
pub const MIN_PASSWORD_LENGTH: usize = 8;

/// A password is strong when it has at least eight characters and holds an
/// uppercase letter, a lowercase letter and a digit.
pub open spec fn is_strong_password(s: Seq<char>) -> bool {
    &&& s.len() >= MIN_PASSWORD_LENGTH
    &&& has_uppercase(s)
    &&& has_lowercase(s)
    &&& has_digit(s)
}

/// The message of the first rule that `s` breaks, in the order length,
/// uppercase, lowercase, digit; `None` for a strong password.
pub open spec fn password_rejection(s: Seq<char>) -> Option<Seq<char>> {
    if s.len() < MIN_PASSWORD_LENGTH {
        Some("Password must be at least 8 characters long"@)
    } else if !has_uppercase(s) {
        Some("Password must contain at least one uppercase letter"@)
    } else if !has_lowercase(s) {
        Some("Password must contain at least one lowercase letter"@)
    } else if !has_digit(s) {
        Some("Password must contain at least one digit"@)
    } else {
        None
    }
}

fn any_uppercase(chars: &Vec<char>) -> (found: bool)
    ensures
        found == has_uppercase(chars@),
{
    let mut i: usize = 0;
    while i < chars.len()
        invariant
            i <= chars.len(),
            forall|j: int| 0 <= j < i ==> !char_is_uppercase(#[trigger] chars@[j]),
        decreases chars.len() - i,
    {
        if chars[i].is_uppercase() {
            return true;
        }
        i += 1;
    }
    false
}

fn any_lowercase(chars: &Vec<char>) -> (found: bool)
    ensures
        found == has_lowercase(chars@),
{
    let mut i: usize = 0;
    while i < chars.len()
        invariant
            i <= chars.len(),
            forall|j: int| 0 <= j < i ==> !char_is_lowercase(#[trigger] chars@[j]),
        decreases chars.len() - i,
    {
        if chars[i].is_lowercase() {
            return true;
        }
        i += 1;
    }
    false
}

fn any_digit(chars: &Vec<char>) -> (found: bool)
    ensures
        found == has_digit(chars@),
{
    let mut i: usize = 0;
    while i < chars.len()
        invariant
            i <= chars.len(),
            forall|j: int| 0 <= j < i ==> !is_ascii_digit(#[trigger] chars@[j]),
        decreases chars.len() - i,
    {
        if chars[i].is_ascii_digit() {
            return true;
        }
        i += 1;
    }
    false
}

impl User {
    /// Accepts `input` if it has the format of an email address, and rejects
    /// it with a catch-all error otherwise.
    pub fn email_is_valid(input: &str) -> (r: Result<(), ApplicationError>)
        ensures
            r is Ok <==> is_email_address(input@),
            r matches Err(e) ==> e@ == ApplicationErrorView::ApplicationError(
                invalid_email_message(),
            ),
    {
        if matches_email(input) {
            Ok(())
        } else {
            Err(ApplicationError::application("Invalid email address"))
        }
    }

    /// Accepts a strong password and rejects any other with the message of
    /// the first rule it breaks: length, then uppercase, then lowercase,
    /// then digit.
    pub fn password_is_valid(password: &str) -> (r: Result<(), ApplicationError>)
        ensures
            r is Ok <==> is_strong_password(password@),
            match r {
                Ok(_) => password_rejection(password@) is None,
                Err(e) => password_rejection(password@) matches Some(message) && e@
                    == ApplicationErrorView::ApplicationError(message),
            },
    {
        let chars = chars_of(password);
        if chars.len() < MIN_PASSWORD_LENGTH {
            return Err(
                ApplicationError::application("Password must be at least 8 characters long"),
            );
        }
        if !any_uppercase(&chars) {
            return Err(
                ApplicationError::application(
                    "Password must contain at least one uppercase letter",
                ),
            );
        }
        if !any_lowercase(&chars) {
            return Err(
                ApplicationError::application(
                    "Password must contain at least one lowercase letter",
                ),
            );
        }
        if !any_digit(&chars) {
            return Err(ApplicationError::application("Password must contain at least one digit"));
        }
        Ok(())
    }
}

} // verus!
