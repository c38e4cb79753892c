//! Character-level access to strings, and numbers as text.

use vstd::prelude::*;

verus! {

/// The characters of `s`, in order, as a vector that can be indexed in
/// constant time.
pub fn chars_of(s: &str) -> (chars: Vec<char>)
    ensures
        chars@ == s@,
{
    let mut chars: Vec<char> = Vec::new();
    for c in it: s.chars()
        invariant
            it.seq() == s@,
            chars@ == s@.subrange(0, it.index() as int),
    {
        chars.push(c);
    }
    chars
}

/// `c` in lowercase where it is one of `A`..`Z`, and `c` itself otherwise.
pub open spec fn lower_char(c: char) -> char {
    if 'A' <= c && c <= 'Z' {
        ((c as u32) + 32) as char
    } else {
        c
    }
}

/// `s` with each of `A`..`Z` replaced by its lowercase letter.
pub open spec fn lowercased(s: Seq<char>) -> Seq<char> {
    Seq::new(s.len(), |i: int| lower_char(s[i]))
}

/// No character of `s` is one of `A`..`Z`.
pub open spec fn is_lowercase_form(s: Seq<char>) -> bool {
    forall|i: int| 0 <= i < s.len() ==> !('A' <= #[trigger] s[i] && s[i] <= 'Z')
}

/// Lowercasing leaves nothing to lowercase: the result is in lowercase form,
/// and lowercasing it again changes nothing.
pub proof fn lemma_lowercased_is_lowercase(s: Seq<char>)
    ensures
        is_lowercase_form(lowercased(s)),
        lowercased(lowercased(s)) == lowercased(s),
        is_lowercase_form(s) ==> lowercased(s) == s,
{
    assert(lowercased(lowercased(s)) =~= lowercased(s));
    if is_lowercase_form(s) {
        assert(lowercased(s) =~= s);
    }
}

fn lower_letter_text(c: char) -> (text: &'static str)
    requires
        'A' <= c && c <= 'Z',
    ensures
        text@ == seq![lower_char(c)],
{
    let letters = "abcdefghijklmnopqrstuvwxyz";
    proof {
        reveal_strlit("abcdefghijklmnopqrstuvwxyz");
    }
    let k: usize = (c as u32 - 65) as usize;
    let text = letters.substring_ascii(k, k + 1);
    assert(text@ =~= seq![lower_char(c)]);
    text
}

/// `s` with each of `A`..`Z` replaced by its lowercase letter.
pub fn lowercase_text(s: &str) -> (text: String)
    ensures
        text@ == lowercased(s@),
{
    let chars = chars_of(s);
    let ascii = s.is_ascii();
    let mut text = String::new();
    let mut i: usize = 0;
    while i < chars.len()
        invariant
            i <= chars.len(),
            chars@ == s@,
            ascii == vstd::string::is_ascii(s),
            text@ == lowercased(s@.subrange(0, i as int)),
        decreases chars.len() - i,
    {
        let c = chars[i];
        let ghost before = text@;
        if 'A' <= c && c <= 'Z' {
            text.append(lower_letter_text(c));
        } else if ascii {
            text.append(s.substring_ascii(i, i + 1));
        } else {
            text.append(s.substring_char(i, i + 1));
        }
        assert(text@ =~= lowercased(s@.subrange(0, i + 1)));
        i += 1;
    }
    assert(s@.subrange(0, i as int) =~= s@);
    text
}

/// The character that writes the digit `d`.
pub open spec fn digit_char(d: int) -> char
    recommends
        0 <= d < 10,
{
    if d == 0 {
        '0'
    } else if d == 1 {
        '1'
    } else if d == 2 {
        '2'
    } else if d == 3 {
        '3'
    } else if d == 4 {
        '4'
    } else if d == 5 {
        '5'
    } else if d == 6 {
        '6'
    } else if d == 7 {
        '7'
    } else if d == 8 {
        '8'
    } else {
        '9'
    }
}

/// A natural number in decimal digits, without leading zeros.
pub open spec fn decimal_of_nat(n: nat) -> Seq<char>
    decreases n,
{
    if n < 10 {
        seq![digit_char(n as int)]
    } else {
        decimal_of_nat(n / 10).push(digit_char((n % 10) as int))
    }
}

/// An integer in decimal digits, with a minus sign before a negative one.
pub open spec fn decimal(n: int) -> Seq<char> {
    if n < 0 {
        seq!['-'] + decimal_of_nat((-n) as nat)
    } else {
        decimal_of_nat(n as nat)
    }
}

fn digit_text(d: u32) -> (text: &'static str)
    requires
        d < 10,
    ensures
        text@ == seq![digit_char(d as int)],
{
    proof {
        reveal_strlit("0");
        reveal_strlit("1");
        reveal_strlit("2");
        reveal_strlit("3");
        reveal_strlit("4");
        reveal_strlit("5");
        reveal_strlit("6");
        reveal_strlit("7");
        reveal_strlit("8");
        reveal_strlit("9");
    }
    let text = if d == 0 {
        "0"
    } else if d == 1 {
        "1"
    } else if d == 2 {
        "2"
    } else if d == 3 {
        "3"
    } else if d == 4 {
        "4"
    } else if d == 5 {
        "5"
    } else if d == 6 {
        "6"
    } else if d == 7 {
        "7"
    } else if d == 8 {
        "8"
    } else {
        "9"
    };
    assert(text@ =~= seq![digit_char(d as int)]);
    text
}

fn nat_text(n: u32) -> (text: String)
    ensures
        text@ == decimal_of_nat(n as nat),
    decreases n,
{
    if n < 10 {
        String::from_str(digit_text(n))
    } else {
        let text = nat_text(n / 10).concat(digit_text(n % 10));
        assert(text@ =~= decimal_of_nat(n as nat));
        text
    }
}

/// `n` in decimal digits.
pub fn decimal_text(n: i32) -> (text: String)
    ensures
        text@ == decimal(n as int),
{
    let wide: i64 = n as i64;
    if wide < 0 {
        let magnitude: u32 = (-wide) as u32;
        proof {
            reveal_strlit("-");
        }
        let text = String::from_str("-").concat(nat_text(magnitude).as_str());
        assert(text@ =~= decimal(n as int));
        text
    } else {
        nat_text(wide as u32)
    }
}

} // verus!
