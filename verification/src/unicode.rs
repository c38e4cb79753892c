//! Character classes that the standard library decides.

use vstd::prelude::*;

verus! {

/// Whether `c` has the Unicode property `Uppercase`, as `char::is_uppercase`
/// reports it.
pub uninterp spec fn char_is_uppercase(c: char) -> bool;

/// Whether `c` has the Unicode property `Lowercase`, as `char::is_lowercase`
/// reports it.
pub uninterp spec fn char_is_lowercase(c: char) -> bool;

/// `char::is_uppercase` looks the character up in the Unicode tables that
/// the standard library carries; its answer depends on the character alone
/// and is taken here as the meaning of [`char_is_uppercase`].
pub assume_specification[ char::is_uppercase ](c: char) -> (b: bool)
    ensures
        b == char_is_uppercase(c),
;

/// `char::is_lowercase` looks the character up in the Unicode tables that
/// the standard library carries; its answer depends on the character alone
/// and is taken here as the meaning of [`char_is_lowercase`].
pub assume_specification[ char::is_lowercase ](c: char) -> (b: bool)
    ensures
        b == char_is_lowercase(c),
;

/// `char::is_ascii_digit` is documented to hold exactly of the ten
/// characters `0` to `9`.
pub assume_specification[ char::is_ascii_digit ](c: &char) -> (b: bool)
    ensures
        b == ('0' <= *c && *c <= '9'),
;

} // verus!
