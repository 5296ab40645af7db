use vstd::prelude::*;

use crate::error::CipherError;

verus! {

/// Whether `c` is one of the 52 ASCII letters, the only characters the
/// cipher accepts.
pub open spec fn is_ascii_letter(c: char) -> bool {
    (65 <= c as int <= 90) || (97 <= c as int <= 122)
}

/// The zero-based position of an ASCII letter in the alphabet, taking the
/// uppercase form: 0 for 'A' or 'a' up to 25 for 'Z' or 'z'.
pub open spec fn letter_index(c: char) -> int {
    if 97 <= c as int <= 122 {
        c as int - 97
    } else {
        c as int - 65
    }
}

/// The uppercase letter at a zero-based alphabet index: 'A' for 0 up to
/// 'Z' for 25.
pub open spec fn index_char(i: int) -> char {
    ((65 + i) as u8) as char
}

/// Whether `c` has the Unicode "Alphabetic" property; said only of
/// `char::is_alphabetic`, below.
pub uninterp spec fn unicode_alphabetic(c: char) -> bool;

/// Relies on `char::is_alphabetic`: the result depends on the character
/// alone, and the ASCII letters are documented to be alphabetic.
pub assume_specification[ char::is_alphabetic ](c: char) -> (r: bool)
    ensures
        r == unicode_alphabetic(c),
        is_ascii_letter(c) ==> r,
;

/// A single character validated to be one of the 26 letters, with a stable
/// zero-based alphabet index. The original case is preserved for display;
/// indexing always uses the uppercase form.
#[derive(Clone, Copy, Debug, PartialEq, Eq, Structural)]
pub struct AlphabetCharacter {
    pub character: char,
}

impl AlphabetCharacter {
    /// A validated symbol holds an ASCII letter, so its index is in 0..26.
    pub open spec fn wf(self) -> bool {
        is_ascii_letter(self.character)
    }

    /// The symbol's zero-based alphabet index, as specifications speak of it.
    pub open spec fn index(self) -> int {
        letter_index(self.character)
    }

    /// The code point of the character as supplied, case preserved.
    pub fn as_u32(&self) -> (v: u32)
        ensures
            v == self.character as u32,
    {
        self.character as u32
    }

    /// The symbol's zero-based alphabet index: 0 for 'A' or 'a' up to 25.
    pub fn alphabet_index(&self) -> (i: u8)
        requires
            self.wf(),
        ensures
            i as int == self.index(),
            i < 26,
    {
        let v = self.character as u32;
        if v >= 97 {
            (v - 97) as u8
        } else {
            (v - 65) as u8
        }
    }

    /// Validates one character: accepted exactly when it is an ASCII letter.
    /// A character without the Unicode "Alphabetic" property is rejected as
    /// `NotAlphabetic`; an alphabetic character outside the A-Z block (after
    /// uppercasing) is rejected as `OutOfRange`.
    pub fn new(character: char) -> (r: Result<Self, CipherError>)
        ensures
            r is Ok <==> is_ascii_letter(character),
            r is Ok ==> r->Ok_0 == (AlphabetCharacter { character }) && r->Ok_0.wf(),
            !unicode_alphabetic(character) ==> r == Result::<Self, CipherError>::Err(
                CipherError::NotAlphabetic,
            ),
            unicode_alphabetic(character) && !is_ascii_letter(character) ==> r == Result::<
                Self,
                CipherError,
            >::Err(CipherError::OutOfRange),
    {
        if !character.is_alphabetic() {
            return Err(CipherError::NotAlphabetic);
        }
        let value = character as u32;
        let uppercase_value = if 97 <= value && value <= 122 {
            value - 32
        } else {
            value
        };
        if uppercase_value < 65 || uppercase_value > 90 {
            return Err(CipherError::OutOfRange);
        }
        Ok(Self { character })
    }
}

} // verus!
