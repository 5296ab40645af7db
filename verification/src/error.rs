use vstd::prelude::*;

verus! {

/// The error kinds the cipher core can report.
///
/// `NotAlphabetic` and `OutOfRange` come from symbol validation,
/// `DuplicateRotorModel` from rotor bank construction, `LookupFailure` from a
/// table lookup handed an index outside the alphabet, and `InvalidCharacter`
/// from enciphering a text that holds a character outside A-Z; it carries the
/// first offending character and its position.
#[derive(Clone, Copy, Debug, PartialEq, Eq, Structural)]
pub enum CipherError {
    NotAlphabetic,
    OutOfRange,
    DuplicateRotorModel,
    LookupFailure,
    InvalidCharacter { character: char, position: usize },
}

} // verus!
