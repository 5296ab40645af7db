use vstd::prelude::*;

use vstd::string::StrSliceExecFns;

use crate::alphabet_character::AlphabetCharacter;
use crate::alphabet_character::index_char;
use crate::alphabet_character::is_ascii_letter;
use crate::alphabet_character::letter_index;
use crate::error::CipherError;
use crate::rotors::Rotors;

verus! {

/// Relies on `String::push`: appends exactly the given character at the
/// end of the string.
pub assume_specification[ String::push ](s: &mut String, ch: char)
    ensures
        final(s)@ == old(s)@.push(ch),
;

/// The rotor bank after `n` odometer advancements.
pub open spec fn bank_after(bank: Rotors, n: nat) -> Rotors
    decreases n,
{
    if n == 0 {
        bank
    } else {
        bank_after(bank, (n - 1) as nat).stepped()
    }
}

/// Whether every character of a text is an ASCII letter, the only input
/// the machine enciphers.
pub open spec fn valid_text(s: Seq<char>) -> bool {
    forall|i: int| 0 <= i < s.len() ==> is_ascii_letter(s[i])
}

/// The machine: one owned rotor bank, folding the bank's per-character
/// operation over an input text.
pub struct EngimaMachine {
    pub rotors: Rotors,
}

impl EngimaMachine {
    /// A well-formed machine holds a well-formed bank.
    pub open spec fn wf(self) -> bool {
        self.rotors.wf()
    }

    /// Takes exclusive ownership of a rotor bank.
    pub fn new(rotors: Rotors) -> (m: Self)
        ensures
            m.rotors == rotors,
    {
        Self { rotors }
    }

    /// Enciphers a text, one output letter per input letter, in input
    /// order. The whole input is validated first and rejected as
    /// `InvalidCharacter`, carrying the first offending character and its
    /// position, if any character is not an ASCII letter; no characters
    /// are silently dropped, and a rejected input leaves the rotor
    /// offsets untouched.
    pub fn encrypt(&mut self, plaintext: &str) -> (r: Result<String, CipherError>)
        requires
            old(self).wf(),
        ensures
            r is Ok <==> valid_text(plaintext@),
            r is Ok ==> final(self).rotors == bank_after(old(self).rotors, plaintext@.len())
                && final(self).wf(),
            r is Ok ==> r->Ok_0@.len() == plaintext@.len() && forall|i: int|
                0 <= i < plaintext@.len() ==> r->Ok_0@[i] == index_char(
                    bank_after(old(self).rotors, i as nat).encrypted_index(
                        letter_index(plaintext@[i]),
                    ),
                ),
            r is Err ==> *final(self) == *old(self) && (r matches Err(
                CipherError::InvalidCharacter { character, position },
            ) && position < plaintext@.len() && plaintext@[position as int] == character
                && !is_ascii_letter(character) && forall|k: int|
                0 <= k < position ==> is_ascii_letter(plaintext@[k])),
    {
        let length = plaintext.unicode_len();
        let mut i: usize = 0;
        while i < length
            invariant
                i <= length,
                length == plaintext@.len(),
                forall|k: int| 0 <= k < i ==> is_ascii_letter(plaintext@[k]),
            decreases length - i,
        {
            let character = plaintext.get_char(i);
            let value = character as u32;
            let is_letter = (65 <= value && value <= 90) || (97 <= value && value <= 122);
            if !is_letter {
                return Err(CipherError::InvalidCharacter { character, position: i });
            }
            i += 1;
        }
        let mut ciphertext = String::new();
        let mut i: usize = 0;
        while i < length
            invariant
                i <= length,
                length == plaintext@.len(),
                old(self).wf(),
                forall|k: int| 0 <= k < length ==> is_ascii_letter(plaintext@[k]),
                self.rotors == bank_after(old(self).rotors, i as nat),
                self.rotors.wf(),
                ciphertext@.len() == i,
                forall|k: int| 0 <= k < i ==> ciphertext@[k] == index_char(
                    bank_after(old(self).rotors, k as nat).encrypted_index(
                        letter_index(plaintext@[k]),
                    ),
                ),
            decreases length - i,
        {
            let character = plaintext.get_char(i);
            let symbol = AlphabetCharacter { character };
            let encrypted = self.rotors.encrypt_char(symbol);
            ciphertext.push(encrypted.character);
            i += 1;
        }
        Ok(ciphertext)
    }
}

} // verus!
