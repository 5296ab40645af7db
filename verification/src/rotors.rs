use vstd::prelude::*;

use crate::alphabet_character::AlphabetCharacter;
use crate::alphabet_character::index_char;
use crate::error::CipherError;
use crate::reflector::Reflector;
use crate::reflector::lemma_reflector_is_permutation;
use crate::reflector::reflector_table;
use crate::rotor::Rotor;
use crate::rotor::add_mod26;
use crate::rotor::backward_substitution;
use crate::rotor::forward_substitution;
use crate::rotor::lemma_rotor_wiring_bijective;
use crate::rotor::spec_turnover;
use crate::rotor::sub_mod26;

verus! {

/// The ordered assembly of three pairwise-distinct rotors and one
/// reflector: one machine configuration's signal path. The three offsets
/// are its only mutable state, advanced once per character, strictly
/// before that character's substitution.
pub struct Rotors {
    pub left_rotor: Rotor,
    pub middle_rotor: Rotor,
    pub right_rotor: Rotor,
    pub reflector: Reflector,
}

impl Rotors {
    /// The bank's construction invariant: no two rotors share a model.
    pub open spec fn distinct_models(self) -> bool {
        self.left_rotor.rotor_id != self.middle_rotor.rotor_id
            && self.middle_rotor.rotor_id != self.right_rotor.rotor_id
            && self.left_rotor.rotor_id != self.right_rotor.rotor_id
    }

    /// A well-formed bank: three well-formed rotors of distinct models.
    pub open spec fn wf(self) -> bool {
        self.left_rotor.wf() && self.middle_rotor.wf() && self.right_rotor.wf()
            && self.distinct_models()
    }

    /// The bank after one odometer advancement. The right rotor always
    /// steps. The middle rotor steps on the character that follows the
    /// right rotor reaching its turnover: the ratchet engages while the
    /// right rotor sits at the offset it had just reached. The left rotor
    /// steps when the middle rotor's offset, after any step of its own,
    /// equals the middle rotor's turnover.
    pub open spec fn stepped(self) -> Rotors {
        let middle_shift = if self.right_rotor.shift_value as int == spec_turnover(
            self.right_rotor.rotor_id,
        ) {
            add_mod26(self.middle_rotor.shift_value as int, 1)
        } else {
            self.middle_rotor.shift_value as int
        };
        let left_shift = if middle_shift == spec_turnover(self.middle_rotor.rotor_id) {
            add_mod26(self.left_rotor.shift_value as int, 1)
        } else {
            self.left_rotor.shift_value as int
        };
        Rotors {
            left_rotor: Rotor { rotor_id: self.left_rotor.rotor_id, shift_value: left_shift as u32 },
            middle_rotor: Rotor {
                rotor_id: self.middle_rotor.rotor_id,
                shift_value: middle_shift as u32,
            },
            right_rotor: Rotor {
                rotor_id: self.right_rotor.rotor_id,
                shift_value: add_mod26(self.right_rotor.shift_value as int, 1) as u32,
            },
            reflector: self.reflector,
        }
    }

    /// The forward pass at the bank's current offsets: right, middle, left,
    /// each stage's output feeding the next stage's input.
    pub open spec fn forward_path(self, i: int) -> int {
        forward_substitution(
            self.left_rotor.rotor_id,
            self.left_rotor.shift_value as int,
            forward_substitution(
                self.middle_rotor.rotor_id,
                self.middle_rotor.shift_value as int,
                forward_substitution(
                    self.right_rotor.rotor_id,
                    self.right_rotor.shift_value as int,
                    i,
                ),
            ),
        )
    }

    /// The backward pass at the bank's current offsets: left, middle,
    /// right, then the final correction that shifts the right rotor's
    /// output back by its own offset into absolute alphabet space.
    pub open spec fn backward_path(self, i: int) -> int {
        sub_mod26(
            backward_substitution(
                self.right_rotor.rotor_id,
                self.right_rotor.shift_value as int,
                backward_substitution(
                    self.middle_rotor.rotor_id,
                    self.middle_rotor.shift_value as int,
                    backward_substitution(
                        self.left_rotor.rotor_id,
                        self.left_rotor.shift_value as int,
                        i,
                    ),
                ),
            ),
            self.right_rotor.shift_value as int,
        )
    }

    /// The whole signal path at the bank's current offsets: forward pass,
    /// reflection, backward pass.
    pub open spec fn signal_path(self, i: int) -> int {
        self.backward_path(reflector_table(self.reflector, self.forward_path(i)))
    }

    /// What one `encrypt_char` call returns for input index `i`: the bank
    /// steps first, then the signal runs through the stepped offsets.
    pub open spec fn encrypted_index(self, i: int) -> int {
        self.stepped().signal_path(i)
    }

    /// Assembles a bank from caller-supplied rotors and reflector:
    /// succeeds exactly when the three rotor models are pairwise distinct,
    /// and is rejected as `DuplicateRotorModel` otherwise, whatever the
    /// third rotor or the reflector.
    pub fn new(
        reflector: Reflector,
        left_rotor: Rotor,
        middle_rotor: Rotor,
        right_rotor: Rotor,
    ) -> (r: Result<Self, CipherError>)
        ensures
            r is Ok <==> (left_rotor.rotor_id != middle_rotor.rotor_id
                && middle_rotor.rotor_id != right_rotor.rotor_id && left_rotor.rotor_id
                != right_rotor.rotor_id),
            r is Ok ==> r->Ok_0 == (Rotors { left_rotor, middle_rotor, right_rotor, reflector }),
            r is Err ==> r == Result::<Self, CipherError>::Err(CipherError::DuplicateRotorModel),
    {
        let rotors_unique = left_rotor.rotor_id != middle_rotor.rotor_id
            && middle_rotor.rotor_id != right_rotor.rotor_id && left_rotor.rotor_id
            != right_rotor.rotor_id;
        if rotors_unique {
            Ok(Self { left_rotor, middle_rotor, right_rotor, reflector })
        } else {
            Err(CipherError::DuplicateRotorModel)
        }
    }

    /// Advances the three offsets by the odometer rule, then runs the
    /// forward pass over the new offsets.
    pub fn pre_reflector(&mut self, character: AlphabetCharacter) -> (r: AlphabetCharacter)
        requires
            old(self).wf(),
            character.wf(),
        ensures
            *final(self) == old(self).stepped(),
            final(self).wf(),
            r.character == index_char(old(self).stepped().forward_path(character.index())),
            r.wf(),
    {
        proof {
            lemma_rotor_wiring_bijective(self.left_rotor.rotor_id);
            lemma_rotor_wiring_bijective(self.middle_rotor.rotor_id);
            lemma_rotor_wiring_bijective(self.right_rotor.rotor_id);
        }
        let right_was_at_turnover = self.right_rotor.at_turnover();
        self.right_rotor.increment_shift_value();
        if right_was_at_turnover {
            self.middle_rotor.increment_shift_value();
        }
        if self.middle_rotor.at_turnover() {
            self.left_rotor.increment_shift_value();
        }
        let right_encrypt = self.right_rotor.pre_reflector_encrypt(character).unwrap();
        let middle_encrypt = self.middle_rotor.pre_reflector_encrypt(right_encrypt).unwrap();
        let left_encrypt = self.left_rotor.pre_reflector_encrypt(middle_encrypt).unwrap();
        left_encrypt
    }

    /// Runs the backward pass over the bank's current offsets: left,
    /// middle, right, and the final shift of the right rotor's output back
    /// by its own offset into absolute alphabet space. The offsets do not
    /// change.
    pub fn post_reflector(&mut self, reflected_char: AlphabetCharacter) -> (r: AlphabetCharacter)
        requires
            old(self).wf(),
            reflected_char.wf(),
        ensures
            *final(self) == *old(self),
            r.character == index_char(old(self).backward_path(reflected_char.index())),
            r.wf(),
    {
        proof {
            lemma_rotor_wiring_bijective(self.left_rotor.rotor_id);
            lemma_rotor_wiring_bijective(self.middle_rotor.rotor_id);
            lemma_rotor_wiring_bijective(self.right_rotor.rotor_id);
        }
        let left = self.left_rotor.post_reflector_encrypt(reflected_char).unwrap();
        let middle = self.middle_rotor.post_reflector_encrypt(left).unwrap();
        let right = self.right_rotor.post_reflector_encrypt(middle).unwrap();
        let index = right.alphabet_index() as u32;
        let out = if index >= self.right_rotor.shift_value {
            index - self.right_rotor.shift_value
        } else {
            index + 26 - self.right_rotor.shift_value
        };
        AlphabetCharacter { character: ((65 + out) as u8) as char }
    }

    /// Enciphers one symbol: steps the rotors, then sends the signal
    /// forward through the three rotors, through the reflector, and
    /// backward out again. Deterministic given the current offsets; the
    /// one side effect per call is the stepping.
    pub fn encrypt_char(&mut self, character: AlphabetCharacter) -> (r: AlphabetCharacter)
        requires
            old(self).wf(),
            character.wf(),
        ensures
            *final(self) == old(self).stepped(),
            final(self).wf(),
            r.character == index_char(old(self).encrypted_index(character.index())),
            r.wf(),
    {
        let pre_reflector_encrypt_char = self.pre_reflector(character);
        proof {
            lemma_reflector_is_permutation(self.reflector);
        }
        let reflected = self.reflector.reflect_character(
            pre_reflector_encrypt_char.character,
        ).unwrap();
        let reflected_char = AlphabetCharacter { character: reflected };
        self.post_reflector(reflected_char)
    }
}

} // verus!
