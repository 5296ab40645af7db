use vstd::prelude::*;

use vstd::string::StrSliceExecFns;

use crate::alphabet_character::AlphabetCharacter;
use crate::alphabet_character::index_char;
use crate::error::CipherError;

verus! {

/// Addition modulo 26, for summands already reduced to 0..26.
pub open spec fn add_mod26(a: int, b: int) -> int {
    if a + b >= 26 {
        a + b - 26
    } else {
        a + b
    }
}

/// Subtraction modulo 26, for operands already reduced to 0..26.
pub open spec fn sub_mod26(a: int, b: int) -> int {
    if a - b < 0 {
        a - b + 26
    } else {
        a - b
    }
}

/// The five rotor models.
#[derive(Clone, Copy, Debug, PartialEq, Eq, Structural)]
pub enum RotorId {
    I,
    II,
    III,
    IV,
    V,
}

/// Model I's wiring, as alphabet indices: entry `i` is the left-side
/// contact that right-side contact `i` is wired to.
pub open spec fn rotor_i_table(i: int) -> int {
    if i == 0 { 4 } else if i == 1 { 10 } else if i == 2 { 12 } else if i == 3 { 5 }
    else if i == 4 { 11 } else if i == 5 { 6 } else if i == 6 { 3 } else if i == 7 { 16 }
    else if i == 8 { 21 } else if i == 9 { 25 } else if i == 10 { 13 } else if i == 11 { 19 }
    else if i == 12 { 14 } else if i == 13 { 22 } else if i == 14 { 24 } else if i == 15 { 7 }
    else if i == 16 { 23 } else if i == 17 { 20 } else if i == 18 { 18 } else if i == 19 { 15 }
    else if i == 20 { 0 } else if i == 21 { 8 } else if i == 22 { 1 } else if i == 23 { 17 }
    else if i == 24 { 2 } else { 9 }
}

/// The inverse of model I's wiring: entry `v` is the right-side contact
/// wired to left-side contact `v`.
pub open spec fn rotor_i_inverse(v: int) -> int {
    if v == 0 { 20 } else if v == 1 { 22 } else if v == 2 { 24 } else if v == 3 { 6 }
    else if v == 4 { 0 } else if v == 5 { 3 } else if v == 6 { 5 } else if v == 7 { 15 }
    else if v == 8 { 21 } else if v == 9 { 25 } else if v == 10 { 1 } else if v == 11 { 4 }
    else if v == 12 { 2 } else if v == 13 { 10 } else if v == 14 { 12 } else if v == 15 { 19 }
    else if v == 16 { 7 } else if v == 17 { 23 } else if v == 18 { 18 } else if v == 19 { 11 }
    else if v == 20 { 17 } else if v == 21 { 8 } else if v == 22 { 13 } else if v == 23 { 16 }
    else if v == 24 { 14 } else { 9 }
}

/// Model II's wiring, as alphabet indices.
pub open spec fn rotor_ii_table(i: int) -> int {
    if i == 0 { 0 } else if i == 1 { 9 } else if i == 2 { 3 } else if i == 3 { 10 }
    else if i == 4 { 18 } else if i == 5 { 8 } else if i == 6 { 17 } else if i == 7 { 20 }
    else if i == 8 { 23 } else if i == 9 { 1 } else if i == 10 { 11 } else if i == 11 { 7 }
    else if i == 12 { 22 } else if i == 13 { 19 } else if i == 14 { 12 } else if i == 15 { 2 }
    else if i == 16 { 16 } else if i == 17 { 6 } else if i == 18 { 25 } else if i == 19 { 13 }
    else if i == 20 { 15 } else if i == 21 { 24 } else if i == 22 { 5 } else if i == 23 { 21 }
    else if i == 24 { 14 } else { 4 }
}

/// The inverse of model II's wiring.
pub open spec fn rotor_ii_inverse(v: int) -> int {
    if v == 0 { 0 } else if v == 1 { 9 } else if v == 2 { 15 } else if v == 3 { 2 }
    else if v == 4 { 25 } else if v == 5 { 22 } else if v == 6 { 17 } else if v == 7 { 11 }
    else if v == 8 { 5 } else if v == 9 { 1 } else if v == 10 { 3 } else if v == 11 { 10 }
    else if v == 12 { 14 } else if v == 13 { 19 } else if v == 14 { 24 } else if v == 15 { 20 }
    else if v == 16 { 16 } else if v == 17 { 6 } else if v == 18 { 4 } else if v == 19 { 13 }
    else if v == 20 { 7 } else if v == 21 { 23 } else if v == 22 { 12 } else if v == 23 { 8 }
    else if v == 24 { 21 } else { 18 }
}

/// Model III's wiring, as alphabet indices.
pub open spec fn rotor_iii_table(i: int) -> int {
    if i == 0 { 1 } else if i == 1 { 3 } else if i == 2 { 5 } else if i == 3 { 7 }
    else if i == 4 { 9 } else if i == 5 { 11 } else if i == 6 { 2 } else if i == 7 { 15 }
    else if i == 8 { 17 } else if i == 9 { 19 } else if i == 10 { 23 } else if i == 11 { 21 }
    else if i == 12 { 25 } else if i == 13 { 13 } else if i == 14 { 24 } else if i == 15 { 4 }
    else if i == 16 { 8 } else if i == 17 { 22 } else if i == 18 { 6 } else if i == 19 { 0 }
    else if i == 20 { 10 } else if i == 21 { 12 } else if i == 22 { 20 } else if i == 23 { 18 }
    else if i == 24 { 16 } else { 14 }
}

/// The inverse of model III's wiring.
pub open spec fn rotor_iii_inverse(v: int) -> int {
    if v == 0 { 19 } else if v == 1 { 0 } else if v == 2 { 6 } else if v == 3 { 1 }
    else if v == 4 { 15 } else if v == 5 { 2 } else if v == 6 { 18 } else if v == 7 { 3 }
    else if v == 8 { 16 } else if v == 9 { 4 } else if v == 10 { 20 } else if v == 11 { 5 }
    else if v == 12 { 21 } else if v == 13 { 13 } else if v == 14 { 25 } else if v == 15 { 7 }
    else if v == 16 { 24 } else if v == 17 { 8 } else if v == 18 { 23 } else if v == 19 { 9 }
    else if v == 20 { 22 } else if v == 21 { 11 } else if v == 22 { 17 } else if v == 23 { 10 }
    else if v == 24 { 14 } else { 12 }
}

/// Model IV's wiring, as alphabet indices.
pub open spec fn rotor_iv_table(i: int) -> int {
    if i == 0 { 4 } else if i == 1 { 18 } else if i == 2 { 14 } else if i == 3 { 21 }
    else if i == 4 { 15 } else if i == 5 { 25 } else if i == 6 { 9 } else if i == 7 { 0 }
    else if i == 8 { 24 } else if i == 9 { 16 } else if i == 10 { 20 } else if i == 11 { 8 }
    else if i == 12 { 17 } else if i == 13 { 7 } else if i == 14 { 23 } else if i == 15 { 11 }
    else if i == 16 { 13 } else if i == 17 { 5 } else if i == 18 { 19 } else if i == 19 { 6 }
    else if i == 20 { 10 } else if i == 21 { 3 } else if i == 22 { 2 } else if i == 23 { 12 }
    else if i == 24 { 22 } else { 1 }
}

/// The inverse of model IV's wiring.
pub open spec fn rotor_iv_inverse(v: int) -> int {
    if v == 0 { 7 } else if v == 1 { 25 } else if v == 2 { 22 } else if v == 3 { 21 }
    else if v == 4 { 0 } else if v == 5 { 17 } else if v == 6 { 19 } else if v == 7 { 13 }
    else if v == 8 { 11 } else if v == 9 { 6 } else if v == 10 { 20 } else if v == 11 { 15 }
    else if v == 12 { 23 } else if v == 13 { 16 } else if v == 14 { 2 } else if v == 15 { 4 }
    else if v == 16 { 9 } else if v == 17 { 12 } else if v == 18 { 1 } else if v == 19 { 18 }
    else if v == 20 { 10 } else if v == 21 { 3 } else if v == 22 { 24 } else if v == 23 { 14 }
    else if v == 24 { 8 } else { 5 }
}

/// Model V's wiring, as alphabet indices.
pub open spec fn rotor_v_table(i: int) -> int {
    if i == 0 { 21 } else if i == 1 { 25 } else if i == 2 { 1 } else if i == 3 { 17 }
    else if i == 4 { 6 } else if i == 5 { 8 } else if i == 6 { 19 } else if i == 7 { 24 }
    else if i == 8 { 20 } else if i == 9 { 15 } else if i == 10 { 18 } else if i == 11 { 3 }
    else if i == 12 { 13 } else if i == 13 { 7 } else if i == 14 { 11 } else if i == 15 { 23 }
    else if i == 16 { 0 } else if i == 17 { 22 } else if i == 18 { 12 } else if i == 19 { 9 }
    else if i == 20 { 16 } else if i == 21 { 14 } else if i == 22 { 5 } else if i == 23 { 4 }
    else if i == 24 { 2 } else { 10 }
}

/// The inverse of model V's wiring.
pub open spec fn rotor_v_inverse(v: int) -> int {
    if v == 0 { 16 } else if v == 1 { 2 } else if v == 2 { 24 } else if v == 3 { 11 }
    else if v == 4 { 23 } else if v == 5 { 22 } else if v == 6 { 4 } else if v == 7 { 13 }
    else if v == 8 { 5 } else if v == 9 { 19 } else if v == 10 { 25 } else if v == 11 { 14 }
    else if v == 12 { 18 } else if v == 13 { 12 } else if v == 14 { 21 } else if v == 15 { 9 }
    else if v == 16 { 20 } else if v == 17 { 3 } else if v == 18 { 10 } else if v == 19 { 6 }
    else if v == 20 { 8 } else if v == 21 { 0 } else if v == 22 { 17 } else if v == 23 { 15 }
    else if v == 24 { 7 } else { 1 }
}

/// The chosen model's wiring table, as alphabet indices.
pub open spec fn rotor_table(id: RotorId, i: int) -> int {
    match id {
        RotorId::I => rotor_i_table(i),
        RotorId::II => rotor_ii_table(i),
        RotorId::III => rotor_iii_table(i),
        RotorId::IV => rotor_iv_table(i),
        RotorId::V => rotor_v_table(i),
    }
}

/// The inverse of the chosen model's wiring table.
pub open spec fn rotor_inverse(id: RotorId, v: int) -> int {
    match id {
        RotorId::I => rotor_i_inverse(v),
        RotorId::II => rotor_ii_inverse(v),
        RotorId::III => rotor_iii_inverse(v),
        RotorId::IV => rotor_iv_inverse(v),
        RotorId::V => rotor_v_inverse(v),
    }
}

/// The offset at which each model's ratchet advances the next rotor.
pub open spec fn spec_turnover(id: RotorId) -> int {
    match id {
        RotorId::I => 23,
        RotorId::II => 21,
        RotorId::III => 17,
        RotorId::IV => 20,
        RotorId::V => 16,
    }
}

/// Every rotor model's wiring is a permutation of the alphabet indices:
/// `rotor_inverse` undoes `rotor_table` in both directions, and both stay
/// within 0..26.
pub proof fn lemma_rotor_wiring_bijective(id: RotorId)
    ensures
        forall|i: int| 0 <= i < 26 ==> 0 <= #[trigger] rotor_table(id, i) < 26,
        forall|v: int| 0 <= v < 26 ==> 0 <= #[trigger] rotor_inverse(id, v) < 26,
        forall|i: int| 0 <= i < 26 ==> rotor_inverse(id, #[trigger] rotor_table(id, i)) == i,
        forall|v: int| 0 <= v < 26 ==> rotor_table(id, #[trigger] rotor_inverse(id, v)) == v,
{
    assert forall|i: int| 0 <= i < 26 implies 0 <= #[trigger] rotor_table(id, i) < 26
        && rotor_inverse(id, rotor_table(id, i)) == i by {}
    assert forall|v: int| 0 <= v < 26 implies 0 <= #[trigger] rotor_inverse(id, v) < 26
        && rotor_table(id, rotor_inverse(id, v)) == v by {}
}

impl RotorId {
    /// The model's wiring, listed in alphabet order: if the first letter is
    /// 'E', then right-side contact 'A' is wired to left-side contact 'E'.
    /// Character `i` of the string is the letter whose index `rotor_table`
    /// gives for `i`.
    pub fn wiring(&self) -> (w: &str)
        ensures
            w@.len() == 26,
            forall|i: int| 0 <= i < 26 ==> w@[i] == index_char(rotor_table(*self, i)),
    {
        match self {
            RotorId::I => {
                let w = "EKMFLGDQVZNTOWYHXUSPAIBRCJ";
                proof {
                    reveal_strlit("EKMFLGDQVZNTOWYHXUSPAIBRCJ");
                    assert forall|i: int| 0 <= i < 26 implies w@[i] == index_char(
                        rotor_table(RotorId::I, i),
                    ) by {}
                }
                w
            },
            RotorId::II => {
                let w = "AJDKSIRUXBLHWTMCQGZNPYFVOE";
                proof {
                    reveal_strlit("AJDKSIRUXBLHWTMCQGZNPYFVOE");
                    assert forall|i: int| 0 <= i < 26 implies w@[i] == index_char(
                        rotor_table(RotorId::II, i),
                    ) by {}
                }
                w
            },
            RotorId::III => {
                let w = "BDFHJLCPRTXVZNYEIWGAKMUSQO";
                proof {
                    reveal_strlit("BDFHJLCPRTXVZNYEIWGAKMUSQO");
                    assert forall|i: int| 0 <= i < 26 implies w@[i] == index_char(
                        rotor_table(RotorId::III, i),
                    ) by {}
                }
                w
            },
            RotorId::IV => {
                let w = "ESOVPZJAYQUIRHXLNFTGKDCMWB";
                proof {
                    reveal_strlit("ESOVPZJAYQUIRHXLNFTGKDCMWB");
                    assert forall|i: int| 0 <= i < 26 implies w@[i] == index_char(
                        rotor_table(RotorId::IV, i),
                    ) by {}
                }
                w
            },
            RotorId::V => {
                let w = "VZBRGITYUPSDNHLXAWMJQOFECK";
                proof {
                    reveal_strlit("VZBRGITYUPSDNHLXAWMJQOFECK");
                    assert forall|i: int| 0 <= i < 26 implies w@[i] == index_char(
                        rotor_table(RotorId::V, i),
                    ) by {}
                }
                w
            },
        }
    }

    /// The offset at which the ratchet-and-pawl mechanism advances the next
    /// rotor in the set, once the rotor has reached it.
    pub fn turnover_index(&self) -> (t: u32)
        ensures
            t as int == spec_turnover(*self),
            t < 26,
    {
        match self {
            RotorId::I => 23,
            RotorId::II => 21,
            RotorId::III => 17,
            RotorId::IV => 20,
            RotorId::V => 16,
        }
    }

    /// The position of the given character in this model's wiring: succeeds
    /// exactly for the uppercase letters, which the wiring is written in,
    /// and returns where the inverse table sends the letter's index.
    pub fn find_index_for_char(&self, alphabetic_character: AlphabetCharacter) -> (r: Result<
        u32,
        CipherError,
    >)
        ensures
            r is Ok <==> 65 <= alphabetic_character.character as int <= 90,
            r is Ok ==> r->Ok_0 as int == rotor_inverse(
                *self,
                alphabetic_character.character as int - 65,
            ),
            r is Err ==> r == Result::<u32, CipherError>::Err(CipherError::LookupFailure),
    {
        let target = alphabetic_character.character as u32;
        let w = self.wiring();
        proof {
            lemma_rotor_wiring_bijective(*self);
        }
        let mut i: usize = 0;
        while i < 26
            invariant
                i <= 26,
                target == alphabetic_character.character as u32,
                w@.len() == 26,
                forall|k: int| 0 <= k < 26 ==> w@[k] == index_char(rotor_table(*self, k)),
                forall|j: int| 0 <= j < i ==> rotor_table(*self, j) != target as int - 65,
                forall|k: int| 0 <= k < 26 ==> 0 <= #[trigger] rotor_table(*self, k) < 26,
                forall|k: int| 0 <= k < 26 ==> rotor_inverse(
                    *self,
                    #[trigger] rotor_table(*self, k),
                ) == k,
                forall|v: int| 0 <= v < 26 ==> rotor_table(
                    *self,
                    #[trigger] rotor_inverse(*self, v),
                ) == v,
                forall|v: int| 0 <= v < 26 ==> 0 <= #[trigger] rotor_inverse(*self, v) < 26,
            decreases 26 - i,
        {
            let wired = w.get_char(i);
            if wired as u32 == target {
                proof {
                    assert(wired == index_char(rotor_table(*self, i as int)));
                    assert(rotor_table(*self, i as int) == target as int - 65);
                }
                return Ok(i as u32);
            }
            proof {
                assert(wired as int == 65 + rotor_table(*self, i as int));
            }
            i += 1;
        }
        proof {
            if 65 <= target as int <= 90 {
                let x = target as int - 65;
                assert(rotor_table(*self, rotor_inverse(*self, x)) == x);
                assert(false);
            }
        }
        Err(CipherError::LookupFailure)
    }
}

/// The signal path through one rotor in the forward (right-to-left)
/// direction at a fixed offset: enter shifted by the offset, follow the
/// wiring, and shift back to the neighbour's frame of reference.
pub open spec fn forward_substitution(id: RotorId, shift: int, i: int) -> int {
    sub_mod26(rotor_table(id, add_mod26(i, shift)), shift)
}

/// The signal path through one rotor in the backward (left-to-right)
/// direction at a fixed offset: the inverse lookup mirroring the forward
/// path's shift convention.
pub open spec fn backward_substitution(id: RotorId, shift: int, i: int) -> int {
    sub_mod26(rotor_inverse(id, add_mod26(i, shift)), shift)
}

/// One rotor model together with its current rotational offset. The offset
/// is always reduced modulo 26 and is mutated only by
/// `increment_shift_value`.
pub struct Rotor {
    pub rotor_id: RotorId,
    pub shift_value: u32,
}

impl Rotor {
    /// A rotor's offset stays within the alphabet.
    pub open spec fn wf(self) -> bool {
        self.shift_value < 26
    }

    /// Whether the rotor sits at its model's turnover offset, where the
    /// ratchet engages the next rotor.
    pub fn at_turnover(&self) -> (r: bool)
        ensures
            r == (self.shift_value as int == spec_turnover(self.rotor_id)),
    {
        self.shift_value == self.rotor_id.turnover_index()
    }

    /// Substitutes one symbol through the rotor in the forward
    /// (right-to-left) direction at the current offset. Always succeeds for
    /// a valid symbol.
    pub fn pre_reflector_encrypt(&self, character: AlphabetCharacter) -> (r: Result<
        AlphabetCharacter,
        CipherError,
    >)
        requires
            self.wf(),
            character.wf(),
        ensures
            r is Ok,
            r is Ok ==> r->Ok_0.character == index_char(
                forward_substitution(self.rotor_id, self.shift_value as int, character.index()),
            ) && r->Ok_0.wf(),
    {
        proof {
            lemma_rotor_wiring_bijective(self.rotor_id);
        }
        let index = character.alphabet_index() as u32;
        let sum = index + self.shift_value;
        let shifted_in = if sum >= 26 {
            sum - 26
        } else {
            sum
        };
        let w = self.rotor_id.wiring();
        let wired_char = w.get_char(shifted_in as usize);
        let wired = wired_char as u32 - 65;
        let out = if wired >= self.shift_value {
            wired - self.shift_value
        } else {
            wired + 26 - self.shift_value
        };
        Ok(AlphabetCharacter { character: ((65 + out) as u8) as char })
    }

    /// Substitutes one symbol through the rotor in the backward
    /// (left-to-right) direction at the current offset: the position whose
    /// wiring value matches the offset-shifted input, shifted back by the
    /// offset. Always succeeds for a valid symbol.
    pub fn post_reflector_encrypt(&self, character: AlphabetCharacter) -> (r: Result<
        AlphabetCharacter,
        CipherError,
    >)
        requires
            self.wf(),
            character.wf(),
        ensures
            r is Ok,
            r is Ok ==> r->Ok_0.character == index_char(
                backward_substitution(self.rotor_id, self.shift_value as int, character.index()),
            ) && r->Ok_0.wf(),
    {
        proof {
            lemma_rotor_wiring_bijective(self.rotor_id);
        }
        let index = character.alphabet_index() as u32;
        let sum = index + self.shift_value;
        let shifted_in = if sum >= 26 {
            sum - 26
        } else {
            sum
        };
        let target = AlphabetCharacter { character: ((65 + shifted_in) as u8) as char };
        let position = match self.rotor_id.find_index_for_char(target) {
            Ok(position) => position,
            Err(failure) => {
                return Err(failure);
            },
        };
        let out = if position >= self.shift_value {
            position - self.shift_value
        } else {
            position + 26 - self.shift_value
        };
        Ok(AlphabetCharacter { character: ((65 + out) as u8) as char })
    }

    /// Advances the rotor by exactly one position, wrapping 25 back to 0.
    /// This is the sole mutator of rotor state.
    pub fn increment_shift_value(&mut self)
        requires
            old(self).wf(),
        ensures
            final(self).rotor_id == old(self).rotor_id,
            final(self).shift_value as int == add_mod26(old(self).shift_value as int, 1),
            final(self).wf(),
    {
        if self.shift_value >= 25 {
            self.shift_value = 0;
        } else {
            self.shift_value = self.shift_value + 1;
        }
    }

    /// The offset a new rotor starts at: 0 with no starting symbol, else
    /// the symbol's position in the model's wiring, falling back to 0 when
    /// the symbol's character does not occur in the wiring (it is written
    /// in uppercase letters only). The fallback is a deliberate permissive
    /// policy: an unusable starting symbol leaves the rotor at offset 0
    /// instead of failing construction.
    pub open spec fn initial_shift(rotor_id: RotorId, initial_character: Option<
        AlphabetCharacter,
    >) -> int {
        match initial_character {
            Option::None => 0,
            Option::Some(c) => if 65 <= c.character as int <= 90 {
                rotor_inverse(rotor_id, c.character as int - 65)
            } else {
                0
            },
        }
    }

    /// Makes a rotor of the given model at its starting offset; never
    /// fails.
    pub fn new(rotor_id: RotorId, initial_character: Option<AlphabetCharacter>) -> (r: Result<
        Self,
        CipherError,
    >)
        ensures
            r is Ok,
            r is Ok ==> r->Ok_0.rotor_id == rotor_id && r->Ok_0.shift_value as int
                == Self::initial_shift(rotor_id, initial_character) && r->Ok_0.wf(),
    {
        proof {
            lemma_rotor_wiring_bijective(rotor_id);
        }
        let shift_value: u32 = match initial_character {
            None => 0,
            Some(character) => match rotor_id.find_index_for_char(character) {
                Ok(index) => index,
                Err(_) => 0,
            },
        };
        Ok(Self { rotor_id, shift_value })
    }
}

/// Substituting forward and then backward through the same rotor at the
/// same fixed offset is the identity on every alphabet index: the two
/// halves of the signal path are mathematically inverse.
pub proof fn lemma_substitution_round_trip(id: RotorId, shift: int, i: int)
    requires
        0 <= shift < 26,
        0 <= i < 26,
    ensures
        backward_substitution(id, shift, forward_substitution(id, shift, i)) == i,
{
    lemma_rotor_wiring_bijective(id);
    let a = add_mod26(i, shift);
    assert(rotor_inverse(id, rotor_table(id, a)) == a);
}

/// The offset after `n` single steps from offset `s`.
pub open spec fn stepped_times(s: int, n: nat) -> int
    decreases n,
{
    if n == 0 {
        s
    } else {
        add_mod26(stepped_times(s, (n - 1) as nat), 1)
    }
}

/// After `n` single steps from offset `s`, the offset is `s + n` reduced
/// modulo 26.
pub proof fn lemma_stepped_times_mod(s: int, n: nat)
    requires
        0 <= s < 26,
    ensures
        stepped_times(s, n) == (s + n) % 26,
    decreases n,
{
    if n == 0 {
        assert(s % 26 == s);
    } else {
        lemma_stepped_times_mod(s, (n - 1) as nat);
        let previous = (s + n - 1) % 26;
        assert(0 <= previous < 26);
        assert(add_mod26(previous, 1) == (s + n) % 26) by {
            if previous == 25 {
                assert((s + n) % 26 == 0);
            } else {
                assert((s + n) % 26 == previous + 1);
            }
        }
    }
}

/// Stepping a rotor 26 times returns its offset to where it began: the
/// cyclic law of the 26-position ratchet.
pub proof fn lemma_step_cycle(s: int)
    requires
        0 <= s < 26,
    ensures
        stepped_times(s, 26) == s,
{
    lemma_stepped_times_mod(s, 26);
    assert((s + 26) % 26 == s);
}

} // verus!
