use vstd::prelude::*;

use vstd::string::StrSliceExecFns;

use crate::alphabet_character::index_char;
use crate::error::CipherError;

verus! {

/// The three historical reflector models.
#[derive(Clone, Copy, Debug, PartialEq, Eq, Structural)]
pub enum Reflector {
    A,
    B,
    C,
}

/// Model A's substitution, as alphabet indices: entry `i` is the index of
/// the letter that letter `i` is wired to.
pub open spec fn reflector_a_table(i: int) -> int {
    if i == 0 { 4 } else if i == 1 { 9 } else if i == 2 { 12 } else if i == 3 { 25 }
    else if i == 4 { 0 } else if i == 5 { 11 } else if i == 6 { 24 } else if i == 7 { 23 }
    else if i == 8 { 21 } else if i == 9 { 1 } else if i == 10 { 22 } else if i == 11 { 5 }
    else if i == 12 { 2 } else if i == 13 { 17 } else if i == 14 { 16 } else if i == 15 { 20 }
    else if i == 16 { 14 } else if i == 17 { 13 } else if i == 18 { 19 } else if i == 19 { 18 }
    else if i == 20 { 15 } else if i == 21 { 8 } else if i == 22 { 10 } else if i == 23 { 7 }
    else if i == 24 { 6 } else { 3 }
}

/// Model B's substitution, as alphabet indices.
pub open spec fn reflector_b_table(i: int) -> int {
    if i == 0 { 24 } else if i == 1 { 17 } else if i == 2 { 20 } else if i == 3 { 7 }
    else if i == 4 { 16 } else if i == 5 { 18 } else if i == 6 { 11 } else if i == 7 { 3 }
    else if i == 8 { 15 } else if i == 9 { 23 } else if i == 10 { 13 } else if i == 11 { 6 }
    else if i == 12 { 14 } else if i == 13 { 10 } else if i == 14 { 12 } else if i == 15 { 8 }
    else if i == 16 { 4 } else if i == 17 { 1 } else if i == 18 { 5 } else if i == 19 { 25 }
    else if i == 20 { 2 } else if i == 21 { 22 } else if i == 22 { 21 } else if i == 23 { 9 }
    else if i == 24 { 0 } else { 19 }
}

/// Model C's substitution, as alphabet indices.
pub open spec fn reflector_c_table(i: int) -> int {
    if i == 0 { 5 } else if i == 1 { 21 } else if i == 2 { 15 } else if i == 3 { 9 }
    else if i == 4 { 8 } else if i == 5 { 0 } else if i == 6 { 14 } else if i == 7 { 24 }
    else if i == 8 { 4 } else if i == 9 { 3 } else if i == 10 { 17 } else if i == 11 { 25 }
    else if i == 12 { 23 } else if i == 13 { 22 } else if i == 14 { 6 } else if i == 15 { 2 }
    else if i == 16 { 19 } else if i == 17 { 10 } else if i == 18 { 20 } else if i == 19 { 16 }
    else if i == 20 { 18 } else if i == 21 { 1 } else if i == 22 { 13 } else if i == 23 { 12 }
    else if i == 24 { 7 } else { 11 }
}

/// The chosen model's substitution table, as alphabet indices.
pub open spec fn reflector_table(r: Reflector, i: int) -> int {
    match r {
        Reflector::A => reflector_a_table(i),
        Reflector::B => reflector_b_table(i),
        Reflector::C => reflector_c_table(i),
    }
}

impl Reflector {
    /// The model's wiring, listed in alphabet order: if the first letter is
    /// 'E', then 'A' is wired to 'E'. Character `i` of the string is the
    /// letter whose index `reflector_table` gives for `i`.
    pub fn wiring(&self) -> (w: &str)
        ensures
            w@.len() == 26,
            forall|i: int| 0 <= i < 26 ==> w@[i] == index_char(reflector_table(*self, i)),
    {
        match self {
            Reflector::A => {
                let w = "EJMZALYXVBWFCRQUONTSPIKHGD";
                proof {
                    reveal_strlit("EJMZALYXVBWFCRQUONTSPIKHGD");
                    assert forall|i: int| 0 <= i < 26 implies w@[i] == index_char(
                        reflector_table(Reflector::A, i),
                    ) by {}
                }
                w
            },
            Reflector::B => {
                let w = "YRUHQSLDPXNGOKMIEBFZCWVJAT";
                proof {
                    reveal_strlit("YRUHQSLDPXNGOKMIEBFZCWVJAT");
                    assert forall|i: int| 0 <= i < 26 implies w@[i] == index_char(
                        reflector_table(Reflector::B, i),
                    ) by {}
                }
                w
            },
            Reflector::C => {
                let w = "FVPJIAOYEDRZXWGCTKUQSBNMHL";
                proof {
                    reveal_strlit("FVPJIAOYEDRZXWGCTKUQSBNMHL");
                    assert forall|i: int| 0 <= i < 26 implies w@[i] == index_char(
                        reflector_table(Reflector::C, i),
                    ) by {}
                }
                w
            },
        }
    }

    /// Sends an uppercase letter through the reflector: the letter at the
    /// input letter's index in the model's table. A character outside A-Z
    /// is rejected as `LookupFailure`; this guards a programming error, as
    /// upstream validation never hands such a character in.
    pub fn reflect_character(&self, character: char) -> (r: Result<char, CipherError>)
        ensures
            r is Ok <==> 65 <= character as int <= 90,
            r is Ok ==> r->Ok_0 == index_char(reflector_table(*self, character as int - 65)),
            !(65 <= character as int <= 90) ==> r == Result::<char, CipherError>::Err(
                CipherError::LookupFailure,
            ),
    {
        let value = character as u32;
        if value < 65 || value > 90 {
            return Err(CipherError::LookupFailure);
        }
        let w = self.wiring();
        Ok(w.get_char((value - 65) as usize))
    }
}

/// Every reflector model's table is a fixed permutation of the alphabet
/// indices: an involution, so no two inputs map to the same output, and by
/// historical convention no letter maps to itself.
pub proof fn lemma_reflector_is_permutation(r: Reflector)
    ensures
        forall|i: int| 0 <= i < 26 ==> 0 <= #[trigger] reflector_table(r, i) < 26,
        forall|i: int| 0 <= i < 26 ==> reflector_table(r, #[trigger] reflector_table(r, i)) == i,
        forall|i: int, j: int|
            0 <= i < 26 && 0 <= j < 26 && #[trigger] reflector_table(r, i) == #[trigger] reflector_table(r, j)
                ==> i == j,
        forall|i: int| 0 <= i < 26 ==> #[trigger] reflector_table(r, i) != i,
{
    assert forall|i: int| 0 <= i < 26 implies 0 <= #[trigger] reflector_table(r, i) < 26
        && reflector_table(r, reflector_table(r, i)) == i && reflector_table(r, i) != i by {}
    assert forall|i: int, j: int|
        0 <= i < 26 && 0 <= j < 26 && #[trigger] reflector_table(r, i) == #[trigger] reflector_table(
            r,
            j,
        ) implies i == j by {
        assert(reflector_table(r, reflector_table(r, i)) == i);
        assert(reflector_table(r, reflector_table(r, j)) == j);
    }
}

} // verus!
