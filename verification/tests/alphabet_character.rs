use enigma::alphabet_character::AlphabetCharacter;
use enigma::error::CipherError;

#[test]
fn it_creates_an_instance_given_valid_character() {
    assert!(AlphabetCharacter::new('A').is_ok())
}

#[test]
fn it_returns_an_error_given_invalid_character() {
    assert!(AlphabetCharacter::new('0').is_err())
}

#[test]
fn it_accepts_every_ascii_letter_with_its_index() {
    for (i, c) in ('A'..='Z').enumerate() {
        let symbol = AlphabetCharacter::new(c).unwrap();
        assert_eq!(c, symbol.character);
        assert_eq!(i as u8, symbol.alphabet_index());
    }
    for (i, c) in ('a'..='z').enumerate() {
        let symbol = AlphabetCharacter::new(c).unwrap();
        assert_eq!(c, symbol.character);
        assert_eq!(i as u8, symbol.alphabet_index());
    }
}

#[test]
fn it_rejects_a_digit_as_not_alphabetic() {
    assert_eq!(Err(CipherError::NotAlphabetic), AlphabetCharacter::new('7'));
}

#[test]
fn it_rejects_punctuation_as_not_alphabetic() {
    assert_eq!(Err(CipherError::NotAlphabetic), AlphabetCharacter::new('['));
}

#[test]
fn it_rejects_a_letter_outside_the_latin_block_as_out_of_range() {
    assert_eq!(Err(CipherError::OutOfRange), AlphabetCharacter::new('É'));
    assert_eq!(Err(CipherError::OutOfRange), AlphabetCharacter::new('ß'));
}

#[test]
fn as_u32_preserves_the_original_case() {
    assert_eq!(65, AlphabetCharacter::new('A').unwrap().as_u32());
    assert_eq!(122, AlphabetCharacter::new('z').unwrap().as_u32());
}
