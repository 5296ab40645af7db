use enigma::error::CipherError;
use enigma::reflector::Reflector;

#[test]
fn wiring_returns_correct_value() {
    assert_eq!("EJMZALYXVBWFCRQUONTSPIKHGD", Reflector::A.wiring())
}

#[test]
fn reflect_character_returns_err_given_non_alphabetic() {
    assert!(Reflector::B.reflect_character('[').is_err())
}

#[test]
fn reflect_character_returns_correct_character() {
    assert_eq!('R', Reflector::B.reflect_character('B').unwrap())
}

#[test]
fn reflect_character_rejects_a_lowercase_letter_as_lookup_failure() {
    assert_eq!(Err(CipherError::LookupFailure), Reflector::C.reflect_character('a'));
}

#[test]
fn every_model_reflects_to_a_permutation_without_fixed_points() {
    for reflector in [Reflector::A, Reflector::B, Reflector::C] {
        let mut seen = [false; 26];
        for i in 0..26u8 {
            let input = (b'A' + i) as char;
            let output = reflector.reflect_character(input).unwrap();
            assert!(('A'..='Z').contains(&output));
            assert_ne!(input, output, "a reflector never maps a letter to itself");
            let slot = (output as u32 - 'A' as u32) as usize;
            assert!(!seen[slot], "two inputs reflected to the same output");
            seen[slot] = true;
        }
        assert!(seen.iter().all(|taken| *taken));
    }
}

#[test]
fn each_model_has_its_own_wiring() {
    assert_eq!("YRUHQSLDPXNGOKMIEBFZCWVJAT", Reflector::B.wiring());
    assert_eq!("FVPJIAOYEDRZXWGCTKUQSBNMHL", Reflector::C.wiring());
}
