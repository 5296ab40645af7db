use enigma::alphabet_character::AlphabetCharacter;
use enigma::error::CipherError;
use enigma::reflector::Reflector;
use enigma::rotor::Rotor;
use enigma::rotor::RotorId;
use enigma::rotors::Rotors;

#[test]
fn new_returns_err_given_duplicate_rotors() {
    let left_rotor = Rotor::new(RotorId::I, None).unwrap();
    let mid_rotor = Rotor::new(RotorId::II, None).unwrap();
    let right_rotor = Rotor::new(RotorId::II, None).unwrap();

    let result = Rotors::new(Reflector::A, left_rotor, mid_rotor, right_rotor);

    assert!(result.is_err());
}

#[test]
fn new_returns_rotors_given_valid_configuration() {
    let left_rotor = Rotor::new(RotorId::I, None).unwrap();
    let mid_rotor = Rotor::new(RotorId::II, None).unwrap();
    let right_rotor = Rotor::new(RotorId::III, None).unwrap();

    let result = Rotors::new(Reflector::A, left_rotor, mid_rotor, right_rotor).unwrap();

    assert_eq!(Reflector::A, result.reflector);
}

#[test]
fn pre_reflector_encrypt_returns_correct_value_given_valid_char() {
    let left_rotor = Rotor::new(RotorId::III, None).unwrap();
    let mid_rotor = Rotor::new(RotorId::II, None).unwrap();
    let right_rotor = Rotor::new(RotorId::I, None).unwrap();

    let mut rotors = Rotors::new(Reflector::B, left_rotor, mid_rotor, right_rotor).unwrap();

    let result = rotors.pre_reflector(AlphabetCharacter::new('A').unwrap());

    assert_eq!('D', result.character);
}

#[test]
fn post_reflector_encrypt_returns_correct_value_given_valid_char() {
    let left_rotor = Rotor::new(RotorId::III, None).unwrap();
    let mid_rotor = Rotor::new(RotorId::II, None).unwrap();
    let right_rotor = Rotor::new(RotorId::I, None).unwrap();

    let mut rotors = Rotors::new(Reflector::B, left_rotor, mid_rotor, right_rotor).unwrap();

    let result = rotors.post_reflector(AlphabetCharacter::new('H').unwrap());

    assert_eq!('Y', result.character);
}

#[test]
fn reflect_returns_correct_value_given_valid_char() {
    let left_rotor = Rotor::new(RotorId::III, None).unwrap();
    let mid_rotor = Rotor::new(RotorId::II, None).unwrap();
    let right_rotor = Rotor::new(RotorId::I, None).unwrap();

    let mut rotors = Rotors::new(Reflector::B, left_rotor, mid_rotor, right_rotor).unwrap();

    let result = rotors.pre_reflector(AlphabetCharacter::new('A').unwrap());

    assert_eq!('D', result.character);
}

#[test]
fn encrypt_character_encrypts_to_the_correct_value() {
    let left_rotor = Rotor::new(RotorId::III, None).unwrap();
    let mid_rotor = Rotor::new(RotorId::II, None).unwrap();
    let right_rotor = Rotor::new(RotorId::I, None).unwrap();

    let mut rotors = Rotors::new(Reflector::B, left_rotor, mid_rotor, right_rotor).unwrap();

    let result = rotors.encrypt_char(AlphabetCharacter::new('A').unwrap());

    assert_eq!('E', result.character);
}

#[test]
fn stepping_cascade_advances_the_middle_rotor_one_character_after_turnover() {
    // Model I's turnover sits at index 23. With the right rotor at offset
    // 22, the first character steps it to 23 without advancing the middle
    // rotor; the next character steps it to 24 and advances the middle
    // rotor, because the turnover condition was met on the previous step.
    let left_rotor = Rotor { rotor_id: RotorId::III, shift_value: 0 };
    let mid_rotor = Rotor { rotor_id: RotorId::II, shift_value: 0 };
    let right_rotor = Rotor { rotor_id: RotorId::I, shift_value: 22 };
    let mut rotors = Rotors::new(Reflector::B, left_rotor, mid_rotor, right_rotor).unwrap();

    rotors.encrypt_char(AlphabetCharacter::new('A').unwrap());
    assert_eq!(23, rotors.right_rotor.shift_value);
    assert_eq!(0, rotors.middle_rotor.shift_value);
    assert_eq!(0, rotors.left_rotor.shift_value);

    rotors.encrypt_char(AlphabetCharacter::new('A').unwrap());
    assert_eq!(24, rotors.right_rotor.shift_value);
    assert_eq!(1, rotors.middle_rotor.shift_value);
    assert_eq!(0, rotors.left_rotor.shift_value);
}

#[test]
fn new_rejects_duplicates_regardless_of_position_or_reflector() {
    for reflector in [Reflector::A, Reflector::B, Reflector::C] {
        let duplicate_outer = Rotors::new(
            reflector,
            Rotor::new(RotorId::IV, None).unwrap(),
            Rotor::new(RotorId::V, None).unwrap(),
            Rotor::new(RotorId::IV, None).unwrap(),
        );
        assert_eq!(
            Err(CipherError::DuplicateRotorModel),
            duplicate_outer.map(|_| ()),
            "left and right rotors share a model"
        );

        let duplicate_left_pair = Rotors::new(
            reflector,
            Rotor::new(RotorId::I, None).unwrap(),
            Rotor::new(RotorId::I, None).unwrap(),
            Rotor::new(RotorId::II, None).unwrap(),
        );
        assert!(duplicate_left_pair.is_err());
    }
}

#[test]
fn encrypt_char_steps_the_right_rotor_before_substituting() {
    let left_rotor = Rotor::new(RotorId::I, None).unwrap();
    let mid_rotor = Rotor::new(RotorId::II, None).unwrap();
    let right_rotor = Rotor::new(RotorId::III, None).unwrap();
    let mut rotors = Rotors::new(Reflector::B, left_rotor, mid_rotor, right_rotor).unwrap();

    rotors.encrypt_char(AlphabetCharacter::new('A').unwrap());

    assert_eq!(1, rotors.right_rotor.shift_value);
    assert_eq!(0, rotors.middle_rotor.shift_value);
    assert_eq!(0, rotors.left_rotor.shift_value);
}
