use enigma::alphabet_character::AlphabetCharacter;
use enigma::error::CipherError;
use enigma::machine::EngimaMachine;
use enigma::reflector::Reflector;
use enigma::rotor::Rotor;
use enigma::rotor::RotorId;
use enigma::rotors::Rotors;

fn standard_machine() -> EngimaMachine {
    let left_rotor = Rotor::new(RotorId::I, None).unwrap();
    let mid_rotor = Rotor::new(RotorId::II, None).unwrap();
    let right_rotor = Rotor::new(RotorId::III, None).unwrap();
    let rotors = Rotors::new(Reflector::B, left_rotor, mid_rotor, right_rotor).unwrap();
    EngimaMachine::new(rotors)
}

#[test]
fn it_works() {}

#[test]
fn encrypting_one_character_from_the_standard_position() {
    let left_rotor = Rotor::new(RotorId::I, None).unwrap();
    let mid_rotor = Rotor::new(RotorId::II, None).unwrap();
    let right_rotor = Rotor::new(RotorId::III, None).unwrap();
    let mut rotors = Rotors::new(Reflector::B, left_rotor, mid_rotor, right_rotor).unwrap();

    let result = rotors.encrypt_char(AlphabetCharacter::new('A').unwrap());

    assert_eq!('A', result.character);
}

#[test]
fn encrypt_maps_each_character_in_input_order() {
    let mut machine = standard_machine();
    assert_eq!("ABWCJ", machine.encrypt("AAAAA").unwrap());
}

#[test]
fn encrypt_continues_the_stepping_across_calls() {
    let mut machine = standard_machine();
    let first = machine.encrypt("AAA").unwrap();
    let second = machine.encrypt("AA").unwrap();
    let mut whole = standard_machine();
    let at_once = whole.encrypt("AAAAA").unwrap();
    assert_eq!(at_once, format!("{}{}", first, second));
}

#[test]
fn encrypt_normalizes_lowercase_input_to_uppercase_output() {
    let mut machine = standard_machine();
    assert_eq!("HJYZV", machine.encrypt("hello").unwrap());
}

#[test]
fn encrypt_handles_a_longer_text() {
    let mut machine = standard_machine();
    assert_eq!("HJYZVUFLRP", machine.encrypt("HELLOWORLD").unwrap());
}

#[test]
fn encrypt_of_an_empty_text_is_empty_and_steps_nothing() {
    let mut machine = standard_machine();
    assert_eq!("", machine.encrypt("").unwrap());
    assert_eq!(0, machine.rotors.right_rotor.shift_value);
}

#[test]
fn encrypt_rejects_the_whole_input_on_the_first_invalid_character() {
    let mut machine = standard_machine();
    let result = machine.encrypt("HELLO WORLD");
    assert_eq!(
        Err(CipherError::InvalidCharacter { character: ' ', position: 5 }),
        result
    );
    // A rejected input leaves the rotor offsets untouched.
    assert_eq!(0, machine.rotors.right_rotor.shift_value);
    assert_eq!(0, machine.rotors.middle_rotor.shift_value);
    assert_eq!(0, machine.rotors.left_rotor.shift_value);
}
