//! A rotor cipher machine: a validated 26-letter alphabet, fixed reflector
//! and rotor wiring tables, the bidirectional signal path through three
//! rotors and a reflector, and the odometer-style stepping that advances
//! the rotor offsets between characters.

pub mod alphabet_character;
pub mod error;
pub mod machine;
pub mod reflector;
pub mod rotor;
pub mod rotors;
