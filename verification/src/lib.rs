//! Decoder for the encrypted, fixed-size binary records in which a
//! creature-collection game series stores individual creature entities.
//!
//! A raw record carries a 32-bit seed in its unencrypted header. The seed
//! drives a linear-congruential keystream that is XOR-ed over the record
//! body, and selects one of 24 block permutations that must be undone to
//! restore the body's natural block order. Over the resulting canonical
//! buffer, a small set of little-endian primitive reads exposes the stored
//! fields, and a shared layer derives shininess, hidden-power type and the
//! effective nature from them.

pub mod pk6;
pub mod pkx;
pub mod poke_crypto;
pub mod reader;
pub mod types;

pub use pk6::Pk6;
pub use pk6::Pk6Bytes;
pub use pk6::Pk6Data;
