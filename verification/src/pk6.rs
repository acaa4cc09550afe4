//! The sixth-generation layout adapter: decrypts a 232-byte stored record
//! into its canonical buffer and exposes the stored fields at their
//! generation-specific offsets through the shared primitive-accessor and
//! derived-value contracts.

use crate::pkx::Pkx;
use crate::poke_crypto;
use crate::reader;
use crate::reader::Reader;
use crate::types::AbilityNumber;
use crate::types::Gender;
use crate::types::Language;
use crate::types::Nature;
use crate::types::Stats;
use vstd::prelude::*;
use vstd::slice::slice_to_vec;

verus! {

/// A raw sixth-generation stored record, as read from a save container.
pub type Pk6Bytes = [u8; 232];

/// A decoded sixth-generation record: the canonical plaintext buffer,
/// created once by decryption and never mutated afterwards.
pub struct Pk6 {
    data: Vec<u8>,
}

impl Pk6 {
    /// Size of a stored record, in bytes.
    pub const STORED_SIZE: usize = 232;

    /// Size of one body block, in bytes.
    pub const BLOCK_SIZE: usize = 56;

    /// Decrypts a raw stored record into a decoded entity: the seed is the
    /// little-endian word at the start of the header, and the canonical
    /// buffer is the record decrypted under it.
    pub fn new(data: Pk6Bytes) -> (r: Pk6)
        ensures
            r.buf() == poke_crypto::decrypt_seq(
                data@,
                reader::spec_default_read_u32(data@, 0),
            ),
            r.buf().len() == 232,
    {
        let raw: Vec<u8> = slice_to_vec(data.as_slice());
        let seed: u32 = reader::read_u32_at(raw.as_slice(), 0);
        let plain: Vec<u8> = poke_crypto::decrypt(&raw, seed);
        Pk6 { data: plain }
    }
}

impl Reader for Pk6 {
    closed spec fn buf(&self) -> Seq<u8> {
        self.data@
    }

    fn get_slice(&self) -> (r: &[u8]) {
        self.data.as_slice()
    }
}

impl Pkx for Pk6 {
    open spec fn spec_encryption_constant(&self) -> u32 {
        reader::spec_default_read_u32(self.buf(), 0x00)
    }

    open spec fn spec_species(&self) -> u16 {
        reader::spec_default_read_u16(self.buf(), 0x08)
    }

    open spec fn spec_tid(&self) -> u16 {
        reader::spec_default_read_u16(self.buf(), 0x0C)
    }

    open spec fn spec_sid(&self) -> u16 {
        reader::spec_default_read_u16(self.buf(), 0x0E)
    }

    open spec fn spec_ability(&self) -> u16 {
        reader::spec_default_read_u8(self.buf(), 0x14) as u16
    }

    open spec fn spec_ability_number_id(&self) -> u8 {
        reader::spec_default_read_u8(self.buf(), 0x15)
    }

    open spec fn spec_pid(&self) -> u32 {
        reader::spec_default_read_u32(self.buf(), 0x18)
    }

    open spec fn spec_nature_id(&self) -> u8 {
        reader::spec_default_read_u8(self.buf(), 0x1C)
    }

    open spec fn spec_gender_bits(&self) -> u8 {
        (reader::spec_default_read_u8(self.buf(), 0x1D) >> 1) & 3
    }

    open spec fn spec_evs(&self) -> Stats {
        Stats {
            hp: reader::spec_default_read_u8(self.buf(), 0x1E),
            atk: reader::spec_default_read_u8(self.buf(), 0x1F),
            def: reader::spec_default_read_u8(self.buf(), 0x20),
            spa: reader::spec_default_read_u8(self.buf(), 0x21),
            spd: reader::spec_default_read_u8(self.buf(), 0x22),
            spe: reader::spec_default_read_u8(self.buf(), 0x23),
        }
    }

    open spec fn spec_move1(&self) -> u16 {
        reader::spec_default_read_u16(self.buf(), 0x5A)
    }

    open spec fn spec_move2(&self) -> u16 {
        reader::spec_default_read_u16(self.buf(), 0x5C)
    }

    open spec fn spec_move3(&self) -> u16 {
        reader::spec_default_read_u16(self.buf(), 0x5E)
    }

    open spec fn spec_move4(&self) -> u16 {
        reader::spec_default_read_u16(self.buf(), 0x60)
    }

    open spec fn spec_iv32(&self) -> u32 {
        reader::spec_default_read_u32(self.buf(), 0x74)
    }

    open spec fn spec_ht_friendship(&self) -> u32 {
        reader::spec_default_read_u32_aligned(self.buf(), 0xA2)
    }

    open spec fn spec_ot_friendship(&self) -> u32 {
        reader::spec_default_read_u32_aligned(self.buf(), 0xCA)
    }

    open spec fn spec_language_id(&self) -> u8 {
        reader::spec_default_read_u8(self.buf(), 0xE3)
    }

    open spec fn spec_minted_nature(&self) -> Nature {
        crate::types::spec_nature_from_id(self.spec_nature_id())
    }

    fn encryption_constant(&self) -> u32 {
        self.default_read_u32(0x00)
    }

    fn species(&self) -> u16 {
        self.default_read_u16(0x08)
    }

    fn tid(&self) -> u16 {
        self.default_read_u16(0x0C)
    }

    fn sid(&self) -> u16 {
        self.default_read_u16(0x0E)
    }

    fn ability(&self) -> u16 {
        self.default_read_u8(0x14) as u16
    }

    fn ability_number(&self) -> AbilityNumber {
        AbilityNumber::from_id(self.default_read_u8(0x15))
    }

    fn pid(&self) -> u32 {
        self.default_read_u32(0x18)
    }

    fn nature(&self) -> Nature {
        Nature::from_id(self.default_read_u8(0x1C))
    }

    /// This generation stores no nature override, so the effective nature
    /// is always the stored one.
    fn minted_nature(&self) -> Nature {
        Nature::from_id(self.default_read_u8(0x1C))
    }

    fn gender(&self) -> Gender {
        Gender::from_bits((self.default_read_u8(0x1D) >> 1) & 3)
    }

    fn evs(&self) -> Stats {
        Stats {
            hp: self.default_read_u8(0x1E),
            atk: self.default_read_u8(0x1F),
            def: self.default_read_u8(0x20),
            spa: self.default_read_u8(0x21),
            spd: self.default_read_u8(0x22),
            spe: self.default_read_u8(0x23),
        }
    }

    fn move1(&self) -> u16 {
        self.default_read_u16(0x5A)
    }

    fn move2(&self) -> u16 {
        self.default_read_u16(0x5C)
    }

    fn move3(&self) -> u16 {
        self.default_read_u16(0x5E)
    }

    fn move4(&self) -> u16 {
        self.default_read_u16(0x60)
    }

    fn iv32(&self) -> u32 {
        self.default_read_u32(0x74)
    }

    /// The friendship counters sit at offsets that are not four-byte
    /// aligned, so the whole-word read used for them always yields the
    /// default value; stated in the contract so the behaviour is explicit.
    fn ht_friendship(&self) -> u32 {
        self.default_read_u32_aligned(0xA2)
    }

    fn ot_friendship(&self) -> u32 {
        self.default_read_u32_aligned(0xCA)
    }

    fn language(&self) -> Language {
        Language::from_id(self.default_read_u8(0xE3))
    }
}

/// A raw stored record held as a plain value, for embedding in larger
/// structures; converting it into `Pk6` decrypts it.
#[derive(Clone, Copy, Debug, PartialEq)]
pub struct Pk6Data(pub Pk6Bytes);

impl Default for Pk6Data {
    /// An all-zero stored record.
    fn default() -> (r: Pk6Data)
        ensures
            r.0@.len() == 232,
            forall|i: int| 0 <= i < 232 ==> r.0@[i] == 0u8,
    {
        Pk6Data(vstd::array::array_fill_for_copy_types(0u8))
    }
}

impl From<Pk6Data> for Pk6 {
    /// Decrypts the held record, as `Pk6::new` does.
    fn from(data: Pk6Data) -> (r: Pk6) {
        Pk6::new(data.0)
    }
}

impl vstd::std_specs::convert::FromSpecImpl<Pk6Data> for Pk6 {
    open spec fn obeys_from_spec() -> bool {
        false
    }

    open spec fn from_spec(data: Pk6Data) -> Pk6 {
        arbitrary()
    }
}

} // verus!
