//! The capability-based field abstraction: every generation-specific layout
//! exposes the same primitive fields, and the derived values — shiny
//! determination, individual-value unpacking, hidden-power type, effective
//! nature — are computed here once, over those fields alone.

use crate::reader::Reader;
use crate::types::AbilityNumber;
use crate::types::Gender;
use crate::types::HiddenPower;
use crate::types::Language;
use crate::types::Nature;
use crate::types::Stats;
use crate::types::spec_hidden_power_from_index;
use vstd::prelude::*;

verus! {

/// The trainer shiny value: `(tid XOR sid) >> 4`.
pub open spec fn spec_tsv(tid: u16, sid: u16) -> u16 {
    (tid ^ sid) >> 4
}

/// The entity shiny value: the two halves of the personality value XOR-ed,
/// shifted down by four.
pub open spec fn spec_psv(pid: u32) -> u16 {
    ((((pid >> 16) ^ (pid & 0xFFFF))) >> 4) as u16
}

/// An entity is shiny exactly when its trainer shiny value equals its
/// entity shiny value.
pub open spec fn spec_shiny(tid: u16, sid: u16, pid: u32) -> bool {
    spec_tsv(tid, sid) == spec_psv(pid)
}

/// The six individual values packed into one 32-bit word: six consecutive
/// five-bit fields, low bit first, in stat order; the remaining high bits
/// are flags, not stats.
pub open spec fn spec_unpack_ivs(word: u32) -> Stats {
    Stats {
        hp: (word & 0x1F) as u8,
        atk: ((word >> 5) & 0x1F) as u8,
        def: ((word >> 10) & 0x1F) as u8,
        spa: ((word >> 15) & 0x1F) as u8,
        spd: ((word >> 20) & 0x1F) as u8,
        spe: ((word >> 25) & 0x1F) as u8,
    }
}

/// The weighted sum of the low bits of the individual values that selects
/// the hidden-power type.
pub open spec fn spec_hidden_power_sum(ivs: Stats) -> int {
    (ivs.hp & 1) + 2 * (ivs.atk & 1) + 4 * (ivs.def & 1) + 8 * (ivs.spe & 1) + 16 * (ivs.spa & 1)
        + 32 * (ivs.spd & 1)
}

/// The hidden-power type of a stat block: the weighted low-bit sum, scaled
/// into the sixteen-entry type table.
pub open spec fn spec_hidden_power(ivs: Stats) -> HiddenPower {
    spec_hidden_power_from_index(spec_hidden_power_sum(ivs) * 15 / 63)
}

/// Computes the trainer shiny value.
pub fn tsv_value(tid: u16, sid: u16) -> (r: u16)
    ensures
        r == spec_tsv(tid, sid),
{
    (tid ^ sid) >> 4
}

/// Computes the entity shiny value.
pub fn psv_value(pid: u32) -> (r: u16)
    ensures
        r == spec_psv(pid),
{
    let x: u32 = ((pid >> 16) ^ (pid & 0xFFFF)) >> 4;
    proof {
        assert(((pid >> 16) ^ (pid & 0xFFFF)) >> 4 <= 0xFFFF) by (bit_vector);
    }
    x as u16
}

/// Unpacks the six individual values; each lies in [0, 31].
pub fn unpack_ivs(word: u32) -> (r: Stats)
    ensures
        r == spec_unpack_ivs(word),
        r.hp < 32 && r.atk < 32 && r.def < 32 && r.spa < 32 && r.spd < 32 && r.spe < 32,
{
    proof {
        assert(word & 0x1F < 32 && (word >> 5) & 0x1F < 32 && (word >> 10) & 0x1F < 32 && (word
            >> 15) & 0x1F < 32 && (word >> 20) & 0x1F < 32 && (word >> 25) & 0x1F < 32)
            by (bit_vector);
    }
    Stats {
        hp: (word & 0x1F) as u8,
        atk: ((word >> 5) & 0x1F) as u8,
        def: ((word >> 10) & 0x1F) as u8,
        spa: ((word >> 15) & 0x1F) as u8,
        spd: ((word >> 20) & 0x1F) as u8,
        spe: ((word >> 25) & 0x1F) as u8,
    }
}

/// Computes the hidden-power type of a stat block. Total: defined for every
/// stat block, and always one of the sixteen table entries.
pub fn hidden_power_value(ivs: &Stats) -> (r: HiddenPower)
    ensures
        r == spec_hidden_power(*ivs),
{
    proof {
        lemma_hidden_power_sum_bounded(*ivs);
    }
    let sum: u32 = ((ivs.hp & 1) as u32) + 2 * ((ivs.atk & 1) as u32) + 4 * ((ivs.def & 1) as u32)
        + 8 * ((ivs.spe & 1) as u32) + 16 * ((ivs.spa & 1) as u32) + 32 * ((ivs.spd & 1) as u32);
    let index: u32 = sum * 15 / 63;
    match index {
        0 => HiddenPower::Fighting,
        1 => HiddenPower::Flying,
        2 => HiddenPower::Poison,
        3 => HiddenPower::Ground,
        4 => HiddenPower::Rock,
        5 => HiddenPower::Bug,
        6 => HiddenPower::GhostType,
        7 => HiddenPower::Steel,
        8 => HiddenPower::Fire,
        9 => HiddenPower::Water,
        10 => HiddenPower::Grass,
        11 => HiddenPower::Electric,
        12 => HiddenPower::Psychic,
        13 => HiddenPower::Ice,
        14 => HiddenPower::Dragon,
        _ => HiddenPower::Dark,
    }
}

/// Shininess is exactly the equality of the two shiny values, and only bits
/// 4 and above of the identifiers — and bits 4 and above of each half of
/// the personality value — take part in it: flipping any lower bit never
/// changes the result.
pub proof fn lemma_shiny_ignores_low_bits(
    tid: u16,
    sid: u16,
    pid: u32,
    tid_flip: u16,
    sid_flip: u16,
    pid_flip: u32,
)
    requires
        tid_flip < 16,
        sid_flip < 16,
        pid_flip & 0xFFF0_FFF0 == 0,
    ensures
        spec_shiny(tid ^ tid_flip, sid ^ sid_flip, pid ^ pid_flip) == spec_shiny(tid, sid, pid),
{
    assert(((tid ^ tid_flip) ^ (sid ^ sid_flip)) >> 4 == (tid ^ sid) >> 4) by (bit_vector)
        requires
            tid_flip < 16,
            sid_flip < 16,
    ;
    assert(((((pid ^ pid_flip) >> 16) ^ ((pid ^ pid_flip) & 0xFFFF))) >> 4 == (((pid >> 16) ^ (pid
        & 0xFFFF))) >> 4) by (bit_vector)
        requires
            pid_flip & 0xFFF0_FFF0 == 0,
    ;
}

/// Every unpacked individual value lies in [0, 31].
pub proof fn lemma_unpacked_ivs_in_range(word: u32)
    ensures
        spec_unpack_ivs(word).hp < 32,
        spec_unpack_ivs(word).atk < 32,
        spec_unpack_ivs(word).def < 32,
        spec_unpack_ivs(word).spa < 32,
        spec_unpack_ivs(word).spd < 32,
        spec_unpack_ivs(word).spe < 32,
{
    assert(word & 0x1F < 32 && (word >> 5) & 0x1F < 32 && (word >> 10) & 0x1F < 32 && (word >> 15)
        & 0x1F < 32 && (word >> 20) & 0x1F < 32 && (word >> 25) & 0x1F < 32) by (bit_vector);
}

/// The hidden-power computation is total: the weighted sum stays within
/// [0, 63], so the scaled index always lands inside the sixteen-entry table.
pub proof fn lemma_hidden_power_sum_bounded(ivs: Stats)
    ensures
        0 <= spec_hidden_power_sum(ivs) <= 63,
        0 <= spec_hidden_power_sum(ivs) * 15 / 63 <= 15,
{
    let hp = ivs.hp;
    let atk = ivs.atk;
    let def = ivs.def;
    let spa = ivs.spa;
    let spd = ivs.spd;
    let spe = ivs.spe;
    assert(hp & 1 <= 1 && atk & 1 <= 1 && def & 1 <= 1 && spa & 1 <= 1 && spd & 1 <= 1 && spe & 1
        <= 1) by (bit_vector);
}

/// The primitive fields every generation stores, and the values derived
/// from them. A generation-specific layout supplies the primitive
/// accessors; the derived methods are shared and never overridden.
pub trait Pkx: Reader {
    /// The seed stored in the record header.
    spec fn spec_encryption_constant(&self) -> u32;

    /// The stored species id.
    spec fn spec_species(&self) -> u16;

    /// The visible trainer id.
    spec fn spec_tid(&self) -> u16;

    /// The secret trainer id.
    spec fn spec_sid(&self) -> u16;

    /// The stored ability id.
    spec fn spec_ability(&self) -> u16;

    /// The stored ability-number id.
    spec fn spec_ability_number_id(&self) -> u8;

    /// The personality value.
    spec fn spec_pid(&self) -> u32;

    /// The stored nature id.
    spec fn spec_nature_id(&self) -> u8;

    /// The two stored gender bits.
    spec fn spec_gender_bits(&self) -> u8;

    /// The effort values, in stat order.
    spec fn spec_evs(&self) -> Stats;

    /// The four stored move ids.
    spec fn spec_move1(&self) -> u16;

    spec fn spec_move2(&self) -> u16;

    spec fn spec_move3(&self) -> u16;

    spec fn spec_move4(&self) -> u16;

    /// The packed individual-value word.
    spec fn spec_iv32(&self) -> u32;

    /// The handler friendship counter.
    spec fn spec_ht_friendship(&self) -> u32;

    /// The original-trainer friendship counter.
    spec fn spec_ot_friendship(&self) -> u32;

    /// The stored language id.
    spec fn spec_language_id(&self) -> u8;

    /// The effective nature: the stored nature unless the generation has an
    /// override field and it is set.
    spec fn spec_minted_nature(&self) -> Nature;

    fn encryption_constant(&self) -> (r: u32)
        ensures
            r == self.spec_encryption_constant(),
    ;

    fn species(&self) -> (r: u16)
        ensures
            r == self.spec_species(),
    ;

    fn tid(&self) -> (r: u16)
        ensures
            r == self.spec_tid(),
    ;

    fn sid(&self) -> (r: u16)
        ensures
            r == self.spec_sid(),
    ;

    fn ability(&self) -> (r: u16)
        ensures
            r == self.spec_ability(),
    ;

    fn ability_number(&self) -> (r: AbilityNumber)
        ensures
            r == crate::types::spec_ability_number_from_id(self.spec_ability_number_id()),
    ;

    fn pid(&self) -> (r: u32)
        ensures
            r == self.spec_pid(),
    ;

    fn nature(&self) -> (r: Nature)
        ensures
            r == crate::types::spec_nature_from_id(self.spec_nature_id()),
    ;

    fn minted_nature(&self) -> (r: Nature)
        ensures
            r == self.spec_minted_nature(),
    ;

    fn gender(&self) -> (r: Gender)
        ensures
            r == crate::types::spec_gender_from_bits(self.spec_gender_bits()),
    ;

    fn evs(&self) -> (r: Stats)
        ensures
            r == self.spec_evs(),
    ;

    fn move1(&self) -> (r: u16)
        ensures
            r == self.spec_move1(),
    ;

    fn move2(&self) -> (r: u16)
        ensures
            r == self.spec_move2(),
    ;

    fn move3(&self) -> (r: u16)
        ensures
            r == self.spec_move3(),
    ;

    fn move4(&self) -> (r: u16)
        ensures
            r == self.spec_move4(),
    ;

    fn iv32(&self) -> (r: u32)
        ensures
            r == self.spec_iv32(),
    ;

    fn ht_friendship(&self) -> (r: u32)
        ensures
            r == self.spec_ht_friendship(),
    ;

    fn ot_friendship(&self) -> (r: u32)
        ensures
            r == self.spec_ot_friendship(),
    ;

    fn language(&self) -> (r: Language)
        ensures
            r == crate::types::spec_language_from_id(self.spec_language_id()),
    ;

    /// The trainer shiny value, derived from the two trainer ids.
    fn tsv(&self) -> (r: u16)
        ensures
            r == spec_tsv(self.spec_tid(), self.spec_sid()),
    {
        tsv_value(self.tid(), self.sid())
    }

    /// The entity shiny value, derived from the personality value.
    fn psv(&self) -> (r: u16)
        ensures
            r == spec_psv(self.spec_pid()),
    {
        psv_value(self.pid())
    }

    /// Whether the entity is shiny: the two shiny values coincide.
    fn is_shiny(&self) -> (r: bool)
        ensures
            r == spec_shiny(self.spec_tid(), self.spec_sid(), self.spec_pid()),
    {
        self.tsv() == self.psv()
    }

    /// The six individual values, unpacked from the packed word.
    fn ivs(&self) -> (r: Stats)
        ensures
            r == spec_unpack_ivs(self.spec_iv32()),
    {
        unpack_ivs(self.iv32())
    }

    /// The hidden-power type, derived from the individual values.
    fn hidden_power(&self) -> (r: HiddenPower)
        ensures
            r == spec_hidden_power(spec_unpack_ivs(self.spec_iv32())),
    {
        let ivs = self.ivs();
        hidden_power_value(&ivs)
    }
}

} // verus!
