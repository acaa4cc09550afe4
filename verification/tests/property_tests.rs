//! Concrete checks of the decoder's stated properties: the encrypt/decrypt
//! round trip, determinism, the shiny derivation, individual-value
//! unpacking, hidden-power totality, and the defaulted reads.

use pkm::pkx::hidden_power_value;
use pkm::pkx::psv_value;
use pkm::pkx::tsv_value;
use pkm::pkx::unpack_ivs;
use pkm::poke_crypto::advance_state;
use pkm::poke_crypto::block_source;
use pkm::poke_crypto::decrypt;
use pkm::poke_crypto::encrypt;
use pkm::poke_crypto::inverse_shift_of;
use pkm::poke_crypto::shift_of;
use pkm::reader::read_u16_at;
use pkm::reader::read_u32_at;
use pkm::reader::read_u8_at;
use pkm::types::AbilityNumber;
use pkm::types::Gender;
use pkm::types::HiddenPower;
use pkm::types::Language;
use pkm::types::Nature;
use pkm::types::Stats;

fn patterned_record(salt: u8) -> Vec<u8> {
    let mut v = Vec::new();
    let mut i: u32 = 0;
    while i < 232 {
        v.push((i as u8).wrapping_mul(31).wrapping_add(salt));
        i += 1;
    }
    v
}

#[test]
fn round_trip_restores_plaintext() {
    // Seeds that hit different shift values, including ones whose masked
    // five-bit value is reduced modulo 24.
    let seeds = [
        0x0000_0000u32,
        0x0286_5c80,
        0xFFFF_FFFF,
        0x1234_5678,
        (23u32) << 13,
        (24u32) << 13,
        (31u32) << 13,
    ];
    let mut salt: u8 = 0;
    for seed in seeds {
        let plain = patterned_record(salt);
        let stored = encrypt(&plain, seed);
        let again = decrypt(&stored, seed);
        assert_eq!(again, plain);
        salt = salt.wrapping_add(77);
    }
}

#[test]
fn decrypt_is_deterministic() {
    let raw = patterned_record(9);
    let first = decrypt(&raw, 0x0286_5c80);
    let second = decrypt(&raw, 0x0286_5c80);
    assert_eq!(first, second);
}

#[test]
fn keystream_advances_by_the_fixed_recurrence() {
    // 0x02865c80 * 0x41C64E6D + 0x6073, modulo 2^32.
    assert_eq!(advance_state(0x0286_5c80), 0x0E64_C2F3);
    assert_eq!(advance_state(0), 0x6073);
}

#[test]
fn shift_and_block_tables_agree() {
    // Seed 0x02865c80 has shift value 18, whose block order is 1, 2, 3, 0.
    let sv = shift_of(0x0286_5c80);
    assert_eq!(sv, 18);
    assert_eq!(block_source(sv, 0), 1);
    assert_eq!(block_source(sv, 1), 2);
    assert_eq!(block_source(sv, 2), 3);
    assert_eq!(block_source(sv, 3), 0);
    // The inverse order really inverts it.
    let inv = inverse_shift_of(sv);
    for b in 0..4 {
        assert_eq!(block_source(inv, block_source(sv, b)), b);
    }
}

#[test]
fn shiny_values_follow_their_formulas() {
    assert_eq!(tsv_value(0xFFFF, 0), 0x0FFF);
    assert_eq!(tsv_value(63062, 51266), 993);
    assert_eq!(psv_value(0x1234_5678), 0x0444);
    assert_eq!(psv_value(0x3137_0F23), 993);
}

#[test]
fn shiny_ignores_low_bits() {
    let (tid, sid, pid) = (63062u16, 51266u16, 0x3137_0F23u32);
    let shiny = tsv_value(tid, sid) == psv_value(pid);
    for flip in 0..16u16 {
        assert_eq!(tsv_value(tid ^ flip, sid) == psv_value(pid), shiny);
        assert_eq!(tsv_value(tid, sid ^ flip) == psv_value(pid), shiny);
        let pid_flip = ((flip as u32) << 16) | (flip as u32) >> 1;
        assert_eq!(tsv_value(tid, sid) == psv_value(pid ^ pid_flip), shiny);
    }
}

#[test]
fn unpacked_ivs_stay_in_range() {
    let words = [0u32, 0xFFFF_FFFF, 0xBFFF_FFFF, 0x1234_5678, 0x8421_8421];
    for word in words {
        let ivs = unpack_ivs(word);
        for v in [ivs.hp, ivs.atk, ivs.def, ivs.spa, ivs.spd, ivs.spe] {
            assert!(v <= 31);
        }
    }
    let full = unpack_ivs(0xBFFF_FFFF);
    let all31 = Stats { hp: 31, atk: 31, def: 31, spa: 31, spd: 31, spe: 31 };
    assert_eq!(full, all31);
    // Fields are taken low bit first, five bits each, in stat order.
    let spread = unpack_ivs((3) | (7 << 5) | (31 << 10) | (1 << 15) | (14 << 20) | (21 << 25));
    let expected = Stats { hp: 3, atk: 7, def: 31, spa: 1, spd: 14, spe: 21 };
    assert_eq!(spread, expected);
}

#[test]
fn hidden_power_is_total_over_low_bits() {
    // Every combination of the six low bits yields a table entry; spot-check
    // the two ends and a middle value of the weighted sum.
    let zero = Stats { hp: 0, atk: 0, def: 0, spa: 0, spd: 0, spe: 0 };
    assert_eq!(hidden_power_value(&zero), HiddenPower::Fighting);
    let odd = Stats { hp: 1, atk: 1, def: 1, spa: 1, spd: 1, spe: 1 };
    assert_eq!(hidden_power_value(&odd), HiddenPower::Dark);
    // Only the spd low bit set: the weighted sum is 32, index 7.
    let spd_only = Stats { hp: 0, atk: 0, def: 0, spa: 0, spd: 1, spe: 0 };
    assert_eq!(hidden_power_value(&spd_only), HiddenPower::Steel);
    // Even stats have the same low bits as zero.
    let evens = Stats { hp: 30, atk: 2, def: 28, spa: 4, spd: 26, spe: 6 };
    assert_eq!(hidden_power_value(&evens), HiddenPower::Fighting);
}

#[test]
fn id_conversions_reject_unknown_values() {
    assert_eq!(Nature::from_id(24), Nature::Quirky);
    assert_eq!(Nature::from_id(25), Nature::Invalid);
    assert_eq!(Nature::from_id(255), Nature::Invalid);
    assert_eq!(Gender::from_bits(3), Gender::Invalid);
    assert_eq!(AbilityNumber::from_id(0), AbilityNumber::Invalid);
    assert_eq!(AbilityNumber::from_id(3), AbilityNumber::Invalid);
    assert_eq!(Language::from_id(0), Language::Invalid);
    assert_eq!(Language::from_id(6), Language::Invalid);
    assert_eq!(Language::from_id(11), Language::Invalid);
}

#[test]
fn defaulted_reads_yield_zero_past_the_end() {
    let bytes = [0x11u8, 0x22, 0x33, 0x44, 0x55];
    let s = &bytes[..];
    assert_eq!(read_u8_at(s, 4), 0x55);
    assert_eq!(read_u8_at(s, 5), 0);
    assert_eq!(read_u16_at(s, 0), 0x2211);
    assert_eq!(read_u16_at(s, 4), 0);
    assert_eq!(read_u32_at(s, 0), 0x4433_2211);
    assert_eq!(read_u32_at(s, 2), 0);
}
