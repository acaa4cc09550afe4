//! The bounded value domains the decoder interprets itself: natures,
//! genders, ability slots, languages, hidden-power types, and the six-stat
//! block. Open-ended identifiers (species, moves, abilities) stay raw
//! integers; typing them is a concern of the layer above.

use vstd::prelude::*;

verus! {

/// An ordered block of six per-stat values, used both for individual
/// values (each in [0, 31]) and effort values.
#[derive(Clone, Copy, Debug, PartialEq, Eq, Structural)]
pub struct Stats {
    pub hp: u8,
    pub atk: u8,
    pub def: u8,
    pub spa: u8,
    pub spd: u8,
    pub spe: u8,
}

/// The 25 natures, in their stored order, plus a marker for ids outside it.
#[derive(Clone, Copy, Debug, PartialEq, Eq, Structural)]
pub enum Nature {
    Hardy,
    Lonely,
    Brave,
    Adamant,
    Naughty,
    Bold,
    Docile,
    Relaxed,
    Impish,
    Lax,
    Timid,
    Hasty,
    Serious,
    Jolly,
    Naive,
    Modest,
    Mild,
    Quiet,
    Bashful,
    Rash,
    Calm,
    Gentle,
    Sassy,
    Careful,
    Quirky,
    Invalid,
}

/// The nature a stored nature id denotes.
pub open spec fn spec_nature_from_id(id: u8) -> Nature {
    if id == 0 {
        Nature::Hardy
    } else if id == 1 {
        Nature::Lonely
    } else if id == 2 {
        Nature::Brave
    } else if id == 3 {
        Nature::Adamant
    } else if id == 4 {
        Nature::Naughty
    } else if id == 5 {
        Nature::Bold
    } else if id == 6 {
        Nature::Docile
    } else if id == 7 {
        Nature::Relaxed
    } else if id == 8 {
        Nature::Impish
    } else if id == 9 {
        Nature::Lax
    } else if id == 10 {
        Nature::Timid
    } else if id == 11 {
        Nature::Hasty
    } else if id == 12 {
        Nature::Serious
    } else if id == 13 {
        Nature::Jolly
    } else if id == 14 {
        Nature::Naive
    } else if id == 15 {
        Nature::Modest
    } else if id == 16 {
        Nature::Mild
    } else if id == 17 {
        Nature::Quiet
    } else if id == 18 {
        Nature::Bashful
    } else if id == 19 {
        Nature::Rash
    } else if id == 20 {
        Nature::Calm
    } else if id == 21 {
        Nature::Gentle
    } else if id == 22 {
        Nature::Sassy
    } else if id == 23 {
        Nature::Careful
    } else if id == 24 {
        Nature::Quirky
    } else {
        Nature::Invalid
    }
}

impl Nature {
    /// The nature a stored nature id denotes.
    pub fn from_id(id: u8) -> (r: Nature)
        ensures
            r == spec_nature_from_id(id),
    {
        match id {
            0 => Nature::Hardy,
            1 => Nature::Lonely,
            2 => Nature::Brave,
            3 => Nature::Adamant,
            4 => Nature::Naughty,
            5 => Nature::Bold,
            6 => Nature::Docile,
            7 => Nature::Relaxed,
            8 => Nature::Impish,
            9 => Nature::Lax,
            10 => Nature::Timid,
            11 => Nature::Hasty,
            12 => Nature::Serious,
            13 => Nature::Jolly,
            14 => Nature::Naive,
            15 => Nature::Modest,
            16 => Nature::Mild,
            17 => Nature::Quiet,
            18 => Nature::Bashful,
            19 => Nature::Rash,
            20 => Nature::Calm,
            21 => Nature::Gentle,
            22 => Nature::Sassy,
            23 => Nature::Careful,
            24 => Nature::Quirky,
            _ => Nature::Invalid,
        }
    }
}

/// The two-bit gender field of a record.
#[derive(Clone, Copy, Debug, PartialEq, Eq, Structural)]
pub enum Gender {
    Male,
    Female,
    Genderless,
    Invalid,
}

/// The gender the two stored gender bits denote.
pub open spec fn spec_gender_from_bits(bits: u8) -> Gender {
    if bits == 0 {
        Gender::Male
    } else if bits == 1 {
        Gender::Female
    } else if bits == 2 {
        Gender::Genderless
    } else {
        Gender::Invalid
    }
}

impl Gender {
    /// The gender the two stored gender bits denote.
    pub fn from_bits(bits: u8) -> (r: Gender)
        ensures
            r == spec_gender_from_bits(bits),
    {
        match bits {
            0 => Gender::Male,
            1 => Gender::Female,
            2 => Gender::Genderless,
            _ => Gender::Invalid,
        }
    }
}

/// The ability slot a record's ability was drawn from: the stored id is a
/// one-hot value (1, 2 or 4).
#[derive(Clone, Copy, Debug, PartialEq, Eq, Structural)]
pub enum AbilityNumber {
    First,
    Second,
    Hidden,
    Invalid,
}

/// The ability slot a stored ability-number id denotes.
pub open spec fn spec_ability_number_from_id(id: u8) -> AbilityNumber {
    if id == 1 {
        AbilityNumber::First
    } else if id == 2 {
        AbilityNumber::Second
    } else if id == 4 {
        AbilityNumber::Hidden
    } else {
        AbilityNumber::Invalid
    }
}

impl AbilityNumber {
    /// The ability slot a stored ability-number id denotes.
    pub fn from_id(id: u8) -> (r: AbilityNumber)
        ensures
            r == spec_ability_number_from_id(id),
    {
        match id {
            1 => AbilityNumber::First,
            2 => AbilityNumber::Second,
            4 => AbilityNumber::Hidden,
            _ => AbilityNumber::Invalid,
        }
    }
}

/// The languages a record can be tagged with, in their stored order.
#[derive(Clone, Copy, Debug, PartialEq, Eq, Structural)]
pub enum Language {
    Japanese,
    English,
    French,
    Italian,
    German,
    Spanish,
    Korean,
    ChineseSimplified,
    ChineseTraditional,
    Invalid,
}

/// The language a stored language id denotes.
pub open spec fn spec_language_from_id(id: u8) -> Language {
    if id == 1 {
        Language::Japanese
    } else if id == 2 {
        Language::English
    } else if id == 3 {
        Language::French
    } else if id == 4 {
        Language::Italian
    } else if id == 5 {
        Language::German
    } else if id == 7 {
        Language::Spanish
    } else if id == 8 {
        Language::Korean
    } else if id == 9 {
        Language::ChineseSimplified
    } else if id == 10 {
        Language::ChineseTraditional
    } else {
        Language::Invalid
    }
}

impl Language {
    /// The language a stored language id denotes.
    pub fn from_id(id: u8) -> (r: Language)
        ensures
            r == spec_language_from_id(id),
    {
        match id {
            1 => Language::Japanese,
            2 => Language::English,
            3 => Language::French,
            4 => Language::Italian,
            5 => Language::German,
            7 => Language::Spanish,
            8 => Language::Korean,
            9 => Language::ChineseSimplified,
            10 => Language::ChineseTraditional,
            _ => Language::Invalid,
        }
    }
}

/// The sixteen hidden-power damage types, in table order.
#[derive(Clone, Copy, Debug, PartialEq, Eq, Structural)]
pub enum HiddenPower {
    Fighting,
    Flying,
    Poison,
    Ground,
    Rock,
    Bug,
    GhostType,
    Steel,
    Fire,
    Water,
    Grass,
    Electric,
    Psychic,
    Ice,
    Dragon,
    Dark,
}

/// The hidden-power type at index `i` of the fixed sixteen-entry table.
/// Indices computed from individual values never exceed 15; the last entry
/// also stands for anything beyond the table.
pub open spec fn spec_hidden_power_from_index(i: int) -> HiddenPower {
    if i == 0 {
        HiddenPower::Fighting
    } else if i == 1 {
        HiddenPower::Flying
    } else if i == 2 {
        HiddenPower::Poison
    } else if i == 3 {
        HiddenPower::Ground
    } else if i == 4 {
        HiddenPower::Rock
    } else if i == 5 {
        HiddenPower::Bug
    } else if i == 6 {
        HiddenPower::GhostType
    } else if i == 7 {
        HiddenPower::Steel
    } else if i == 8 {
        HiddenPower::Fire
    } else if i == 9 {
        HiddenPower::Water
    } else if i == 10 {
        HiddenPower::Grass
    } else if i == 11 {
        HiddenPower::Electric
    } else if i == 12 {
        HiddenPower::Psychic
    } else if i == 13 {
        HiddenPower::Ice
    } else if i == 14 {
        HiddenPower::Dragon
    } else {
        HiddenPower::Dark
    }
}

} // verus!
