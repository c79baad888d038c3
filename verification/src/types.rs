//! Closed domain enumerations and their byte codes.
//!
//! Every enumeration maps to a small integer code used inside avatar DNA.
//! `IntoByte`/`FromByte` tie each variant to its code; decoding an unknown
//! code falls back to the first ("default") variant of the enumeration.

use vstd::prelude::*;

verus! {

/// A type with a fixed byte code per value.
pub trait IntoByte: Sized + Copy {
    /// The byte code of this value.
    spec fn spec_byte(self) -> u8;

    /// Returns the byte code of this value.
    fn into_byte(self) -> (r: u8)
        ensures
            r == self.spec_byte(),
    ;
}

/// A type whose values can be decoded from a byte code.
pub trait FromByte: Sized + Copy {
    /// The value a byte code decodes to; unknown codes decode to the
    /// first variant.
    spec fn spec_from_byte(b: u8) -> Self;

    /// Decodes a byte code.
    fn from_byte(b: u8) -> (r: Self)
        ensures
            r == Self::spec_from_byte(b),
    ;
}

/// Identifies one season's tuning record.
pub type SeasonId = u16;

/// The soul-point currency carried by every avatar.
pub type SoulCount = u32;

/// Identifies one avatar.
pub type AvatarId = u64;

/// The encoding version of an avatar's DNA.
#[derive(Clone, Copy, PartialEq, Eq, Structural, Debug)]
pub enum AvatarVersion {
    V1,
    V2,
}

/// The top-level archetype of an avatar, stored in the high nibble of
/// DNA byte 0.
#[derive(Clone, Copy, PartialEq, Eq, Structural, Debug)]
pub enum ItemType {
    Pet,
    Material,
    Essence,
    Equipable,
    Blueprint,
    Special,
}

impl IntoByte for ItemType {
    open spec fn spec_byte(self) -> u8 {
        match self {
            ItemType::Pet => 1,
            ItemType::Material => 2,
            ItemType::Essence => 3,
            ItemType::Equipable => 4,
            ItemType::Blueprint => 5,
            ItemType::Special => 6,
        }
    }

    fn into_byte(self) -> u8 {
        match self {
            ItemType::Pet => 1,
            ItemType::Material => 2,
            ItemType::Essence => 3,
            ItemType::Equipable => 4,
            ItemType::Blueprint => 5,
            ItemType::Special => 6,
        }
    }
}

impl FromByte for ItemType {
    open spec fn spec_from_byte(b: u8) -> Self {
        match b {
            2 => ItemType::Material,
            3 => ItemType::Essence,
            4 => ItemType::Equipable,
            5 => ItemType::Blueprint,
            6 => ItemType::Special,
            _ => ItemType::Pet,
        }
    }

    fn from_byte(b: u8) -> Self {
        match b {
            2 => ItemType::Material,
            3 => ItemType::Essence,
            4 => ItemType::Equipable,
            5 => ItemType::Blueprint,
            6 => ItemType::Special,
            _ => ItemType::Pet,
        }
    }
}

/// The subtype of a `Pet` avatar.
#[derive(Clone, Copy, PartialEq, Eq, Structural, Debug)]
pub enum PetItemType {
    Pet,
    PetPart,
    Egg,
}

impl IntoByte for PetItemType {
    open spec fn spec_byte(self) -> u8 {
        match self {
            PetItemType::Pet => 1,
            PetItemType::PetPart => 2,
            PetItemType::Egg => 3,
        }
    }

    fn into_byte(self) -> u8 {
        match self {
            PetItemType::Pet => 1,
            PetItemType::PetPart => 2,
            PetItemType::Egg => 3,
        }
    }
}

impl FromByte for PetItemType {
    open spec fn spec_from_byte(b: u8) -> Self {
        match b {
            2 => PetItemType::PetPart,
            3 => PetItemType::Egg,
            _ => PetItemType::Pet,
        }
    }

    fn from_byte(b: u8) -> Self {
        match b {
            2 => PetItemType::PetPart,
            3 => PetItemType::Egg,
            _ => PetItemType::Pet,
        }
    }
}

/// The subtype of an `Equipable` avatar: four armor pieces and three
/// weapon versions.
#[derive(Clone, Copy, PartialEq, Eq, Structural, Debug)]
pub enum EquipableItemType {
    ArmorBase,
    ArmorComponent1,
    ArmorComponent2,
    ArmorComponent3,
    WeaponVersion1,
    WeaponVersion2,
    WeaponVersion3,
}

impl IntoByte for EquipableItemType {
    open spec fn spec_byte(self) -> u8 {
        match self {
            EquipableItemType::ArmorBase => 1,
            EquipableItemType::ArmorComponent1 => 2,
            EquipableItemType::ArmorComponent2 => 3,
            EquipableItemType::ArmorComponent3 => 4,
            EquipableItemType::WeaponVersion1 => 5,
            EquipableItemType::WeaponVersion2 => 6,
            EquipableItemType::WeaponVersion3 => 7,
        }
    }

    fn into_byte(self) -> u8 {
        match self {
            EquipableItemType::ArmorBase => 1,
            EquipableItemType::ArmorComponent1 => 2,
            EquipableItemType::ArmorComponent2 => 3,
            EquipableItemType::ArmorComponent3 => 4,
            EquipableItemType::WeaponVersion1 => 5,
            EquipableItemType::WeaponVersion2 => 6,
            EquipableItemType::WeaponVersion3 => 7,
        }
    }
}

impl FromByte for EquipableItemType {
    open spec fn spec_from_byte(b: u8) -> Self {
        match b {
            2 => EquipableItemType::ArmorComponent1,
            3 => EquipableItemType::ArmorComponent2,
            4 => EquipableItemType::ArmorComponent3,
            5 => EquipableItemType::WeaponVersion1,
            6 => EquipableItemType::WeaponVersion2,
            7 => EquipableItemType::WeaponVersion3,
            _ => EquipableItemType::ArmorBase,
        }
    }

    fn from_byte(b: u8) -> Self {
        match b {
            2 => EquipableItemType::ArmorComponent1,
            3 => EquipableItemType::ArmorComponent2,
            4 => EquipableItemType::ArmorComponent3,
            5 => EquipableItemType::WeaponVersion1,
            6 => EquipableItemType::WeaponVersion2,
            7 => EquipableItemType::WeaponVersion3,
            _ => EquipableItemType::ArmorBase,
        }
    }
}

/// Whether an equipable subtype is one of the four armor pieces.
pub open spec fn spec_is_armor(item: EquipableItemType) -> bool {
    item == EquipableItemType::ArmorBase || item == EquipableItemType::ArmorComponent1
        || item == EquipableItemType::ArmorComponent2
        || item == EquipableItemType::ArmorComponent3
}

/// Whether an equipable subtype is one of the three weapon versions.
pub open spec fn spec_is_weapon(item: EquipableItemType) -> bool {
    item == EquipableItemType::WeaponVersion1 || item == EquipableItemType::WeaponVersion2
        || item == EquipableItemType::WeaponVersion3
}

impl EquipableItemType {
    /// Tests whether `item` is an armor piece.
    pub fn is_armor(item: EquipableItemType) -> (r: bool)
        ensures
            r == spec_is_armor(item),
    {
        item == EquipableItemType::ArmorBase || item == EquipableItemType::ArmorComponent1
            || item == EquipableItemType::ArmorComponent2
            || item == EquipableItemType::ArmorComponent3
    }

    /// Tests whether `item` is a weapon.
    pub fn is_weapon(item: EquipableItemType) -> (r: bool)
        ensures
            r == spec_is_weapon(item),
    {
        item == EquipableItemType::WeaponVersion1 || item == EquipableItemType::WeaponVersion2
            || item == EquipableItemType::WeaponVersion3
    }
}

/// The pet class of a pet or a piece of equipment.
#[derive(Clone, Copy, PartialEq, Eq, Structural, Debug)]
pub enum PetType {
    TankyBulldog,
    FoxishDude,
    WierdFerry,
    FireDino,
    BigHybrid,
    GiantWoodStick,
    CrazyDude,
}

impl IntoByte for PetType {
    open spec fn spec_byte(self) -> u8 {
        match self {
            PetType::TankyBulldog => 1,
            PetType::FoxishDude => 2,
            PetType::WierdFerry => 3,
            PetType::FireDino => 4,
            PetType::BigHybrid => 5,
            PetType::GiantWoodStick => 6,
            PetType::CrazyDude => 7,
        }
    }

    fn into_byte(self) -> u8 {
        match self {
            PetType::TankyBulldog => 1,
            PetType::FoxishDude => 2,
            PetType::WierdFerry => 3,
            PetType::FireDino => 4,
            PetType::BigHybrid => 5,
            PetType::GiantWoodStick => 6,
            PetType::CrazyDude => 7,
        }
    }
}

impl FromByte for PetType {
    open spec fn spec_from_byte(b: u8) -> Self {
        match b {
            2 => PetType::FoxishDude,
            3 => PetType::WierdFerry,
            4 => PetType::FireDino,
            5 => PetType::BigHybrid,
            6 => PetType::GiantWoodStick,
            7 => PetType::CrazyDude,
            _ => PetType::TankyBulldog,
        }
    }

    fn from_byte(b: u8) -> Self {
        match b {
            2 => PetType::FoxishDude,
            3 => PetType::WierdFerry,
            4 => PetType::FireDino,
            5 => PetType::BigHybrid,
            6 => PetType::GiantWoodStick,
            7 => PetType::CrazyDude,
            _ => PetType::TankyBulldog,
        }
    }
}

/// The body slot a piece of equipment occupies.  Slot codes 1 through 6
/// are armor, 8 and 9 are weapons; code 7 is unassigned.
#[derive(Clone, Copy, PartialEq, Eq, Structural, Debug)]
pub enum SlotType {
    Head,
    Breast,
    ArmFront,
    ArmBack,
    LegFront,
    LegBack,
    WeaponFront,
    WeaponBack,
}

impl IntoByte for SlotType {
    open spec fn spec_byte(self) -> u8 {
        match self {
            SlotType::Head => 1,
            SlotType::Breast => 2,
            SlotType::ArmFront => 3,
            SlotType::ArmBack => 4,
            SlotType::LegFront => 5,
            SlotType::LegBack => 6,
            SlotType::WeaponFront => 8,
            SlotType::WeaponBack => 9,
        }
    }

    fn into_byte(self) -> u8 {
        match self {
            SlotType::Head => 1,
            SlotType::Breast => 2,
            SlotType::ArmFront => 3,
            SlotType::ArmBack => 4,
            SlotType::LegFront => 5,
            SlotType::LegBack => 6,
            SlotType::WeaponFront => 8,
            SlotType::WeaponBack => 9,
        }
    }
}

impl FromByte for SlotType {
    open spec fn spec_from_byte(b: u8) -> Self {
        match b {
            2 => SlotType::Breast,
            3 => SlotType::ArmFront,
            4 => SlotType::ArmBack,
            5 => SlotType::LegFront,
            6 => SlotType::LegBack,
            8 => SlotType::WeaponFront,
            9 => SlotType::WeaponBack,
            _ => SlotType::Head,
        }
    }

    fn from_byte(b: u8) -> Self {
        match b {
            2 => SlotType::Breast,
            3 => SlotType::ArmFront,
            4 => SlotType::ArmBack,
            5 => SlotType::LegFront,
            6 => SlotType::LegBack,
            8 => SlotType::WeaponFront,
            9 => SlotType::WeaponBack,
            _ => SlotType::Head,
        }
    }
}

/// The subtype of a `Material` avatar.
#[derive(Clone, Copy, PartialEq, Eq, Structural, Debug)]
pub enum MaterialItemType {
    Polymers,
    Electronics,
    PowerCells,
    Optics,
    Metals,
    Ceramics,
    Superconductors,
    Nanomaterials,
}

impl IntoByte for MaterialItemType {
    open spec fn spec_byte(self) -> u8 {
        match self {
            MaterialItemType::Polymers => 1,
            MaterialItemType::Electronics => 2,
            MaterialItemType::PowerCells => 3,
            MaterialItemType::Optics => 4,
            MaterialItemType::Metals => 5,
            MaterialItemType::Ceramics => 6,
            MaterialItemType::Superconductors => 7,
            MaterialItemType::Nanomaterials => 8,
        }
    }

    fn into_byte(self) -> u8 {
        match self {
            MaterialItemType::Polymers => 1,
            MaterialItemType::Electronics => 2,
            MaterialItemType::PowerCells => 3,
            MaterialItemType::Optics => 4,
            MaterialItemType::Metals => 5,
            MaterialItemType::Ceramics => 6,
            MaterialItemType::Superconductors => 7,
            MaterialItemType::Nanomaterials => 8,
        }
    }
}

impl FromByte for MaterialItemType {
    open spec fn spec_from_byte(b: u8) -> Self {
        match b {
            2 => MaterialItemType::Electronics,
            3 => MaterialItemType::PowerCells,
            4 => MaterialItemType::Optics,
            5 => MaterialItemType::Metals,
            6 => MaterialItemType::Ceramics,
            7 => MaterialItemType::Superconductors,
            8 => MaterialItemType::Nanomaterials,
            _ => MaterialItemType::Polymers,
        }
    }

    fn from_byte(b: u8) -> Self {
        match b {
            2 => MaterialItemType::Electronics,
            3 => MaterialItemType::PowerCells,
            4 => MaterialItemType::Optics,
            5 => MaterialItemType::Metals,
            6 => MaterialItemType::Ceramics,
            7 => MaterialItemType::Superconductors,
            8 => MaterialItemType::Nanomaterials,
            _ => MaterialItemType::Polymers,
        }
    }
}

/// The subtype of an `Essence` avatar.
#[derive(Clone, Copy, PartialEq, Eq, Structural, Debug)]
pub enum EssenceItemType {
    Glimmer,
    ColorSpark,
    GlowSpark,
}

impl IntoByte for EssenceItemType {
    open spec fn spec_byte(self) -> u8 {
        match self {
            EssenceItemType::Glimmer => 1,
            EssenceItemType::ColorSpark => 2,
            EssenceItemType::GlowSpark => 3,
        }
    }

    fn into_byte(self) -> u8 {
        match self {
            EssenceItemType::Glimmer => 1,
            EssenceItemType::ColorSpark => 2,
            EssenceItemType::GlowSpark => 3,
        }
    }
}

impl FromByte for EssenceItemType {
    open spec fn spec_from_byte(b: u8) -> Self {
        match b {
            2 => EssenceItemType::ColorSpark,
            3 => EssenceItemType::GlowSpark,
            _ => EssenceItemType::Glimmer,
        }
    }

    fn from_byte(b: u8) -> Self {
        match b {
            2 => EssenceItemType::ColorSpark,
            3 => EssenceItemType::GlowSpark,
            _ => EssenceItemType::Glimmer,
        }
    }
}

/// The subtype of a `Blueprint` avatar.
#[derive(Clone, Copy, PartialEq, Eq, Structural, Debug)]
pub enum BlueprintItemType {
    Blueprint,
}

impl IntoByte for BlueprintItemType {
    open spec fn spec_byte(self) -> u8 {
        1
    }

    fn into_byte(self) -> u8 {
        1
    }
}

impl FromByte for BlueprintItemType {
    open spec fn spec_from_byte(b: u8) -> Self {
        BlueprintItemType::Blueprint
    }

    fn from_byte(b: u8) -> Self {
        BlueprintItemType::Blueprint
    }
}

/// The subtype of a `Special` avatar.
#[derive(Clone, Copy, PartialEq, Eq, Structural, Debug)]
pub enum SpecialItemType {
    Special,
}

impl IntoByte for SpecialItemType {
    open spec fn spec_byte(self) -> u8 {
        1
    }

    fn into_byte(self) -> u8 {
        1
    }
}

impl FromByte for SpecialItemType {
    open spec fn spec_from_byte(b: u8) -> Self {
        SpecialItemType::Special
    }

    fn from_byte(b: u8) -> Self {
        SpecialItemType::Special
    }
}

/// The rarity tier of an avatar: a strict total order from `Common`
/// (code 1) to `Mythical` (code 6).
#[derive(Clone, Copy, PartialEq, Eq, Structural, Debug)]
pub enum RarityType {
    Common,
    Uncommon,
    Rare,
    Epic,
    Legendary,
    Mythical,
}

impl IntoByte for RarityType {
    open spec fn spec_byte(self) -> u8 {
        match self {
            RarityType::Common => 1,
            RarityType::Uncommon => 2,
            RarityType::Rare => 3,
            RarityType::Epic => 4,
            RarityType::Legendary => 5,
            RarityType::Mythical => 6,
        }
    }

    fn into_byte(self) -> u8 {
        match self {
            RarityType::Common => 1,
            RarityType::Uncommon => 2,
            RarityType::Rare => 3,
            RarityType::Epic => 4,
            RarityType::Legendary => 5,
            RarityType::Mythical => 6,
        }
    }
}

impl FromByte for RarityType {
    open spec fn spec_from_byte(b: u8) -> Self {
        match b {
            2 => RarityType::Uncommon,
            3 => RarityType::Rare,
            4 => RarityType::Epic,
            5 => RarityType::Legendary,
            6 => RarityType::Mythical,
            _ => RarityType::Common,
        }
    }

    fn from_byte(b: u8) -> Self {
        match b {
            2 => RarityType::Uncommon,
            3 => RarityType::Rare,
            4 => RarityType::Epic,
            5 => RarityType::Legendary,
            6 => RarityType::Mythical,
            _ => RarityType::Common,
        }
    }
}

/// A bare hexadecimal nibble value, used for the custom type fields of
/// the DNA (the stackability-ratio marker among them).
#[derive(Clone, Copy, PartialEq, Eq, Structural, Debug)]
pub enum HexType {
    X0,
    X1,
    X2,
    X3,
    X4,
    X5,
    X6,
    X7,
    X8,
    X9,
    XA,
    XB,
    XC,
    XD,
    XE,
    XF,
}

impl IntoByte for HexType {
    open spec fn spec_byte(self) -> u8 {
        match self {
            HexType::X0 => 0,
            HexType::X1 => 1,
            HexType::X2 => 2,
            HexType::X3 => 3,
            HexType::X4 => 4,
            HexType::X5 => 5,
            HexType::X6 => 6,
            HexType::X7 => 7,
            HexType::X8 => 8,
            HexType::X9 => 9,
            HexType::XA => 10,
            HexType::XB => 11,
            HexType::XC => 12,
            HexType::XD => 13,
            HexType::XE => 14,
            HexType::XF => 15,
        }
    }

    fn into_byte(self) -> u8 {
        match self {
            HexType::X0 => 0,
            HexType::X1 => 1,
            HexType::X2 => 2,
            HexType::X3 => 3,
            HexType::X4 => 4,
            HexType::X5 => 5,
            HexType::X6 => 6,
            HexType::X7 => 7,
            HexType::X8 => 8,
            HexType::X9 => 9,
            HexType::XA => 10,
            HexType::XB => 11,
            HexType::XC => 12,
            HexType::XD => 13,
            HexType::XE => 14,
            HexType::XF => 15,
        }
    }
}

/// The combination algorithm the classifier picks for a leader and its
/// sacrifices.
#[derive(Clone, Copy, PartialEq, Eq, Structural, Debug)]
pub enum ForgeType {
    Invalid,
    Stack,
    Tinker,
    Build,
    Assemble,
    Breed,
    Equip,
    Mate,
    Special,
}

/// The mint-pack tier selecting which probability tables govern a mint
/// roll.
#[derive(Clone, Copy, PartialEq, Eq, Structural, Debug)]
pub enum PackType {
    Material,
    Equipment,
    Special,
}

/// The options of one mint call.
#[derive(Clone, Copy, PartialEq, Eq, Structural, Debug)]
pub struct MintOption {
    /// How many avatars to mint.
    pub count: u8,
    /// The pack tier governing the probability tables.
    pub mint_pack: PackType,
    /// The DNA encoding version stamped on the minted avatars.
    pub mint_version: AvatarVersion,
}

/// The errors an engine operation can return.  No engine operation
/// panics: every failure crosses the boundary as one of these values.
#[derive(Clone, Copy, PartialEq, Eq, Structural, Debug)]
pub enum AvatarError {
    /// A freshly generated byte buffer could not be sized into the
    /// fixed-length DNA container.
    IncorrectDna,
    /// A sacrifice's DNA encoding version differs from the leader's.
    IncompatibleAvatarVersions,
    /// The classifier found no combination algorithm for the inputs.
    InvalidForgeComponents,
    /// A combination reached a state the algorithms leave undefined.
    UnsupportedForgeOutcome,
}

/// External season tuning parameters, read-only to the engine.
#[derive(Clone, Debug)]
pub struct Season {
    /// Number of DNA components rolled by the legacy minter.
    pub max_components: u32,
    /// The rarity tiers open in this season.
    pub tiers: Vec<RarityType>,
    /// Per-tier probabilities for single mints.
    pub single_mint_probs: Vec<u32>,
    /// Per-tier probabilities for batch mints.
    pub batch_mint_probs: Vec<u32>,
    /// Number of variations rolled by the legacy minter.
    pub max_variations: u32,
}

} // verus!
