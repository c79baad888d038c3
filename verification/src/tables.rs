//! The probability tables of the minter: ordered (value, weight) slot
//! lists whose weights are per-mille values summing to 1000.
//!
//! Each item-type and subtype roll has one table per pack tier
//! (material, equipment, special); the auxiliary tables govern equipment
//! slots and pet classes.

use vstd::prelude::*;

use crate::types::BlueprintItemType;
use crate::types::EquipableItemType;
use crate::types::EssenceItemType;
use crate::types::ItemType;
use crate::types::MaterialItemType;
use crate::types::PackType;
use crate::types::PetItemType;
use crate::types::PetType;
use crate::types::SlotType;
use crate::types::SpecialItemType;

verus! {

/// The item-type table of a pack tier.
pub open spec fn spec_item_probabilities(pack: PackType) -> Seq<(ItemType, u32)> {
    match pack {
        PackType::Material => seq![
            (ItemType::Pet, 150u32),
            (ItemType::Material, 700u32),
            (ItemType::Essence, 50u32),
            (ItemType::Equipable, 100u32),
            (ItemType::Blueprint, 0u32),
            (ItemType::Special, 0u32),
        ],
        PackType::Equipment => seq![
            (ItemType::Pet, 90u32),
            (ItemType::Material, 200u32),
            (ItemType::Essence, 10u32),
            (ItemType::Equipable, 700u32),
            (ItemType::Blueprint, 0u32),
            (ItemType::Special, 0u32),
        ],
        PackType::Special => seq![
            (ItemType::Pet, 100u32),
            (ItemType::Material, 150u32),
            (ItemType::Essence, 50u32),
            (ItemType::Equipable, 700u32),
            (ItemType::Blueprint, 0u32),
            (ItemType::Special, 0u32),
        ],
    }
}

/// Builds the item-type table of a pack tier.
pub fn item_probabilities(pack: PackType) -> (r: Vec<(ItemType, u32)>)
    ensures
        r@ == spec_item_probabilities(pack),
{
    let r: Vec<(ItemType, u32)> = match pack {
        PackType::Material => vec![
            (ItemType::Pet, 150u32),
            (ItemType::Material, 700u32),
            (ItemType::Essence, 50u32),
            (ItemType::Equipable, 100u32),
            (ItemType::Blueprint, 0u32),
            (ItemType::Special, 0u32),
        ],
        PackType::Equipment => vec![
            (ItemType::Pet, 90u32),
            (ItemType::Material, 200u32),
            (ItemType::Essence, 10u32),
            (ItemType::Equipable, 700u32),
            (ItemType::Blueprint, 0u32),
            (ItemType::Special, 0u32),
        ],
        PackType::Special => vec![
            (ItemType::Pet, 100u32),
            (ItemType::Material, 150u32),
            (ItemType::Essence, 50u32),
            (ItemType::Equipable, 700u32),
            (ItemType::Blueprint, 0u32),
            (ItemType::Special, 0u32),
        ],
    };
    proof {
        assert(r@ =~= spec_item_probabilities(pack));
    }
    r
}

/// The pet-subtype table of a pack tier.
pub open spec fn spec_pet_item_probabilities(pack: PackType) -> Seq<(PetItemType, u32)> {
    match pack {
        PackType::Material => seq![
            (PetItemType::Pet, 0u32),
            (PetItemType::PetPart, 980u32),
            (PetItemType::Egg, 20u32),
        ],
        PackType::Equipment => seq![
            (PetItemType::Pet, 0u32),
            (PetItemType::PetPart, 800u32),
            (PetItemType::Egg, 200u32),
        ],
        PackType::Special => seq![
            (PetItemType::Pet, 0u32),
            (PetItemType::PetPart, 0u32),
            (PetItemType::Egg, 1000u32),
        ],
    }
}

/// Builds the pet-subtype table of a pack tier.
pub fn pet_item_probabilities(pack: PackType) -> (r: Vec<(PetItemType, u32)>)
    ensures
        r@ == spec_pet_item_probabilities(pack),
{
    let r: Vec<(PetItemType, u32)> = match pack {
        PackType::Material => vec![
            (PetItemType::Pet, 0u32),
            (PetItemType::PetPart, 980u32),
            (PetItemType::Egg, 20u32),
        ],
        PackType::Equipment => vec![
            (PetItemType::Pet, 0u32),
            (PetItemType::PetPart, 800u32),
            (PetItemType::Egg, 200u32),
        ],
        PackType::Special => vec![
            (PetItemType::Pet, 0u32),
            (PetItemType::PetPart, 0u32),
            (PetItemType::Egg, 1000u32),
        ],
    };
    proof {
        assert(r@ =~= spec_pet_item_probabilities(pack));
    }
    r
}

/// The material-subtype table: uniform over the eight materials in every
/// pack tier.
pub open spec fn spec_material_item_probabilities(pack: PackType) -> Seq<(MaterialItemType, u32)> {
    seq![
        (MaterialItemType::Polymers, 125u32),
        (MaterialItemType::Electronics, 125u32),
        (MaterialItemType::PowerCells, 125u32),
        (MaterialItemType::Optics, 125u32),
        (MaterialItemType::Metals, 125u32),
        (MaterialItemType::Ceramics, 125u32),
        (MaterialItemType::Superconductors, 125u32),
        (MaterialItemType::Nanomaterials, 125u32),
    ]
}

/// Builds the material-subtype table of a pack tier.
pub fn material_item_probabilities(pack: PackType) -> (r: Vec<(MaterialItemType, u32)>)
    ensures
        r@ == spec_material_item_probabilities(pack),
{
    let r: Vec<(MaterialItemType, u32)> = vec![
        (MaterialItemType::Polymers, 125u32),
        (MaterialItemType::Electronics, 125u32),
        (MaterialItemType::PowerCells, 125u32),
        (MaterialItemType::Optics, 125u32),
        (MaterialItemType::Metals, 125u32),
        (MaterialItemType::Ceramics, 125u32),
        (MaterialItemType::Superconductors, 125u32),
        (MaterialItemType::Nanomaterials, 125u32),
    ];
    proof {
        assert(r@ =~= spec_material_item_probabilities(pack));
    }
    r
}

/// The essence-subtype table: the same in every pack tier.
pub open spec fn spec_essence_item_probabilities(pack: PackType) -> Seq<(EssenceItemType, u32)> {
    seq![
        (EssenceItemType::Glimmer, 400u32),
        (EssenceItemType::ColorSpark, 350u32),
        (EssenceItemType::GlowSpark, 250u32),
    ]
}

/// Builds the essence-subtype table of a pack tier.
pub fn essence_item_probabilities(pack: PackType) -> (r: Vec<(EssenceItemType, u32)>)
    ensures
        r@ == spec_essence_item_probabilities(pack),
{
    let r: Vec<(EssenceItemType, u32)> = vec![
        (EssenceItemType::Glimmer, 400u32),
        (EssenceItemType::ColorSpark, 350u32),
        (EssenceItemType::GlowSpark, 250u32),
    ];
    proof {
        assert(r@ =~= spec_essence_item_probabilities(pack));
    }
    r
}

/// The equipable-subtype table of a pack tier.
pub open spec fn spec_equipable_item_probabilities(pack: PackType) -> Seq<
    (EquipableItemType, u32),
> {
    match pack {
        PackType::Special => seq![
            (EquipableItemType::ArmorBase, 250u32),
            (EquipableItemType::ArmorComponent1, 200u32),
            (EquipableItemType::ArmorComponent2, 200u32),
            (EquipableItemType::ArmorComponent3, 200u32),
            (EquipableItemType::WeaponVersion1, 50u32),
            (EquipableItemType::WeaponVersion2, 50u32),
            (EquipableItemType::WeaponVersion3, 50u32),
        ],
        _ => seq![
            (EquipableItemType::ArmorBase, 820u32),
            (EquipableItemType::ArmorComponent1, 50u32),
            (EquipableItemType::ArmorComponent2, 50u32),
            (EquipableItemType::ArmorComponent3, 50u32),
            (EquipableItemType::WeaponVersion1, 10u32),
            (EquipableItemType::WeaponVersion2, 10u32),
            (EquipableItemType::WeaponVersion3, 10u32),
        ],
    }
}

/// Builds the equipable-subtype table of a pack tier.
pub fn equipable_item_probabilities(pack: PackType) -> (r: Vec<(EquipableItemType, u32)>)
    ensures
        r@ == spec_equipable_item_probabilities(pack),
{
    let r: Vec<(EquipableItemType, u32)> = match pack {
        PackType::Special => vec![
            (EquipableItemType::ArmorBase, 250u32),
            (EquipableItemType::ArmorComponent1, 200u32),
            (EquipableItemType::ArmorComponent2, 200u32),
            (EquipableItemType::ArmorComponent3, 200u32),
            (EquipableItemType::WeaponVersion1, 50u32),
            (EquipableItemType::WeaponVersion2, 50u32),
            (EquipableItemType::WeaponVersion3, 50u32),
        ],
        _ => vec![
            (EquipableItemType::ArmorBase, 820u32),
            (EquipableItemType::ArmorComponent1, 50u32),
            (EquipableItemType::ArmorComponent2, 50u32),
            (EquipableItemType::ArmorComponent3, 50u32),
            (EquipableItemType::WeaponVersion1, 10u32),
            (EquipableItemType::WeaponVersion2, 10u32),
            (EquipableItemType::WeaponVersion3, 10u32),
        ],
    };
    proof {
        assert(r@ =~= spec_equipable_item_probabilities(pack));
    }
    r
}

/// The blueprint-subtype table: a single certain slot.
pub open spec fn spec_blueprint_item_probabilities(pack: PackType) -> Seq<
    (BlueprintItemType, u32),
> {
    seq![(BlueprintItemType::Blueprint, 1000u32)]
}

/// Builds the blueprint-subtype table of a pack tier.
pub fn blueprint_item_probabilities(pack: PackType) -> (r: Vec<(BlueprintItemType, u32)>)
    ensures
        r@ == spec_blueprint_item_probabilities(pack),
{
    let r: Vec<(BlueprintItemType, u32)> = vec![(BlueprintItemType::Blueprint, 1000u32)];
    proof {
        assert(r@ =~= spec_blueprint_item_probabilities(pack));
    }
    r
}

/// The special-subtype table: a single certain slot.
pub open spec fn spec_special_item_probabilities(pack: PackType) -> Seq<(SpecialItemType, u32)> {
    seq![(SpecialItemType::Special, 1000u32)]
}

/// Builds the special-subtype table of a pack tier.
pub fn special_item_probabilities(pack: PackType) -> (r: Vec<(SpecialItemType, u32)>)
    ensures
        r@ == spec_special_item_probabilities(pack),
{
    let r: Vec<(SpecialItemType, u32)> = vec![(SpecialItemType::Special, 1000u32)];
    proof {
        assert(r@ =~= spec_special_item_probabilities(pack));
    }
    r
}

/// The armor-slot table.
pub open spec fn spec_armor_slot_probabilities() -> Seq<(SlotType, u32)> {
    seq![
        (SlotType::Head, 170u32),
        (SlotType::Breast, 170u32),
        (SlotType::ArmFront, 165u32),
        (SlotType::ArmBack, 165u32),
        (SlotType::LegFront, 165u32),
        (SlotType::LegBack, 165u32),
    ]
}

/// Builds the armor-slot table.
pub fn armor_slot_probabilities() -> (r: Vec<(SlotType, u32)>)
    ensures
        r@ == spec_armor_slot_probabilities(),
{
    let r: Vec<(SlotType, u32)> = vec![
        (SlotType::Head, 170u32),
        (SlotType::Breast, 170u32),
        (SlotType::ArmFront, 165u32),
        (SlotType::ArmBack, 165u32),
        (SlotType::LegFront, 165u32),
        (SlotType::LegBack, 165u32),
    ];
    proof {
        assert(r@ =~= spec_armor_slot_probabilities());
    }
    r
}

/// The weapon-slot table.
pub open spec fn spec_weapon_slot_probabilities() -> Seq<(SlotType, u32)> {
    seq![(SlotType::WeaponFront, 500u32), (SlotType::WeaponBack, 500u32)]
}

/// Builds the weapon-slot table.
pub fn weapon_slot_probabilities() -> (r: Vec<(SlotType, u32)>)
    ensures
        r@ == spec_weapon_slot_probabilities(),
{
    let r: Vec<(SlotType, u32)> = vec![
        (SlotType::WeaponFront, 500u32),
        (SlotType::WeaponBack, 500u32),
    ];
    proof {
        assert(r@ =~= spec_weapon_slot_probabilities());
    }
    r
}

/// The pet-class table.
pub open spec fn spec_pet_type_probabilities() -> Seq<(PetType, u32)> {
    seq![
        (PetType::TankyBulldog, 150u32),
        (PetType::FoxishDude, 150u32),
        (PetType::WierdFerry, 150u32),
        (PetType::FireDino, 150u32),
        (PetType::BigHybrid, 150u32),
        (PetType::GiantWoodStick, 150u32),
        (PetType::CrazyDude, 100u32),
    ]
}

/// Builds the pet-class table.
pub fn pet_type_probabilities() -> (r: Vec<(PetType, u32)>)
    ensures
        r@ == spec_pet_type_probabilities(),
{
    let r: Vec<(PetType, u32)> = vec![
        (PetType::TankyBulldog, 150u32),
        (PetType::FoxishDude, 150u32),
        (PetType::WierdFerry, 150u32),
        (PetType::FireDino, 150u32),
        (PetType::BigHybrid, 150u32),
        (PetType::GiantWoodStick, 150u32),
        (PetType::CrazyDude, 100u32),
    ];
    proof {
        assert(r@ =~= spec_pet_type_probabilities());
    }
    r
}

} // verus!
