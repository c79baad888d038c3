//! The fluent avatar builder: assembles a fresh DNA byte array
//! field-by-field into a semantically valid avatar of a given archetype.
//!
//! Every method overwrites its fields outright; no method validates
//! cross-field consistency — the minter and the combinator are
//! responsible for calling the right sequence for a given archetype.

use vstd::prelude::*;

use crate::bits::spec_enums_to_bits;
use crate::bits::spec_enums_order_to_bits;
use crate::bits::enums_to_bits;
use crate::bits::enums_order_to_bits;
use crate::dna::Avatar;
use crate::dna::AvatarAttributes;
use crate::dna::AvatarModel;
use crate::dna::AvatarSpecBytes;
use crate::dna::PROGRESS_LENGTH;
use crate::dna::read_attribute;
use crate::dna::spec_read_attribute;
use crate::dna::spec_write_attribute;
use crate::dna::spec_write_progress_array;
use crate::dna::spec_write_spec_byte;
use crate::dna::sat_add_u8;
use crate::dna::write_attribute;
use crate::dna::write_progress_array;
use crate::dna::write_spec_byte;
use crate::types::AvatarVersion;
use crate::types::BlueprintItemType;
use crate::types::EquipableItemType;
use crate::types::EssenceItemType;
use crate::types::HexType;
use crate::types::IntoByte;
use crate::types::ItemType;
use crate::types::MaterialItemType;
use crate::types::PetItemType;
use crate::types::PetType;
use crate::types::RarityType;
use crate::types::SlotType;
use crate::types::SpecialItemType;
use crate::types::spec_is_armor;

verus! {

/// A fluent, consuming constructor around one avatar.
pub struct AvatarBuilder {
    pub inner: Avatar,
}

impl View for AvatarBuilder {
    type V = AvatarModel;

    open spec fn view(&self) -> AvatarModel {
        self.inner@
    }
}

/// The avatar after its soul count is replaced.
pub open spec fn spec_with_souls(a: AvatarModel, souls: u32) -> AvatarModel {
    AvatarModel { souls, ..a }
}

/// The avatar after `quantity` is added to its quantity field,
/// saturating at 255.
pub open spec fn spec_add_quantity(a: AvatarModel, quantity: u8) -> AvatarModel {
    spec_write_attribute(
        a,
        AvatarAttributes::Quantity,
        sat_add_u8(spec_read_attribute(a, AvatarAttributes::Quantity), quantity),
    )
}

/// A material avatar assembled over `a`: material subtype, stackability
/// ratio 1, the given quantity, and one soul point per unit.
pub open spec fn spec_into_material(
    a: AvatarModel,
    material_type: MaterialItemType,
    quantity: u8,
) -> AvatarModel {
    let t = spec_write_attribute(a, AvatarAttributes::ItemType, ItemType::Material.spec_byte());
    let s = spec_write_attribute(t, AvatarAttributes::ItemSubType, material_type.spec_byte());
    let c = spec_write_attribute(s, AvatarAttributes::CustomType1, HexType::X1.spec_byte());
    let q = spec_write_attribute(c, AvatarAttributes::Quantity, quantity);
    spec_with_souls(q, quantity as u32)
}

/// An essence avatar assembled over `a`.
pub open spec fn spec_into_essence(
    a: AvatarModel,
    essence_type: EssenceItemType,
    quantity: u8,
) -> AvatarModel {
    let t = spec_write_attribute(a, AvatarAttributes::ItemType, ItemType::Essence.spec_byte());
    let s = spec_write_attribute(t, AvatarAttributes::ItemSubType, essence_type.spec_byte());
    let c1 = spec_write_attribute(s, AvatarAttributes::ClassType1, HexType::X0.spec_byte());
    let c2 = spec_write_attribute(c1, AvatarAttributes::ClassType2, HexType::X0.spec_byte());
    let u1 = spec_write_attribute(c2, AvatarAttributes::CustomType1, HexType::X1.spec_byte());
    let u2 = spec_write_attribute(u1, AvatarAttributes::CustomType2, HexType::X0.spec_byte());
    let ra = spec_write_attribute(u2, AvatarAttributes::RarityType, RarityType::Uncommon.spec_byte());
    let q = spec_write_attribute(ra, AvatarAttributes::Quantity, quantity);
    spec_with_souls(q, quantity as u32)
}

/// An equipable avatar assembled over `a`: an armor piece additionally
/// records itself in the armor-assembly bitmask of spec byte 1.
pub open spec fn spec_into_equipable(
    a: AvatarModel,
    equipable_type: EquipableItemType,
    pet_type: PetType,
    slot_type: SlotType,
    rarity_type: RarityType,
    soul_points: u32,
) -> AvatarModel {
    let armor_assemble_progress = if spec_is_armor(equipable_type) {
        spec_enums_to_bits(seq![equipable_type])
    } else {
        0u8
    };
    let t = spec_write_attribute(a, AvatarAttributes::ItemType, ItemType::Equipable.spec_byte());
    let s = spec_write_attribute(t, AvatarAttributes::ItemSubType, equipable_type.spec_byte());
    let c1 = spec_write_attribute(s, AvatarAttributes::ClassType1, slot_type.spec_byte());
    let c2 = spec_write_attribute(c1, AvatarAttributes::ClassType2, pet_type.spec_byte());
    let u1 = spec_write_attribute(c2, AvatarAttributes::CustomType1, HexType::X0.spec_byte());
    let ra = spec_write_attribute(u1, AvatarAttributes::RarityType, rarity_type.spec_byte());
    let q = spec_write_attribute(ra, AvatarAttributes::Quantity, 1);
    let u2 = spec_write_attribute(q, AvatarAttributes::CustomType2, HexType::X0.spec_byte());
    let b1 = spec_write_spec_byte(u2, AvatarSpecBytes::SpecByte1, armor_assemble_progress);
    let b2 = spec_write_spec_byte(b1, AvatarSpecBytes::SpecByte2, 0);
    let b3 = spec_write_spec_byte(b2, AvatarSpecBytes::SpecByte3, 0);
    let b4 = spec_write_spec_byte(b3, AvatarSpecBytes::SpecByte4, 0);
    let b5 = spec_write_spec_byte(b4, AvatarSpecBytes::SpecByte5, 0);
    let b6 = spec_write_spec_byte(b5, AvatarSpecBytes::SpecByte6, 0);
    let b7 = spec_write_spec_byte(b6, AvatarSpecBytes::SpecByte7, 0);
    let b8 = spec_write_spec_byte(b7, AvatarSpecBytes::SpecByte8, 0);
    spec_with_souls(b8, soul_points)
}

/// A blueprint avatar assembled over `a`: it carries the material
/// pattern (as set and order bytes), the equipable subtype it builds,
/// and one quantity unit per soul point.
pub open spec fn spec_into_blueprint(
    a: AvatarModel,
    blueprint_type: BlueprintItemType,
    pet_type: PetType,
    slot_type: SlotType,
    equipable_item_type: EquipableItemType,
    pattern: Seq<MaterialItemType>,
    soul_points: u32,
) -> AvatarModel {
    let t = spec_write_attribute(a, AvatarAttributes::ItemType, ItemType::Blueprint.spec_byte());
    let s = spec_write_attribute(t, AvatarAttributes::ItemSubType, blueprint_type.spec_byte());
    let c1 = spec_write_attribute(s, AvatarAttributes::ClassType1, slot_type.spec_byte());
    let c2 = spec_write_attribute(c1, AvatarAttributes::ClassType2, pet_type.spec_byte());
    let u1 = spec_write_attribute(c2, AvatarAttributes::CustomType1, HexType::X1.spec_byte());
    let ra = spec_write_attribute(u1, AvatarAttributes::RarityType, RarityType::Rare.spec_byte());
    let q = spec_write_attribute(ra, AvatarAttributes::Quantity, (soul_points % 256) as u8);
    let u2 = spec_write_attribute(q, AvatarAttributes::CustomType2, HexType::X0.spec_byte());
    let b1 = spec_write_spec_byte(u2, AvatarSpecBytes::SpecByte1, spec_enums_to_bits(pattern));
    let b2 = spec_write_spec_byte(b1, AvatarSpecBytes::SpecByte2, spec_enums_order_to_bits(pattern));
    let b3 = spec_write_spec_byte(b2, AvatarSpecBytes::SpecByte3, equipable_item_type.spec_byte());
    let b4 = spec_write_spec_byte(b3, AvatarSpecBytes::SpecByte4, 1);
    let b5 = spec_write_spec_byte(b4, AvatarSpecBytes::SpecByte5, 1);
    let b6 = spec_write_spec_byte(b5, AvatarSpecBytes::SpecByte6, 1);
    let b7 = spec_write_spec_byte(b6, AvatarSpecBytes::SpecByte7, 1);
    spec_with_souls(b7, soul_points)
}

/// A pet-part avatar assembled over `a`.
pub open spec fn spec_into_pet_part(
    a: AvatarModel,
    pet_type: PetType,
    slot_type: SlotType,
    quantity: u8,
) -> AvatarModel {
    let t = spec_write_attribute(a, AvatarAttributes::ItemType, ItemType::Pet.spec_byte());
    let s = spec_write_attribute(t, AvatarAttributes::ItemSubType, PetItemType::PetPart.spec_byte());
    let c1 = spec_write_attribute(s, AvatarAttributes::ClassType1, slot_type.spec_byte());
    let c2 = spec_write_attribute(c1, AvatarAttributes::ClassType2, pet_type.spec_byte());
    let u1 = spec_write_attribute(c2, AvatarAttributes::CustomType1, HexType::X1.spec_byte());
    let q = spec_write_attribute(u1, AvatarAttributes::Quantity, quantity);
    spec_with_souls(q, quantity as u32)
}

/// An egg avatar assembled over `a`: `pet_variation` is the bit-encoded
/// candidate set of pet classes the egg can hatch into.
pub open spec fn spec_into_egg(
    a: AvatarModel,
    rarity_type: RarityType,
    pet_variation: u8,
) -> AvatarModel {
    let t = spec_write_attribute(a, AvatarAttributes::ItemType, ItemType::Pet.spec_byte());
    let s = spec_write_attribute(t, AvatarAttributes::ItemSubType, PetItemType::Egg.spec_byte());
    let ra = spec_write_attribute(s, AvatarAttributes::RarityType, rarity_type.spec_byte());
    let u1 = spec_write_attribute(ra, AvatarAttributes::CustomType1, HexType::X0.spec_byte());
    let u2 = spec_write_attribute(u1, AvatarAttributes::CustomType2, pet_variation);
    spec_write_attribute(u2, AvatarAttributes::Quantity, 1)
}

impl AvatarBuilder {
    /// Starts from a fresh version-2 avatar around the given DNA.
    pub fn with_dna(season_id: u16, dna: Vec<u8>) -> (r: Self)
        requires
            dna@.len() == 32,
        ensures
            r@ == (AvatarModel {
                season_id,
                version: AvatarVersion::V2,
                dna: dna@,
                souls: 0u32,
            }),
            r@.wf(),
    {
        AvatarBuilder { inner: Avatar { season_id, version: AvatarVersion::V2, dna, souls: 0 } }
    }

    /// Starts from an existing avatar.
    pub fn with_base_avatar(avatar: Avatar) -> (r: Self)
        requires
            avatar.wf(),
        ensures
            r@ == avatar@,
            r@.wf(),
    {
        AvatarBuilder { inner: avatar }
    }

    /// Writes one attribute field from a typed value.
    pub fn with_attribute<T: IntoByte>(self, attribute: AvatarAttributes, value: T) -> (r: Self)
        requires
            self@.wf(),
        ensures
            r@ == spec_write_attribute(self@, attribute, value.spec_byte()),
            r@.wf(),
    {
        self.with_attribute_raw(attribute, value.into_byte())
    }

    /// Writes one attribute field from a raw byte.
    pub fn with_attribute_raw(self, attribute: AvatarAttributes, value: u8) -> (r: Self)
        requires
            self@.wf(),
        ensures
            r@ == spec_write_attribute(self@, attribute, value),
            r@.wf(),
    {
        let mut builder = self;
        write_attribute(&mut builder.inner, attribute, value);
        builder
    }

    /// Overwrites one spec byte.
    pub fn with_spec_byte(self, spec_byte: AvatarSpecBytes, value: u8) -> (r: Self)
        requires
            self@.wf(),
        ensures
            r@ == spec_write_spec_byte(self@, spec_byte, value),
            r@.wf(),
    {
        let mut builder = self;
        write_spec_byte(&mut builder.inner, spec_byte, value);
        builder
    }

    /// Replaces the soul count.
    pub fn with_soul_count(self, soul_count: u32) -> (r: Self)
        requires
            self@.wf(),
        ensures
            r@ == spec_with_souls(self@, soul_count),
            r@.wf(),
    {
        let mut builder = self;
        builder.inner.souls = soul_count;
        builder
    }

    /// Overwrites the progress array.
    pub fn with_progress_array(self, progress_array: &Vec<u8>) -> (r: Self)
        requires
            self@.wf(),
            progress_array@.len() == PROGRESS_LENGTH,
        ensures
            r@ == spec_write_progress_array(self@, progress_array@),
            r@.wf(),
    {
        let mut builder = self;
        write_progress_array(&mut builder.inner, progress_array);
        builder
    }

    /// Adds to the quantity field, saturating at 255.
    pub fn add_quantity(self, quantity: u8) -> (r: Self)
        requires
            self@.wf(),
        ensures
            r@ == spec_add_quantity(self@, quantity),
            r@.wf(),
    {
        let current_quantity = read_attribute(&self.inner, AvatarAttributes::Quantity);
        self.with_attribute_raw(
            AvatarAttributes::Quantity,
            current_quantity.saturating_add(quantity),
        )
    }

    /// Stamps the avatar as a pet of the given subtype.
    pub fn into_pet(self, pet_type: PetItemType) -> (r: Self)
        requires
            self@.wf(),
        ensures
            r@ == spec_write_attribute(
                spec_write_attribute(self@, AvatarAttributes::ItemType, ItemType::Pet.spec_byte()),
                AvatarAttributes::ItemSubType,
                pet_type.spec_byte(),
            ),
            r@.wf(),
    {
        self.with_attribute(AvatarAttributes::ItemType, ItemType::Pet).with_attribute(
            AvatarAttributes::ItemSubType,
            pet_type,
        )
    }

    /// Assembles a pet-part avatar.
    pub fn into_pet_part(self, pet_type: PetType, slot_type: SlotType, quantity: u8) -> (r: Self)
        requires
            self@.wf(),
        ensures
            r@ == spec_into_pet_part(self@, pet_type, slot_type, quantity),
            r@.wf(),
    {
        self.with_attribute(AvatarAttributes::ItemType, ItemType::Pet)
            .with_attribute(AvatarAttributes::ItemSubType, PetItemType::PetPart)
            .with_attribute(AvatarAttributes::ClassType1, slot_type)
            .with_attribute(AvatarAttributes::ClassType2, pet_type)
            .with_attribute(AvatarAttributes::CustomType1, HexType::X1)
            .with_attribute_raw(AvatarAttributes::Quantity, quantity)
            .with_soul_count(quantity as u32)
    }

    /// Assembles an egg avatar; `pet_variation` is the bit-encoded
    /// candidate set of pet classes.
    pub fn into_egg(self, rarity_type: RarityType, pet_variation: u8) -> (r: Self)
        requires
            self@.wf(),
        ensures
            r@ == spec_into_egg(self@, rarity_type, pet_variation),
            r@.wf(),
    {
        self.with_attribute(AvatarAttributes::ItemType, ItemType::Pet)
            .with_attribute(AvatarAttributes::ItemSubType, PetItemType::Egg)
            .with_attribute(AvatarAttributes::RarityType, rarity_type)
            .with_attribute(AvatarAttributes::CustomType1, HexType::X0)
            .with_attribute_raw(AvatarAttributes::CustomType2, pet_variation)
            .with_attribute_raw(AvatarAttributes::Quantity, 1)
    }

    /// Assembles a material avatar of the given quantity.
    pub fn into_material(self, material_type: MaterialItemType, quantity: u8) -> (r: Self)
        requires
            self@.wf(),
        ensures
            r@ == spec_into_material(self@, material_type, quantity),
            r@.wf(),
    {
        self.with_attribute(AvatarAttributes::ItemType, ItemType::Material)
            .with_attribute(AvatarAttributes::ItemSubType, material_type)
            .with_attribute(AvatarAttributes::CustomType1, HexType::X1)
            .with_attribute_raw(AvatarAttributes::Quantity, quantity)
            .with_soul_count(quantity as u32)
    }

    /// Assembles an essence avatar of the given quantity.
    pub fn into_essence(self, essence_type: EssenceItemType, quantity: u8) -> (r: Self)
        requires
            self@.wf(),
        ensures
            r@ == spec_into_essence(self@, essence_type, quantity),
            r@.wf(),
    {
        self.with_attribute(AvatarAttributes::ItemType, ItemType::Essence)
            .with_attribute(AvatarAttributes::ItemSubType, essence_type)
            .with_attribute(AvatarAttributes::ClassType1, HexType::X0)
            .with_attribute(AvatarAttributes::ClassType2, HexType::X0)
            .with_attribute(AvatarAttributes::CustomType1, HexType::X1)
            .with_attribute(AvatarAttributes::CustomType2, HexType::X0)
            .with_attribute(AvatarAttributes::RarityType, RarityType::Uncommon)
            .with_attribute_raw(AvatarAttributes::Quantity, quantity)
            .with_soul_count(quantity as u32)
    }

    /// Assembles an equipable avatar.
    pub fn into_equipable(
        self,
        equipable_type: EquipableItemType,
        pet_type: PetType,
        slot_type: SlotType,
        rarity_type: RarityType,
        soul_points: u32,
    ) -> (r: Self)
        requires
            self@.wf(),
        ensures
            r@ == spec_into_equipable(
                self@,
                equipable_type,
                pet_type,
                slot_type,
                rarity_type,
                soul_points,
            ),
            r@.wf(),
    {
        let armor_assemble_progress = if EquipableItemType::is_armor(equipable_type) {
            let pieces: Vec<EquipableItemType> = vec![equipable_type];
            proof {
                assert(pieces@ =~= seq![equipable_type]);
            }
            enums_to_bits(&pieces)
        } else {
            0
        };
        self.with_attribute(AvatarAttributes::ItemType, ItemType::Equipable)
            .with_attribute(AvatarAttributes::ItemSubType, equipable_type)
            .with_attribute(AvatarAttributes::ClassType1, slot_type)
            .with_attribute(AvatarAttributes::ClassType2, pet_type)
            .with_attribute(AvatarAttributes::CustomType1, HexType::X0)
            .with_attribute(AvatarAttributes::RarityType, rarity_type)
            .with_attribute_raw(AvatarAttributes::Quantity, 1)
            .with_attribute(AvatarAttributes::CustomType2, HexType::X0)
            .with_spec_byte(AvatarSpecBytes::SpecByte1, armor_assemble_progress)
            .with_spec_byte(AvatarSpecBytes::SpecByte2, 0)
            .with_spec_byte(AvatarSpecBytes::SpecByte3, 0)
            .with_spec_byte(AvatarSpecBytes::SpecByte4, 0)
            .with_spec_byte(AvatarSpecBytes::SpecByte5, 0)
            .with_spec_byte(AvatarSpecBytes::SpecByte6, 0)
            .with_spec_byte(AvatarSpecBytes::SpecByte7, 0)
            .with_spec_byte(AvatarSpecBytes::SpecByte8, 0)
            .with_soul_count(soul_points)
    }

    /// Assembles a blueprint avatar carrying a material pattern of at
    /// most four entries.
    pub fn into_blueprint(
        self,
        blueprint_type: BlueprintItemType,
        pet_type: PetType,
        slot_type: SlotType,
        equipable_item_type: EquipableItemType,
        pattern: &Vec<MaterialItemType>,
        soul_points: u32,
    ) -> (r: Self)
        requires
            self@.wf(),
            pattern@.len() <= 4,
        ensures
            r@ == spec_into_blueprint(
                self@,
                blueprint_type,
                pet_type,
                slot_type,
                equipable_item_type,
                pattern@,
                soul_points,
            ),
            r@.wf(),
    {
        proof {
            assert forall|i: int| 0 <= i < pattern@.len() implies 1 <= (
            #[trigger] pattern@[i].spec_byte()) <= 8 by {
                let m = pattern@[i];
            }
        }
        let quantity: u8 = (soul_points % 256) as u8;
        self.with_attribute(AvatarAttributes::ItemType, ItemType::Blueprint)
            .with_attribute(AvatarAttributes::ItemSubType, blueprint_type)
            .with_attribute(AvatarAttributes::ClassType1, slot_type)
            .with_attribute(AvatarAttributes::ClassType2, pet_type)
            .with_attribute(AvatarAttributes::CustomType1, HexType::X1)
            .with_attribute(AvatarAttributes::RarityType, RarityType::Rare)
            .with_attribute_raw(AvatarAttributes::Quantity, quantity)
            .with_attribute(AvatarAttributes::CustomType2, HexType::X0)
            .with_spec_byte(AvatarSpecBytes::SpecByte1, enums_to_bits(pattern))
            .with_spec_byte(AvatarSpecBytes::SpecByte2, enums_order_to_bits(pattern))
            .with_spec_byte(AvatarSpecBytes::SpecByte3, equipable_item_type.into_byte())
            .with_spec_byte(AvatarSpecBytes::SpecByte4, 1)
            .with_spec_byte(AvatarSpecBytes::SpecByte5, 1)
            .with_spec_byte(AvatarSpecBytes::SpecByte6, 1)
            .with_spec_byte(AvatarSpecBytes::SpecByte7, 1)
            .with_soul_count(soul_points)
    }

    /// Stamps the avatar as a special of the given subtype.
    pub fn into_special(self, special_type: SpecialItemType) -> (r: Self)
        requires
            self@.wf(),
        ensures
            r@ == spec_write_attribute(
                spec_write_attribute(
                    self@,
                    AvatarAttributes::ItemType,
                    ItemType::Special.spec_byte(),
                ),
                AvatarAttributes::ItemSubType,
                special_type.spec_byte(),
            ),
            r@.wf(),
    {
        self.with_attribute(AvatarAttributes::ItemType, ItemType::Special).with_attribute(
            AvatarAttributes::ItemSubType,
            special_type,
        )
    }

    /// Finishes the build.
    pub fn build(self) -> (r: Avatar)
        requires
            self@.wf(),
        ensures
            r@ == self@,
            r.wf(),
    {
        self.inner
    }
}

} // verus!
