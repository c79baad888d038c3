//! The forge: classifies a leader avatar and its sacrifices into one of
//! the combination algorithms and runs it.
//!
//! Every input item reappears in exactly one output slot — forged,
//! consumed, or (for the leader) the mutated leader — and newly minted
//! byproducts are listed beside them.  All randomness comes from the
//! caller-seeded hash provider, so a forge is a pure function of the
//! seed and its inputs.

use vstd::prelude::*;

use crate::bits::bits_to_enums;
use crate::bits::bits_order_to_enum;
use crate::bits::spec_bits_to_enums;
use crate::bits::spec_bits_order_to_enum;
use crate::builder::AvatarBuilder;
use crate::builder::spec_add_quantity;
use crate::builder::spec_into_blueprint;
use crate::builder::spec_into_equipable;
use crate::builder::spec_into_essence;
use crate::builder::spec_with_souls;
use crate::dna::Avatar;
use crate::dna::AvatarAttributes;
use crate::dna::AvatarModel;
use crate::dna::AvatarSpecBytes;
use crate::dna::ByteType;
use crate::dna::PROGRESS_LENGTH;
use crate::dna::SPEC_BYTES_COUNT;
use crate::dna::can_use_avatar;
use crate::dna::has_attribute_set_with_same_values_as;
use crate::dna::has_attribute_with_same_value_as;
use crate::dna::has_attribute_with_value;
use crate::dna::match_progress_arrays;
use crate::dna::read_attribute;
use crate::dna::read_full_spec_bytes;
use crate::dna::read_lowest_progress_byte;
use crate::dna::read_progress_array;
use crate::dna::read_spec_byte;
use crate::dna::sat_add_u8;
use crate::dna::sat_add_u32;
use crate::dna::spec_full_spec_bytes;
use crate::dna::spec_lowest_progress_byte;
use crate::dna::spec_match_progress_arrays;
use crate::dna::spec_progress_array;
use crate::dna::spec_read_attribute;
use crate::dna::spec_read_spec_byte;
use crate::dna::spec_same_attributes;
use crate::dna::spec_use_avatar;
use crate::dna::spec_write_attribute;
use crate::dna::spec_write_full_spec_bytes;
use crate::dna::spec_write_spec_byte;
use crate::dna::spec_write_progress_array;
use crate::dna::use_avatar;
use crate::dna::write_attribute;
use crate::dna::write_full_spec_bytes;
use crate::dna::write_progress_array;
use crate::dna::write_spec_byte;
use crate::hash_provider::HashProvider;
use crate::hash_provider::ProviderModel;
use crate::hash_provider::spec_full_hash;
use crate::hash_provider::spec_get_hash_byte;
use crate::hash_provider::spec_initial_provider;
use crate::mint::generate_base_avatar_dna;
use crate::types::AvatarError;
use crate::types::AvatarId;
use crate::types::AvatarVersion;
use crate::types::BlueprintItemType;
use crate::types::EquipableItemType;
use crate::types::EssenceItemType;
use crate::types::ForgeType;
use crate::types::FromByte;
use crate::types::IntoByte;
use crate::types::ItemType;
use crate::types::MaterialItemType;
use crate::types::PetItemType;
use crate::types::PetType;
use crate::types::RarityType;
use crate::types::Season;
use crate::types::SeasonId;
use crate::types::SlotType;
use crate::types::spec_is_armor;
use crate::types::spec_is_weapon;

verus! {

/// One forge input: an avatar with its identifier.
pub type ForgeItem = (AvatarId, Avatar);

/// What a forge does to the leader avatar.
#[derive(PartialEq, Eq, Debug)]
pub enum LeaderForgeOutput {
    /// The leader was mutated; the count is how many of its components
    /// were upgraded.
    Forged(ForgeItem, u8),
    /// The leader was consumed.
    Consumed(AvatarId),
}

/// What a forge does to one sacrifice.
#[derive(PartialEq, Eq, Debug)]
pub enum ForgeOutput {
    /// The sacrifice was mutated.
    Forged(ForgeItem, u8),
    /// A new avatar was created as a byproduct.
    Minted(Avatar),
    /// The sacrifice was consumed.
    Consumed(AvatarId),
}

/// The mathematical model of a leader outcome.
pub ghost enum LeaderForgeOutputModel {
    Forged(AvatarId, AvatarModel, u8),
    Consumed(AvatarId),
}

/// The mathematical model of a sacrifice outcome.
pub ghost enum ForgeOutputModel {
    Forged(AvatarId, AvatarModel, u8),
    Minted(AvatarModel),
    Consumed(AvatarId),
}

impl View for LeaderForgeOutput {
    type V = LeaderForgeOutputModel;

    open spec fn view(&self) -> LeaderForgeOutputModel {
        match self {
            LeaderForgeOutput::Forged(item, upgrades) => LeaderForgeOutputModel::Forged(
                item.0,
                item.1@,
                *upgrades,
            ),
            LeaderForgeOutput::Consumed(id) => LeaderForgeOutputModel::Consumed(*id),
        }
    }
}

impl View for ForgeOutput {
    type V = ForgeOutputModel;

    open spec fn view(&self) -> ForgeOutputModel {
        match self {
            ForgeOutput::Forged(item, upgrades) => ForgeOutputModel::Forged(
                item.0,
                item.1@,
                *upgrades,
            ),
            ForgeOutput::Minted(avatar) => ForgeOutputModel::Minted(avatar@),
            ForgeOutput::Consumed(id) => ForgeOutputModel::Consumed(*id),
        }
    }
}

/// The models of a list of forge items.
pub open spec fn spec_items_view(s: Seq<ForgeItem>) -> Seq<(AvatarId, AvatarModel)> {
    s.map(|i: int, p: ForgeItem| (p.0, p.1@))
}

/// The models of a list of sacrifice outcomes.
pub open spec fn spec_outputs_view(s: Seq<ForgeOutput>) -> Seq<ForgeOutputModel> {
    s.map(|i: int, p: ForgeOutput| p@)
}

/// Well-formedness of a list of forge items.
pub open spec fn spec_items_wf(s: Seq<(AvatarId, AvatarModel)>) -> bool {
    forall|i: int| 0 <= i < s.len() ==> (#[trigger] s[i]).1.wf()
}

/// The avatars of a list of item models.
pub open spec fn spec_item_avatars(s: Seq<(AvatarId, AvatarModel)>) -> Seq<AvatarModel> {
    s.map(|i: int, p: (AvatarId, AvatarModel)| p.1)
}

/// Whether every sacrifice carries the leader's DNA encoding version.
pub open spec fn spec_all_versions_match(leader: AvatarModel, sacrifices: Seq<AvatarModel>) -> bool {
    forall|i: int| 0 <= i < sacrifices.len() ==> (#[trigger] sacrifices[i]).version == leader.version
}

/// Equip eligibility of one sacrifice: a legendary equipable of the
/// leader's pet class whose subtype is the armor base or a weapon.
pub open spec fn spec_equip_sacrifice_ok(leader: AvatarModel, sacrifice: AvatarModel) -> bool {
    let sub_type = EquipableItemType::spec_from_byte(
        spec_read_attribute(sacrifice, AvatarAttributes::ItemSubType),
    );
    spec_read_attribute(sacrifice, AvatarAttributes::RarityType) == RarityType::Legendary.spec_byte()
        && spec_read_attribute(sacrifice, AvatarAttributes::ClassType2) == spec_read_attribute(
        leader,
        AvatarAttributes::ClassType2,
    ) && spec_read_attribute(sacrifice, AvatarAttributes::ItemType) == ItemType::Equipable.spec_byte()
        && (sub_type == EquipableItemType::ArmorBase || spec_is_weapon(sub_type))
}

/// Stack eligibility of one sacrifice behind a pet-part leader: a pet
/// part of the leader's pet class.
pub open spec fn spec_pet_part_stack_ok(leader: AvatarModel, sacrifice: AvatarModel) -> bool {
    spec_read_attribute(sacrifice, AvatarAttributes::ItemSubType) == PetItemType::PetPart.spec_byte()
        && spec_read_attribute(sacrifice, AvatarAttributes::ClassType2) == spec_read_attribute(
        leader,
        AvatarAttributes::ClassType2,
    )
}

/// Assemble eligibility of one sacrifice: an armor part matching the
/// leader's item type and classes, or an essence.
pub open spec fn spec_assemble_sacrifice_ok(leader: AvatarModel, sacrifice: AvatarModel) -> bool {
    let sub_type = EquipableItemType::spec_from_byte(
        spec_read_attribute(sacrifice, AvatarAttributes::ItemSubType),
    );
    (spec_same_attributes(
        sacrifice,
        leader,
        seq![AvatarAttributes::ItemType, AvatarAttributes::ClassType1, AvatarAttributes::ClassType2],
    ) && spec_is_armor(sub_type)) || spec_read_attribute(sacrifice, AvatarAttributes::ItemType)
        == ItemType::Essence.spec_byte()
}

/// Full-match eligibility: the sacrifice agrees with the leader on item
/// type, subtype and both classes.
pub open spec fn spec_full_match(leader: AvatarModel, sacrifice: AvatarModel) -> bool {
    spec_same_attributes(
        sacrifice,
        leader,
        seq![
            AvatarAttributes::ItemType,
            AvatarAttributes::ItemSubType,
            AvatarAttributes::ClassType1,
            AvatarAttributes::ClassType2,
        ],
    )
}

/// Which combination algorithm applies to a leader and its sacrifices;
/// `Invalid` when none does.
pub open spec fn spec_determine_forge_type(
    leader: AvatarModel,
    sacrifices: Seq<AvatarModel>,
) -> ForgeType {
    let item_type = ItemType::spec_from_byte(spec_read_attribute(leader, AvatarAttributes::ItemType));
    match item_type {
        ItemType::Pet => {
            let rarity = RarityType::spec_from_byte(
                spec_read_attribute(leader, AvatarAttributes::RarityType),
            );
            let sub_type = PetItemType::spec_from_byte(
                spec_read_attribute(leader, AvatarAttributes::ItemSubType),
            );
            if rarity == RarityType::Legendary {
                if sub_type == PetItemType::Pet && (forall|i: int|
                    0 <= i < sacrifices.len() ==> spec_equip_sacrifice_ok(
                        leader,
                        #[trigger] sacrifices[i],
                    )) {
                    ForgeType::Equip
                } else {
                    ForgeType::Invalid
                }
            } else if rarity == RarityType::Mythical {
                ForgeType::Invalid
            } else {
                match sub_type {
                    PetItemType::Pet => ForgeType::Invalid,
                    PetItemType::PetPart => if forall|i: int|
                        0 <= i < sacrifices.len() ==> spec_pet_part_stack_ok(
                            leader,
                            #[trigger] sacrifices[i],
                        ) {
                        ForgeType::Stack
                    } else if forall|i: int|
                        0 <= i < sacrifices.len() ==> spec_read_attribute(
                            #[trigger] sacrifices[i],
                            AvatarAttributes::ItemType,
                        ) == ItemType::Material.spec_byte() {
                        ForgeType::Tinker
                    } else {
                        ForgeType::Invalid
                    },
                    PetItemType::Egg => if forall|i: int|
                        0 <= i < sacrifices.len() ==> spec_read_attribute(
                            #[trigger] sacrifices[i],
                            AvatarAttributes::ItemType,
                        ) == ItemType::Pet.spec_byte() && spec_read_attribute(
                            sacrifices[i],
                            AvatarAttributes::ItemSubType,
                        ) == PetItemType::Egg.spec_byte() {
                        ForgeType::Breed
                    } else {
                        ForgeType::Invalid
                    },
                }
            }
        },
        ItemType::Material => if forall|i: int|
            0 <= i < sacrifices.len() ==> spec_read_attribute(
                #[trigger] sacrifices[i],
                AvatarAttributes::ItemSubType,
            ) == spec_read_attribute(leader, AvatarAttributes::ItemSubType) {
            ForgeType::Stack
        } else {
            ForgeType::Invalid
        },
        ItemType::Essence => ForgeType::Invalid,
        ItemType::Equipable => {
            let rarity = RarityType::spec_from_byte(
                spec_read_attribute(leader, AvatarAttributes::RarityType),
            );
            let equipable_item = EquipableItemType::spec_from_byte(
                spec_read_attribute(leader, AvatarAttributes::ItemSubType),
            );
            if rarity == RarityType::Legendary || rarity == RarityType::Mythical {
                ForgeType::Invalid
            } else if spec_is_armor(equipable_item) && (exists|i: int|
                0 <= i < sacrifices.len() && spec_full_match(leader, #[trigger] sacrifices[i]))
                && (forall|i: int|
                0 <= i < sacrifices.len() ==> spec_assemble_sacrifice_ok(
                    leader,
                    #[trigger] sacrifices[i],
                )) {
                ForgeType::Assemble
            } else {
                ForgeType::Invalid
            }
        },
        ItemType::Blueprint => if forall|i: int|
            0 <= i < sacrifices.len() ==> spec_read_attribute(
                #[trigger] sacrifices[i],
                AvatarAttributes::ItemType,
            ) == ItemType::Material.spec_byte() {
            ForgeType::Build
        } else {
            ForgeType::Invalid
        },
        ItemType::Special => ForgeType::Invalid,
    }
}

/// Classifies a leader and its sacrifices.
pub fn determine_forge_type(leader: &Avatar, sacrifices: &Vec<ForgeItem>) -> (r: ForgeType)
    requires
        leader.wf(),
        spec_items_wf(spec_items_view(sacrifices@)),
    ensures
        r == spec_determine_forge_type(leader@, spec_item_avatars(spec_items_view(sacrifices@))),
{
    let ghost models = spec_item_avatars(spec_items_view(sacrifices@));
    proof {
        assert(models.len() == sacrifices@.len());
        assert forall|i: int| 0 <= i < sacrifices@.len() implies (#[trigger] models[i])
            == sacrifices@[i].1@ && models[i].wf() by {
            assert(spec_items_view(sacrifices@)[i].1.wf());
        }
    }
    let item_type: ItemType = crate::dna::read_attribute_as(leader, AvatarAttributes::ItemType);
    match item_type {
        ItemType::Pet => {
            let rarity: RarityType = crate::dna::read_attribute_as(
                leader,
                AvatarAttributes::RarityType,
            );
            let sub_type: PetItemType = crate::dna::read_attribute_as(
                leader,
                AvatarAttributes::ItemSubType,
            );
            if rarity == RarityType::Legendary {
                if sub_type == PetItemType::Pet && all_equip_sacrifices_ok(leader, sacrifices) {
                    ForgeType::Equip
                } else {
                    ForgeType::Invalid
                }
            } else if rarity == RarityType::Mythical {
                ForgeType::Invalid
            } else {
                match sub_type {
                    PetItemType::Pet => ForgeType::Invalid,
                    PetItemType::PetPart => {
                        if all_pet_part_stack_ok(leader, sacrifices) {
                            ForgeType::Stack
                        } else if all_have_item_type(sacrifices, ItemType::Material) {
                            ForgeType::Tinker
                        } else {
                            ForgeType::Invalid
                        }
                    },
                    PetItemType::Egg => {
                        if all_are_eggs(sacrifices) {
                            ForgeType::Breed
                        } else {
                            ForgeType::Invalid
                        }
                    },
                }
            }
        },
        ItemType::Material => {
            if all_share_leader_subtype(leader, sacrifices) {
                ForgeType::Stack
            } else {
                ForgeType::Invalid
            }
        },
        ItemType::Essence => ForgeType::Invalid,
        ItemType::Equipable => {
            let rarity: RarityType = crate::dna::read_attribute_as(
                leader,
                AvatarAttributes::RarityType,
            );
            if rarity == RarityType::Legendary || rarity == RarityType::Mythical {
                ForgeType::Invalid
            } else {
                let equipable_item: EquipableItemType = crate::dna::read_attribute_as(
                    leader,
                    AvatarAttributes::ItemSubType,
                );
                if EquipableItemType::is_armor(equipable_item) && any_full_match(leader, sacrifices)
                    && all_assemble_sacrifices_ok(leader, sacrifices) {
                    ForgeType::Assemble
                } else {
                    ForgeType::Invalid
                }
            }
        },
        ItemType::Blueprint => {
            if all_have_item_type(sacrifices, ItemType::Material) {
                ForgeType::Build
            } else {
                ForgeType::Invalid
            }
        },
        ItemType::Special => ForgeType::Invalid,
    }
}

fn all_equip_sacrifices_ok(leader: &Avatar, sacrifices: &Vec<ForgeItem>) -> (r: bool)
    requires
        leader.wf(),
        spec_items_wf(spec_items_view(sacrifices@)),
    ensures
        r == (forall|i: int|
            0 <= i < sacrifices@.len() ==> spec_equip_sacrifice_ok(
                leader@,
                #[trigger] spec_item_avatars(spec_items_view(sacrifices@))[i],
            )),
{
    let ghost models = spec_item_avatars(spec_items_view(sacrifices@));
    let mut i: usize = 0;
    while i < sacrifices.len()
        invariant
            leader.wf(),
            spec_items_wf(spec_items_view(sacrifices@)),
            models == spec_item_avatars(spec_items_view(sacrifices@)),
            0 <= i <= sacrifices@.len(),
            forall|j: int| 0 <= j < i ==> spec_equip_sacrifice_ok(leader@, #[trigger] models[j]),
        decreases sacrifices@.len() - i,
    {
        let sacrifice = &sacrifices[i].1;
        proof {
            assert(spec_items_view(sacrifices@)[i as int].1.wf());
            assert(models[i as int] == sacrifices@[i as int].1@);
        }
        let equipable_item: EquipableItemType = crate::dna::read_attribute_as(
            sacrifice,
            AvatarAttributes::ItemSubType,
        );
        let ok = has_attribute_with_value(
            sacrifice,
            AvatarAttributes::RarityType,
            RarityType::Legendary,
        ) && has_attribute_with_same_value_as(sacrifice, leader, AvatarAttributes::ClassType2)
            && has_attribute_with_value(sacrifice, AvatarAttributes::ItemType, ItemType::Equipable)
            && (equipable_item == EquipableItemType::ArmorBase || EquipableItemType::is_weapon(
            equipable_item,
        ));
        if !ok {
            return false;
        }
        i = i + 1;
    }
    true
}

fn all_pet_part_stack_ok(leader: &Avatar, sacrifices: &Vec<ForgeItem>) -> (r: bool)
    requires
        leader.wf(),
        spec_items_wf(spec_items_view(sacrifices@)),
    ensures
        r == (forall|i: int|
            0 <= i < sacrifices@.len() ==> spec_pet_part_stack_ok(
                leader@,
                #[trigger] spec_item_avatars(spec_items_view(sacrifices@))[i],
            )),
{
    let ghost models = spec_item_avatars(spec_items_view(sacrifices@));
    let mut i: usize = 0;
    while i < sacrifices.len()
        invariant
            leader.wf(),
            spec_items_wf(spec_items_view(sacrifices@)),
            models == spec_item_avatars(spec_items_view(sacrifices@)),
            0 <= i <= sacrifices@.len(),
            forall|j: int| 0 <= j < i ==> spec_pet_part_stack_ok(leader@, #[trigger] models[j]),
        decreases sacrifices@.len() - i,
    {
        let sacrifice = &sacrifices[i].1;
        proof {
            assert(spec_items_view(sacrifices@)[i as int].1.wf());
            assert(models[i as int] == sacrifices@[i as int].1@);
        }
        let ok = has_attribute_with_value(
            sacrifice,
            AvatarAttributes::ItemSubType,
            PetItemType::PetPart,
        ) && has_attribute_with_same_value_as(sacrifice, leader, AvatarAttributes::ClassType2);
        if !ok {
            return false;
        }
        i = i + 1;
    }
    true
}

fn all_have_item_type(sacrifices: &Vec<ForgeItem>, item_type: ItemType) -> (r: bool)
    requires
        spec_items_wf(spec_items_view(sacrifices@)),
    ensures
        r == (forall|i: int|
            0 <= i < sacrifices@.len() ==> spec_read_attribute(
                #[trigger] spec_item_avatars(spec_items_view(sacrifices@))[i],
                AvatarAttributes::ItemType,
            ) == item_type.spec_byte()),
{
    let ghost models = spec_item_avatars(spec_items_view(sacrifices@));
    let mut i: usize = 0;
    while i < sacrifices.len()
        invariant
            spec_items_wf(spec_items_view(sacrifices@)),
            models == spec_item_avatars(spec_items_view(sacrifices@)),
            0 <= i <= sacrifices@.len(),
            forall|j: int|
                0 <= j < i ==> spec_read_attribute(
                    #[trigger] models[j],
                    AvatarAttributes::ItemType,
                ) == item_type.spec_byte(),
        decreases sacrifices@.len() - i,
    {
        proof {
            assert(spec_items_view(sacrifices@)[i as int].1.wf());
            assert(models[i as int] == sacrifices@[i as int].1@);
        }
        if !has_attribute_with_value(&sacrifices[i].1, AvatarAttributes::ItemType, item_type) {
            return false;
        }
        i = i + 1;
    }
    true
}

fn all_are_eggs(sacrifices: &Vec<ForgeItem>) -> (r: bool)
    requires
        spec_items_wf(spec_items_view(sacrifices@)),
    ensures
        r == (forall|i: int|
            0 <= i < sacrifices@.len() ==> spec_read_attribute(
                #[trigger] spec_item_avatars(spec_items_view(sacrifices@))[i],
                AvatarAttributes::ItemType,
            ) == ItemType::Pet.spec_byte() && spec_read_attribute(
                spec_item_avatars(spec_items_view(sacrifices@))[i],
                AvatarAttributes::ItemSubType,
            ) == PetItemType::Egg.spec_byte()),
{
    let ghost models = spec_item_avatars(spec_items_view(sacrifices@));
    let mut i: usize = 0;
    while i < sacrifices.len()
        invariant
            spec_items_wf(spec_items_view(sacrifices@)),
            models == spec_item_avatars(spec_items_view(sacrifices@)),
            0 <= i <= sacrifices@.len(),
            forall|j: int|
                0 <= j < i ==> spec_read_attribute(#[trigger] models[j], AvatarAttributes::ItemType)
                    == ItemType::Pet.spec_byte() && spec_read_attribute(
                    models[j],
                    AvatarAttributes::ItemSubType,
                ) == PetItemType::Egg.spec_byte(),
        decreases sacrifices@.len() - i,
    {
        proof {
            assert(spec_items_view(sacrifices@)[i as int].1.wf());
            assert(models[i as int] == sacrifices@[i as int].1@);
        }
        let sacrifice = &sacrifices[i].1;
        let ok = has_attribute_with_value(sacrifice, AvatarAttributes::ItemType, ItemType::Pet)
            && has_attribute_with_value(sacrifice, AvatarAttributes::ItemSubType, PetItemType::Egg);
        if !ok {
            return false;
        }
        i = i + 1;
    }
    true
}

fn all_share_leader_subtype(leader: &Avatar, sacrifices: &Vec<ForgeItem>) -> (r: bool)
    requires
        leader.wf(),
        spec_items_wf(spec_items_view(sacrifices@)),
    ensures
        r == (forall|i: int|
            0 <= i < sacrifices@.len() ==> spec_read_attribute(
                #[trigger] spec_item_avatars(spec_items_view(sacrifices@))[i],
                AvatarAttributes::ItemSubType,
            ) == spec_read_attribute(leader@, AvatarAttributes::ItemSubType)),
{
    let ghost models = spec_item_avatars(spec_items_view(sacrifices@));
    let mut i: usize = 0;
    while i < sacrifices.len()
        invariant
            leader.wf(),
            spec_items_wf(spec_items_view(sacrifices@)),
            models == spec_item_avatars(spec_items_view(sacrifices@)),
            0 <= i <= sacrifices@.len(),
            forall|j: int|
                0 <= j < i ==> spec_read_attribute(
                    #[trigger] models[j],
                    AvatarAttributes::ItemSubType,
                ) == spec_read_attribute(leader@, AvatarAttributes::ItemSubType),
        decreases sacrifices@.len() - i,
    {
        proof {
            assert(spec_items_view(sacrifices@)[i as int].1.wf());
            assert(models[i as int] == sacrifices@[i as int].1@);
        }
        if !has_attribute_with_same_value_as(leader, &sacrifices[i].1, AvatarAttributes::ItemSubType)
        {
            return false;
        }
        i = i + 1;
    }
    true
}

fn any_full_match(leader: &Avatar, sacrifices: &Vec<ForgeItem>) -> (r: bool)
    requires
        leader.wf(),
        spec_items_wf(spec_items_view(sacrifices@)),
    ensures
        r == (exists|i: int|
            0 <= i < sacrifices@.len() && spec_full_match(
                leader@,
                #[trigger] spec_item_avatars(spec_items_view(sacrifices@))[i],
            )),
{
    let ghost models = spec_item_avatars(spec_items_view(sacrifices@));
    let attribute_set: Vec<AvatarAttributes> = vec![
        AvatarAttributes::ItemType,
        AvatarAttributes::ItemSubType,
        AvatarAttributes::ClassType1,
        AvatarAttributes::ClassType2,
    ];
    proof {
        assert(attribute_set@ =~= seq![
            AvatarAttributes::ItemType,
            AvatarAttributes::ItemSubType,
            AvatarAttributes::ClassType1,
            AvatarAttributes::ClassType2,
        ]);
    }
    let mut i: usize = 0;
    while i < sacrifices.len()
        invariant
            leader.wf(),
            spec_items_wf(spec_items_view(sacrifices@)),
            models == spec_item_avatars(spec_items_view(sacrifices@)),
            attribute_set@ == seq![
                AvatarAttributes::ItemType,
                AvatarAttributes::ItemSubType,
                AvatarAttributes::ClassType1,
                AvatarAttributes::ClassType2,
            ],
            0 <= i <= sacrifices@.len(),
            forall|j: int| 0 <= j < i ==> !spec_full_match(leader@, #[trigger] models[j]),
        decreases sacrifices@.len() - i,
    {
        proof {
            assert(spec_items_view(sacrifices@)[i as int].1.wf());
            assert(models[i as int] == sacrifices@[i as int].1@);
        }
        if has_attribute_set_with_same_values_as(&sacrifices[i].1, leader, &attribute_set) {
            return true;
        }
        i = i + 1;
    }
    false
}

fn all_assemble_sacrifices_ok(leader: &Avatar, sacrifices: &Vec<ForgeItem>) -> (r: bool)
    requires
        leader.wf(),
        spec_items_wf(spec_items_view(sacrifices@)),
    ensures
        r == (forall|i: int|
            0 <= i < sacrifices@.len() ==> spec_assemble_sacrifice_ok(
                leader@,
                #[trigger] spec_item_avatars(spec_items_view(sacrifices@))[i],
            )),
{
    let ghost models = spec_item_avatars(spec_items_view(sacrifices@));
    let attribute_set: Vec<AvatarAttributes> = vec![
        AvatarAttributes::ItemType,
        AvatarAttributes::ClassType1,
        AvatarAttributes::ClassType2,
    ];
    proof {
        assert(attribute_set@ =~= seq![
            AvatarAttributes::ItemType,
            AvatarAttributes::ClassType1,
            AvatarAttributes::ClassType2,
        ]);
    }
    let mut i: usize = 0;
    while i < sacrifices.len()
        invariant
            leader.wf(),
            spec_items_wf(spec_items_view(sacrifices@)),
            models == spec_item_avatars(spec_items_view(sacrifices@)),
            attribute_set@ == seq![
                AvatarAttributes::ItemType,
                AvatarAttributes::ClassType1,
                AvatarAttributes::ClassType2,
            ],
            0 <= i <= sacrifices@.len(),
            forall|j: int| 0 <= j < i ==> spec_assemble_sacrifice_ok(leader@, #[trigger] models[j]),
        decreases sacrifices@.len() - i,
    {
        proof {
            assert(spec_items_view(sacrifices@)[i as int].1.wf());
            assert(models[i as int] == sacrifices@[i as int].1@);
        }
        let sacrifice = &sacrifices[i].1;
        let sub_type: EquipableItemType = crate::dna::read_attribute_as(
            sacrifice,
            AvatarAttributes::ItemSubType,
        );
        let ok = (has_attribute_set_with_same_values_as(sacrifice, leader, &attribute_set)
            && EquipableItemType::is_armor(sub_type)) || has_attribute_with_value(
            sacrifice,
            AvatarAttributes::ItemType,
            ItemType::Essence,
        );
        if !ok {
            return false;
        }
        i = i + 1;
    }
    true
}

/// Whether the inputs can be forged and under which algorithm: rejects
/// mixed DNA encoding versions first, then inputs no algorithm accepts.
pub open spec fn spec_can_be_forged(leader: AvatarModel, sacrifices: Seq<AvatarModel>) -> Result<
    ForgeType,
    AvatarError,
> {
    if !spec_all_versions_match(leader, sacrifices) {
        Err(AvatarError::IncompatibleAvatarVersions)
    } else {
        let forge_type = spec_determine_forge_type(leader, sacrifices);
        if forge_type == ForgeType::Invalid {
            Err(AvatarError::InvalidForgeComponents)
        } else {
            Ok(forge_type)
        }
    }
}

/// Validates the inputs of a forge call.  Returns
/// `IncompatibleAvatarVersions` exactly when some sacrifice's version
/// differs from the leader's, `InvalidForgeComponents` exactly when the
/// versions agree but no combination algorithm applies, and the
/// algorithm otherwise.
pub fn can_be_forged(
    _season: &Season,
    input_leader: &ForgeItem,
    input_sacrifices: &Vec<ForgeItem>,
) -> (r: Result<ForgeType, AvatarError>)
    requires
        input_leader.1.wf(),
        spec_items_wf(spec_items_view(input_sacrifices@)),
    ensures
        r == spec_can_be_forged(
            input_leader.1@,
            spec_item_avatars(spec_items_view(input_sacrifices@)),
        ),
{
    let ghost models = spec_item_avatars(spec_items_view(input_sacrifices@));
    let mut i: usize = 0;
    while i < input_sacrifices.len()
        invariant
            models == spec_item_avatars(spec_items_view(input_sacrifices@)),
            0 <= i <= input_sacrifices@.len(),
            forall|j: int| 0 <= j < i ==> (#[trigger] models[j]).version == input_leader.1@.version,
        decreases input_sacrifices@.len() - i,
    {
        proof {
            assert(models[i as int] == input_sacrifices@[i as int].1@);
        }
        let same = match (input_sacrifices[i].1.version, input_leader.1.version) {
            (AvatarVersion::V1, AvatarVersion::V1) => true,
            (AvatarVersion::V2, AvatarVersion::V2) => true,
            _ => false,
        };
        if !same {
            return Err(AvatarError::IncompatibleAvatarVersions);
        }
        i = i + 1;
    }
    let forge_type = determine_forge_type(&input_leader.1, input_sacrifices);
    if forge_type == ForgeType::Invalid {
        Err(AvatarError::InvalidForgeComponents)
    } else {
        Ok(forge_type)
    }
}

/// The byte threshold under which one provider draw mints a stack
/// byproduct: 13 of 256 (about five percent).
pub const STACK_PROBABILITY: u8 = 13;

/// The identifiers of a list of forge items.
pub open spec fn spec_ids(items: Seq<(AvatarId, AvatarModel)>) -> Seq<AvatarId> {
    items.map(|i: int, p: (AvatarId, AvatarModel)| p.0)
}

/// The identifiers a list of sacrifice outcomes accounts for: one for
/// each forged or consumed entry; minted byproducts carry none.
pub open spec fn spec_output_ids(outs: Seq<ForgeOutputModel>) -> Seq<AvatarId>
    decreases outs.len(),
{
    if outs.len() == 0 {
        Seq::empty()
    } else {
        let rest = spec_output_ids(outs.drop_last());
        match outs.last() {
            ForgeOutputModel::Forged(id, _, _) => rest.push(id),
            ForgeOutputModel::Minted(_) => rest,
            ForgeOutputModel::Consumed(id) => rest.push(id),
        }
    }
}

/// A consumed outcome for every item of a list.
pub open spec fn spec_consumed_outputs(items: Seq<(AvatarId, AvatarModel)>) -> Seq<
    ForgeOutputModel,
> {
    items.map(|i: int, p: (AvatarId, AvatarModel)| ForgeOutputModel::Consumed(p.0))
}

/// Consuming a list of items accounts for exactly their identifiers, in
/// order.
pub proof fn lemma_consumed_ids(items: Seq<(AvatarId, AvatarModel)>)
    ensures
        spec_output_ids(spec_consumed_outputs(items)) == spec_ids(items),
    decreases items.len(),
{
    if items.len() > 0 {
        lemma_consumed_ids(items.drop_last());
        assert(spec_consumed_outputs(items).drop_last() =~= spec_consumed_outputs(
            items.drop_last(),
        ));
        assert(spec_output_ids(spec_consumed_outputs(items)) =~= spec_ids(items));
    } else {
        assert(spec_output_ids(spec_consumed_outputs(items)) =~= spec_ids(items));
    }
}

/// The saturating sum of the first `n` sacrifices' quantity fields.
pub open spec fn spec_quantity_sum(sacrifices: Seq<AvatarModel>, n: int) -> u8
    decreases n,
{
    if n <= 0 {
        0u8
    } else {
        sat_add_u8(
            spec_quantity_sum(sacrifices, n - 1),
            spec_read_attribute(sacrifices[n - 1], AvatarAttributes::Quantity),
        )
    }
}

/// The saturating sum of the first `n` sacrifices' soul points.
pub open spec fn spec_souls_sum(sacrifices: Seq<AvatarModel>, n: int) -> u32
    decreases n,
{
    if n <= 0 {
        0u32
    } else {
        sat_add_u32(spec_souls_sum(sacrifices, n - 1), sacrifices[n - 1].souls)
    }
}

/// The stack byproduct after `n` provider draws, one per sacrifice: a
/// draw under the stack threshold mints a one-unit glimmer essence on
/// its first hit and adds one unit on every later hit.
pub open spec fn spec_stack_essence(season_id: SeasonId, n: int, m: ProviderModel) -> (
    Option<AvatarModel>,
    ProviderModel,
)
    decreases n,
{
    if n <= 0 {
        (None, m)
    } else {
        let (essence, m1) = spec_stack_essence(season_id, n - 1, m);
        let (byte, m2) = spec_get_hash_byte(m1);
        if STACK_PROBABILITY > byte {
            match essence {
                None => {
                    let (dna, m3) = spec_full_hash(m2, 7);
                    let base = AvatarModel {
                        season_id,
                        version: AvatarVersion::V2,
                        dna,
                        souls: 0u32,
                    };
                    (Some(spec_into_essence(base, EssenceItemType::Glimmer, 1)), m3)
                },
                Some(e) => (Some(spec_add_quantity(e, 1)), m2),
            }
        } else {
            (essence, m2)
        }
    }
}

/// The stacked leader: sacrifice quantities added to its quantity field
/// and sacrifice souls added to its soul count, both saturating.
pub open spec fn spec_stack_leader(leader: AvatarModel, sacrifices: Seq<AvatarModel>) -> AvatarModel {
    let quantity = sat_add_u8(
        spec_read_attribute(leader, AvatarAttributes::Quantity),
        spec_quantity_sum(sacrifices, sacrifices.len() as int),
    );
    let with_quantity = spec_write_attribute(leader, AvatarAttributes::Quantity, quantity);
    spec_with_souls(
        with_quantity,
        sat_add_u32(leader.souls, spec_souls_sum(sacrifices, sacrifices.len() as int)),
    )
}

/// What a stack forge yields: the stacked leader, every sacrifice
/// consumed, and at most one minted essence byproduct.
pub open spec fn spec_stack_avatars(
    leader_item: (AvatarId, AvatarModel),
    items: Seq<(AvatarId, AvatarModel)>,
    season_id: SeasonId,
    m: ProviderModel,
) -> ((LeaderForgeOutputModel, Seq<ForgeOutputModel>), ProviderModel) {
    let avatars = spec_item_avatars(items);
    let leader = spec_stack_leader(leader_item.1, avatars);
    let (essence, m1) = spec_stack_essence(season_id, items.len() as int, m);
    let outputs = spec_consumed_outputs(items) + (match essence {
        Some(e) => seq![ForgeOutputModel::Minted(e)],
        None => Seq::empty(),
    });
    ((LeaderForgeOutputModel::Forged(leader_item.0, leader, 0), outputs), m1)
}

/// Stacks the sacrifices onto the leader: quantities and souls are
/// added (saturating), every sacrifice is consumed, and each sacrifice
/// gives one draw at minting a glimmer-essence byproduct.  Never fails.
pub fn stack_avatars(
    input_leader: ForgeItem,
    input_sacrifices: Vec<ForgeItem>,
    season_id: SeasonId,
    hash_provider: &mut HashProvider,
) -> (r: Result<(LeaderForgeOutput, Vec<ForgeOutput>), AvatarError>)
    requires
        input_leader.1.wf(),
        spec_items_wf(spec_items_view(input_sacrifices@)),
        old(hash_provider).wf(),
    ensures
        final(hash_provider).wf(),
        ({
            let ((leader_out, outputs), m1) = spec_stack_avatars(
                (input_leader.0, input_leader.1@),
                spec_items_view(input_sacrifices@),
                season_id,
                old(hash_provider)@,
            );
            r matches Ok(v) && v.0@ == leader_out && spec_outputs_view(v.1@) == outputs
                && final(hash_provider)@ == m1
        }),
{
    let ghost items = spec_items_view(input_sacrifices@);
    let ghost avatars = spec_item_avatars(items);
    let (avatar_id, mut avatar) = input_leader;

    let mut new_quantity: u8 = 0;
    let mut new_souls: u32 = 0;
    let mut i: usize = 0;
    while i < input_sacrifices.len()
        invariant
            spec_items_wf(spec_items_view(input_sacrifices@)),
            items == spec_items_view(input_sacrifices@),
            avatars == spec_item_avatars(items),
            0 <= i <= input_sacrifices@.len(),
            new_quantity == spec_quantity_sum(avatars, i as int),
            new_souls == spec_souls_sum(avatars, i as int),
        decreases input_sacrifices@.len() - i,
    {
        proof {
            assert(items[i as int].1.wf());
            assert(avatars[i as int] == input_sacrifices@[i as int].1@);
        }
        let quantity = read_attribute(&input_sacrifices[i].1, AvatarAttributes::Quantity);
        new_quantity = new_quantity.saturating_add(quantity);
        new_souls = new_souls.saturating_add(input_sacrifices[i].1.souls);
        i = i + 1;
    }

    let leader_quantity = read_attribute(&avatar, AvatarAttributes::Quantity);
    write_attribute(
        &mut avatar,
        AvatarAttributes::Quantity,
        leader_quantity.saturating_add(new_quantity),
    );
    avatar.souls = avatar.souls.saturating_add(new_souls);

    let mut essence_avatar: Option<Avatar> = None;
    let ghost m0 = hash_provider@;
    let mut k: usize = 0;
    while k < input_sacrifices.len()
        invariant
            hash_provider.wf(),
            0 <= k <= input_sacrifices@.len(),
            (match essence_avatar {
                Some(ref e) => Some(e@),
                None => None::<AvatarModel>,
            }) == spec_stack_essence(season_id, k as int, m0).0,
            hash_provider@ == spec_stack_essence(season_id, k as int, m0).1,
            essence_avatar matches Some(e) ==> e.wf(),
        decreases input_sacrifices@.len() - k,
    {
        let byte = hash_provider.get_hash_byte();
        if STACK_PROBABILITY > byte {
            essence_avatar = match essence_avatar {
                None => {
                    let dna = match generate_base_avatar_dna(hash_provider) {
                        Ok(dna) => dna,
                        Err(e) => {
                            return Err(e);
                        },
                    };
                    Some(
                        AvatarBuilder::with_dna(season_id, dna).into_essence(
                            EssenceItemType::Glimmer,
                            1,
                        ).build(),
                    )
                },
                Some(entry) => Some(AvatarBuilder::with_base_avatar(entry).add_quantity(1).build()),
            };
        }
        k = k + 1;
    }

    let mut output_vec: Vec<ForgeOutput> = Vec::new();
    let mut j: usize = 0;
    while j < input_sacrifices.len()
        invariant
            items == spec_items_view(input_sacrifices@),
            0 <= j <= input_sacrifices@.len(),
            output_vec@.len() == j,
            forall|t: int|
                0 <= t < j ==> (#[trigger] output_vec@[t]) == ForgeOutput::Consumed(
                    input_sacrifices@[t].0,
                ),
        decreases input_sacrifices@.len() - j,
    {
        output_vec.push(ForgeOutput::Consumed(input_sacrifices[j].0));
        j = j + 1;
    }
    proof {
        assert forall|t: int| 0 <= t < items.len() implies spec_outputs_view(output_vec@)[t]
            == spec_consumed_outputs(items)[t] by {
            assert(output_vec@[t] == ForgeOutput::Consumed(input_sacrifices@[t].0));
            assert(items[t] == (input_sacrifices@[t].0, input_sacrifices@[t].1@));
        }
        assert(spec_outputs_view(output_vec@) =~= spec_consumed_outputs(items));
    }
    match essence_avatar {
        Some(minted_avatar) => {
            let ghost minted_model = minted_avatar@;
            output_vec.push(ForgeOutput::Minted(minted_avatar));
            proof {
                assert(spec_outputs_view(output_vec@) =~= spec_consumed_outputs(items) + seq![
                    ForgeOutputModel::Minted(minted_model),
                ]);
            }
        },
        None => {
            proof {
                assert(spec_outputs_view(output_vec@) =~= spec_consumed_outputs(items)
                    + Seq::<ForgeOutputModel>::empty());
            }
        },
    }

    Ok((LeaderForgeOutput::Forged((avatar_id, avatar), 0), output_vec))
}

/// Law (stack conservation): a stack forge adds exactly the sacrifices'
/// summed souls to the leader's souls and their summed quantities to
/// the leader's quantity field (both saturating), and every sacrifice
/// appears in the output exactly once, consumed, in input order.
pub proof fn lemma_stack_conservation(
    leader_item: (AvatarId, AvatarModel),
    items: Seq<(AvatarId, AvatarModel)>,
    season_id: SeasonId,
    m: ProviderModel,
)
    requires
        leader_item.1.wf(),
    ensures
        ({
            let ((leader_out, outputs), m1) = spec_stack_avatars(leader_item, items, season_id, m);
            let avatars = spec_item_avatars(items);
            leader_out matches LeaderForgeOutputModel::Forged(id, after, upgrades) && id
                == leader_item.0 && after.souls == sat_add_u32(
                leader_item.1.souls,
                spec_souls_sum(avatars, avatars.len() as int),
            ) && spec_read_attribute(after, AvatarAttributes::Quantity) == sat_add_u8(
                spec_read_attribute(leader_item.1, AvatarAttributes::Quantity),
                spec_quantity_sum(avatars, avatars.len() as int),
            ) && outputs.len() >= items.len() && (forall|i: int|
                0 <= i < items.len() ==> outputs[i] == ForgeOutputModel::Consumed(
                    #[trigger] items[i].0,
                ))
        }),
{
    let avatars = spec_item_avatars(items);
    let quantity = sat_add_u8(
        spec_read_attribute(leader_item.1, AvatarAttributes::Quantity),
        spec_quantity_sum(avatars, avatars.len() as int),
    );
    crate::dna::lemma_attribute_round_trip(leader_item.1, AvatarAttributes::Quantity, quantity);
}

/// The match scoring scales with the largest sacrifice count a forge
/// accepts.
pub const MAX_SACRIFICE: u32 = 4;

/// The base percentage of the progress-advance probability threshold (a
/// tuned constant).
pub const BASE_PROGRESS_PROBABILITY_PERCENT: u32 = 25;

/// Whether a sacrifice's progress array fits the leader's under the
/// match scoring.
pub open spec fn spec_sacrifice_fits(leader: AvatarModel, sacrifice: AvatarModel) -> bool {
    spec_match_progress_arrays(spec_progress_array(leader), spec_progress_array(sacrifice)) is Some
}

/// Whether a sacrifice fits and shares the leader's item type and
/// subtype (the scored group).
pub open spec fn spec_sacrifice_matches(leader: AvatarModel, sacrifice: AvatarModel) -> bool {
    spec_sacrifice_fits(leader, sacrifice) && spec_same_attributes(
        leader,
        sacrifice,
        seq![AvatarAttributes::ItemType, AvatarAttributes::ItemSubType],
    )
}

/// The concatenated matched slot indices of the first `n` scored
/// sacrifices.
pub open spec fn spec_matching_score(leader: AvatarModel, avatars: Seq<AvatarModel>, n: int) -> Seq<
    u8,
>
    decreases n,
{
    if n <= 0 {
        Seq::empty()
    } else {
        let rest = spec_matching_score(leader, avatars, n - 1);
        let sacrifice = avatars[n - 1];
        if spec_sacrifice_matches(leader, sacrifice) {
            rest + (match spec_match_progress_arrays(
                spec_progress_array(leader),
                spec_progress_array(sacrifice),
            ) {
                Some(v) => v,
                None => Seq::empty(),
            })
        } else {
            rest
        }
    }
}

/// How many of the first `n` sacrifices fit and share the leader's
/// type.
pub open spec fn spec_match_count(leader: AvatarModel, avatars: Seq<AvatarModel>, n: int) -> int
    decreases n,
{
    if n <= 0 {
        0
    } else {
        spec_match_count(leader, avatars, n - 1) + (if spec_sacrifice_matches(
            leader,
            avatars[n - 1],
        ) {
            1int
        } else {
            0int
        })
    }
}

/// How many of the first `n` sacrifices do not fit at all.
pub open spec fn spec_no_fit_count(leader: AvatarModel, avatars: Seq<AvatarModel>, n: int) -> int
    decreases n,
{
    if n <= 0 {
        0
    } else {
        spec_no_fit_count(leader, avatars, n - 1) + (if !spec_sacrifice_fits(
            leader,
            avatars[n - 1],
        ) {
            1int
        } else {
            0int
        })
    }
}

/// The probability byte of the progress-advance threshold: the base
/// percentage plus one per match, scaled by the per-match share
/// `(100 - base) / MAX_SACRIFICE` of the byte range; saturated at six
/// matches, where the formula exceeds a full byte.
pub open spec fn spec_match_probability(matches: int) -> u8 {
    if matches >= 6 {
        255u8
    } else {
        ((BASE_PROGRESS_PROBABILITY_PERCENT + 100 * matches) * (100
            - BASE_PROGRESS_PROBABILITY_PERCENT) * 255 / (100 * 100 * MAX_SACRIFICE)) as u8
    }
}

fn match_probability(matches: usize) -> (r: u8)
    ensures
        r == spec_match_probability(matches as int),
{
    if matches >= 6 {
        255
    } else {
        let numerator: u64 = (25 + 100 * (matches as u64)) * 75 * 255;
        (numerator / 40000) as u8
    }
}

/// The score list with every occurrence of one value removed.
pub open spec fn spec_remove_value(score: Seq<u8>, value: u8, n: int) -> Seq<u8>
    decreases n,
{
    if n <= 0 {
        Seq::empty()
    } else {
        let rest = spec_remove_value(score, value, n - 1);
        if score[n - 1] == value {
            rest
        } else {
            rest.push(score[n - 1])
        }
    }
}

fn remove_value(score: &Vec<u8>, value: u8) -> (r: Vec<u8>)
    ensures
        r@ == spec_remove_value(score@, value, score@.len() as int),
        forall|t: int| 0 <= t < r@.len() ==> score@.contains(#[trigger] r@[t]),
{
    let mut out: Vec<u8> = Vec::new();
    let mut i: usize = 0;
    while i < score.len()
        invariant
            0 <= i <= score@.len(),
            out@ == spec_remove_value(score@, value, i as int),
            forall|t: int| 0 <= t < out@.len() ==> score@.contains(#[trigger] out@[t]),
        decreases score@.len() - i,
    {
        let entry = score[i];
        if entry != value {
            out.push(entry);
        }
        i = i + 1;
    }
    out
}

/// The leader's progress array after the advance rolls: one provider
/// byte per roll; a byte under the threshold advances the scored slot it
/// selects by one tier (16, saturating) and spends that slot; the rolls
/// stop when the score pool is exhausted.
pub open spec fn spec_advance_progress(
    progress: Seq<u8>,
    score: Seq<u8>,
    probability: u8,
    rolls: int,
    m: ProviderModel,
) -> (Seq<u8>, ProviderModel)
    decreases rolls,
{
    if rolls <= 0 || score.len() == 0 {
        (progress, m)
    } else {
        let (byte, m1) = spec_get_hash_byte(m);
        if byte < probability {
            let pos = score[(byte as int) % (score.len() as int)];
            let advanced = progress.update(
                pos as int,
                sat_add_u8(progress[pos as int], 0x10),
            );
            let spent = spec_remove_value(score, pos, score.len() as int);
            spec_advance_progress(advanced, spent, probability, rolls - 1, m1)
        } else {
            spec_advance_progress(progress, score, probability, rolls - 1, m1)
        }
    }
}

/// What the match pass yields: the leader with advanced progress and
/// the sacrifices' souls absorbed, and the provider afterwards.
pub open spec fn spec_match_avatars(
    leader: AvatarModel,
    avatars: Seq<AvatarModel>,
    m: ProviderModel,
) -> (AvatarModel, ProviderModel) {
    let n = avatars.len() as int;
    let score = spec_matching_score(leader, avatars, n);
    let rolls = spec_match_count(leader, avatars, n) + spec_no_fit_count(leader, avatars, n);
    let probability = spec_match_probability(spec_match_count(leader, avatars, n));
    let (progress, m1) = spec_advance_progress(
        spec_progress_array(leader),
        score,
        probability,
        rolls,
        m,
    );
    let with_progress = spec_write_progress_array(leader, progress);
    (
        spec_with_souls(
            with_progress,
            sat_add_u32(leader.souls, spec_souls_sum(avatars, n)),
        ),
        m1,
    )
}

/// The scored sacrifices among the first `n`: those that fit and share
/// the leader's type.
pub open spec fn spec_matched_items(
    leader: AvatarModel,
    items: Seq<(AvatarId, AvatarModel)>,
    n: int,
) -> Seq<(AvatarId, AvatarModel)>
    decreases n,
{
    if n <= 0 {
        Seq::empty()
    } else {
        let rest = spec_matched_items(leader, items, n - 1);
        if spec_sacrifice_matches(leader, items[n - 1].1) {
            rest.push(items[n - 1])
        } else {
            rest
        }
    }
}

/// The remaining sacrifices among the first `n`.
pub open spec fn spec_unmatched_items(
    leader: AvatarModel,
    items: Seq<(AvatarId, AvatarModel)>,
    n: int,
) -> Seq<(AvatarId, AvatarModel)>
    decreases n,
{
    if n <= 0 {
        Seq::empty()
    } else {
        let rest = spec_unmatched_items(leader, items, n - 1);
        if spec_sacrifice_matches(leader, items[n - 1].1) {
            rest
        } else {
            rest.push(items[n - 1])
        }
    }
}

/// Runs the match pass: scores the sacrifices against the leader's
/// progress array, advances matched leader slots under the probability
/// threshold, absorbs the sacrifices' souls into the leader, and splits the
/// sacrifices into the scored group and the rest.
fn match_avatars(
    input_leader: ForgeItem,
    sacrifices: Vec<ForgeItem>,
    hash_provider: &mut HashProvider,
) -> (r: (ForgeItem, Vec<ForgeItem>, Vec<ForgeItem>))
    requires
        input_leader.1.wf(),
        spec_items_wf(spec_items_view(sacrifices@)),
        old(hash_provider).wf(),
    ensures
        final(hash_provider).wf(),
        r.0.0 == input_leader.0,
        r.0.1.wf(),
        r.0.1@ == spec_match_avatars(
            input_leader.1@,
            spec_item_avatars(spec_items_view(sacrifices@)),
            old(hash_provider)@,
        ).0,
        final(hash_provider)@ == spec_match_avatars(
            input_leader.1@,
            spec_item_avatars(spec_items_view(sacrifices@)),
            old(hash_provider)@,
        ).1,
        spec_items_view(r.1@) == spec_matched_items(
            input_leader.1@,
            spec_items_view(sacrifices@),
            sacrifices@.len() as int,
        ),
        spec_items_view(r.2@) == spec_unmatched_items(
            input_leader.1@,
            spec_items_view(sacrifices@),
            sacrifices@.len() as int,
        ),
        spec_items_wf(spec_items_view(r.1@)),
        spec_items_wf(spec_items_view(r.2@)),
{
    let ghost items0 = spec_items_view(sacrifices@);
    let ghost avatars0 = spec_item_avatars(items0);
    let (leader_id, mut leader) = input_leader;
    let ghost leader0 = leader@;

    let mut matches_count: usize = 0;
    let mut no_fit_count: usize = 0;
    let mut souls_sum: u32 = 0;
    let mut matching_score: Vec<u8> = Vec::new();
    let mut matched: Vec<ForgeItem> = Vec::new();
    let mut others: Vec<ForgeItem> = Vec::new();

    let mut leader_progress = read_progress_array(&leader);
    let mut remaining = sacrifices;
    let total_count = remaining.len();
    let ghost total = items0.len();
    let mut i: usize = 0;
    proof {
        assert(remaining@ =~= sacrifices@.skip(0));
    }
    while remaining.len() > 0
        invariant
            leader.wf(),
            leader@ == leader0,
            leader_progress@ == spec_progress_array(leader0),
            leader_progress@.len() == PROGRESS_LENGTH,
            items0 == spec_items_view(sacrifices@),
            avatars0 == spec_item_avatars(items0),
            spec_items_wf(items0),
            total == items0.len(),
            total == sacrifices@.len(),
            total == total_count,
            0 <= i <= total,
            i + remaining@.len() == total,
            remaining@ == sacrifices@.skip(i as int),
            matches_count == spec_match_count(leader0, avatars0, i as int),
            no_fit_count == spec_no_fit_count(leader0, avatars0, i as int),
            matches_count + no_fit_count <= i,
            souls_sum == spec_souls_sum(avatars0, i as int),
            matching_score@ == spec_matching_score(leader0, avatars0, i as int),
            forall|t: int|
                0 <= t < matching_score@.len() ==> (#[trigger] matching_score@[t])
                    < PROGRESS_LENGTH,
            spec_items_view(matched@) == spec_matched_items(leader0, items0, i as int),
            spec_items_view(others@) == spec_unmatched_items(leader0, items0, i as int),
            spec_items_wf(spec_items_view(matched@)),
            spec_items_wf(spec_items_view(others@)),
        decreases remaining@.len(),
    {
        let item = remaining.remove(0);
        proof {
            assert(remaining@ =~= sacrifices@.skip(i as int + 1));
            assert(items0[i as int] == (sacrifices@[i as int].0, sacrifices@[i as int].1@));
            assert(avatars0[i as int] == items0[i as int].1);
            assert(item.0 == sacrifices@[i as int].0);
            assert(item.1@ == sacrifices@[i as int].1@);
        }
        souls_sum = souls_sum.saturating_add(item.1.souls);
        let sacrifice_progress = read_progress_array(&item.1);
        let type_pair: Vec<AvatarAttributes> = vec![
            AvatarAttributes::ItemType,
            AvatarAttributes::ItemSubType,
        ];
        proof {
            assert(type_pair@ =~= seq![AvatarAttributes::ItemType, AvatarAttributes::ItemSubType]);
        }
        match match_progress_arrays(&leader_progress, &sacrifice_progress) {
            Some(matched_indexes) => {
                if has_attribute_set_with_same_values_as(&leader, &item.1, &type_pair) {
                    proof {
                        crate::dna::lemma_match_indexes_bounded(
                            leader_progress@,
                            sacrifice_progress@,
                            PROGRESS_LENGTH as int,
                        );
                    }
                    let mut indexes = matched_indexes;
                    matching_score.append(&mut indexes);
                    matches_count = matches_count + 1;
                    let ghost old_matched = matched@;
                    matched.push(item);
                    proof {
                        assert(spec_items_view(matched@) =~= spec_matched_items(
                            leader0,
                            items0,
                            i as int + 1,
                        ));
                        assert(spec_items_view(others@) =~= spec_unmatched_items(
                            leader0,
                            items0,
                            i as int + 1,
                        ));
                        assert(matching_score@ =~= spec_matching_score(
                            leader0,
                            avatars0,
                            i as int + 1,
                        ));
                    }
                } else {
                    others.push(item);
                    proof {
                        assert(spec_items_view(matched@) =~= spec_matched_items(
                            leader0,
                            items0,
                            i as int + 1,
                        ));
                        assert(spec_items_view(others@) =~= spec_unmatched_items(
                            leader0,
                            items0,
                            i as int + 1,
                        ));
                        assert(matching_score@ =~= spec_matching_score(
                            leader0,
                            avatars0,
                            i as int + 1,
                        ));
                    }
                }
            },
            None => {
                no_fit_count = no_fit_count + 1;
                others.push(item);
                proof {
                    assert(spec_items_view(matched@) =~= spec_matched_items(
                        leader0,
                        items0,
                        i as int + 1,
                    ));
                    assert(spec_items_view(others@) =~= spec_unmatched_items(
                        leader0,
                        items0,
                        i as int + 1,
                    ));
                    assert(matching_score@ =~= spec_matching_score(
                        leader0,
                        avatars0,
                        i as int + 1,
                    ));
                }
            },
        }
        i = i + 1;
    }
    proof {
        assert(i == total);
    }

    let rolls = matches_count + no_fit_count;
    let probability = match_probability(matches_count);
    let ghost m0 = hash_provider@;
    let ghost progress0 = leader_progress@;
    let ghost score0 = matching_score@;
    let mut score = matching_score;
    let mut t: usize = 0;
    while t < rolls && score.len() > 0
        invariant
            hash_provider.wf(),
            0 <= t <= rolls,
            leader_progress@.len() == PROGRESS_LENGTH,
            forall|u: int| 0 <= u < score@.len() ==> (#[trigger] score@[u]) < PROGRESS_LENGTH,
            spec_advance_progress(
                leader_progress@,
                score@,
                probability,
                rolls - t,
                hash_provider@,
            ) == spec_advance_progress(progress0, score0, probability, rolls as int, m0),
        decreases rolls - t,
    {
        let byte = hash_provider.get_hash_byte();
        if byte < probability {
            let idx = (byte as usize) % score.len();
            let pos = score[idx];
            let current = leader_progress[pos as usize];
            leader_progress[pos as usize] = current.saturating_add(0x10);
            score = remove_value(&score, pos);
        }
        t = t + 1;
    }
    proof {
        assert(spec_advance_progress(leader_progress@, score@, probability, rolls - t, hash_provider@)
            == (leader_progress@, hash_provider@));
    }

    write_progress_array(&mut leader, &leader_progress);
    leader.souls = leader.souls.saturating_add(souls_sum);

    ((leader_id, leader), matched, others)
}

/// Builds a consumed outcome for every item of a list.
fn consumed_outputs_of(items: &Vec<ForgeItem>) -> (r: Vec<ForgeOutput>)
    ensures
        spec_outputs_view(r@) == spec_consumed_outputs(spec_items_view(items@)),
        r@.len() == items@.len(),
{
    let mut out: Vec<ForgeOutput> = Vec::new();
    let mut i: usize = 0;
    while i < items.len()
        invariant
            0 <= i <= items@.len(),
            out@.len() == i,
            forall|t: int|
                0 <= t < i ==> (#[trigger] out@[t]) == ForgeOutput::Consumed(items@[t].0),
        decreases items@.len() - i,
    {
        out.push(ForgeOutput::Consumed(items[i].0));
        i = i + 1;
    }
    proof {
        assert forall|t: int| 0 <= t < items@.len() implies spec_outputs_view(out@)[t]
            == spec_consumed_outputs(spec_items_view(items@))[t] by {
            assert(out@[t] == ForgeOutput::Consumed(items@[t].0));
            assert(spec_items_view(items@)[t] == (items@[t].0, items@[t].1@));
        }
        assert(spec_outputs_view(out@) =~= spec_consumed_outputs(spec_items_view(items@)));
    }
    out
}

/// Whether an avatar is an armor-base equipable.
pub open spec fn spec_is_armor_base_item(a: AvatarModel) -> bool {
    spec_read_attribute(a, AvatarAttributes::ItemType) == ItemType::Equipable.spec_byte()
        && spec_read_attribute(a, AvatarAttributes::ItemSubType)
        == EquipableItemType::ArmorBase.spec_byte()
}

/// The first armor-base avatar among the items at or after position `i`.
pub open spec fn spec_first_armor_base(items: Seq<(AvatarId, AvatarModel)>, i: int) -> Option<
    AvatarModel,
>
    decreases items.len() - i,
{
    if i < 0 || i >= items.len() {
        None
    } else if spec_is_armor_base_item(items[i].1) {
        Some(items[i].1)
    } else {
        spec_first_armor_base(items, i + 1)
    }
}

/// Finds the first armor-base avatar in a list of items.
fn find_armor_base(items: &Vec<ForgeItem>) -> (r: Option<usize>)
    requires
        spec_items_wf(spec_items_view(items@)),
    ensures
        match r {
            Some(i) => i < items@.len() && spec_first_armor_base(spec_items_view(items@), 0)
                == Some(spec_items_view(items@)[i as int].1),
            None => spec_first_armor_base(spec_items_view(items@), 0) is None,
        },
{
    let ghost models = spec_items_view(items@);
    let mut i: usize = 0;
    while i < items.len()
        invariant
            spec_items_wf(spec_items_view(items@)),
            models == spec_items_view(items@),
            0 <= i <= items@.len(),
            spec_first_armor_base(models, 0) == spec_first_armor_base(models, i as int),
        decreases items@.len() - i,
    {
        proof {
            assert(models[i as int].1 == items@[i as int].1@);
            assert(models[i as int].1.wf());
        }
        let is_base = has_attribute_with_value(
            &items[i].1,
            AvatarAttributes::ItemType,
            ItemType::Equipable,
        ) && has_attribute_with_value(
            &items[i].1,
            AvatarAttributes::ItemSubType,
            EquipableItemType::ArmorBase,
        );
        if is_base {
            return Some(i);
        }
        i = i + 1;
    }
    None
}

/// What an assemble forge yields: after the match pass, the leader's
/// derived rarity (its lowest progress tier) is written back; an
/// armor-base leader still at that rarity additionally absorbs the
/// armor-assembly bitmask (spec byte 1) of the first matched armor-base
/// sacrifice; all sacrifices are consumed, scored group first.
pub open spec fn spec_assemble_avatars(
    leader_item: (AvatarId, AvatarModel),
    items: Seq<(AvatarId, AvatarModel)>,
    m: ProviderModel,
) -> ((LeaderForgeOutputModel, Seq<ForgeOutputModel>), ProviderModel) {
    let avatars = spec_item_avatars(items);
    let (leader_1, m1) = spec_match_avatars(leader_item.1, avatars, m);
    let rarity = RarityType::spec_from_byte(
        spec_lowest_progress_byte(
            spec_progress_array(leader_1),
            ByteType::High,
            PROGRESS_LENGTH as int,
        ),
    );
    let matched = spec_matched_items(leader_item.1, items, items.len() as int);
    let unmatched = spec_unmatched_items(leader_item.1, items, items.len() as int);
    let leader_2 = if spec_is_armor_base_item(leader_1) && spec_read_attribute(
        leader_1,
        AvatarAttributes::RarityType,
    ) == rarity.spec_byte() {
        match spec_first_armor_base(matched, 0) {
            Some(sacrifice) => spec_write_spec_byte(
                leader_1,
                AvatarSpecBytes::SpecByte1,
                spec_read_spec_byte(sacrifice, AvatarSpecBytes::SpecByte1),
            ),
            None => leader_1,
        }
    } else {
        leader_1
    };
    let leader_3 = spec_write_attribute(leader_2, AvatarAttributes::RarityType, rarity.spec_byte());
    let outputs = spec_consumed_outputs(matched) + spec_consumed_outputs(unmatched);
    ((LeaderForgeOutputModel::Forged(leader_item.0, leader_3, 0), outputs), m1)
}

/// Runs an assemble forge.  Never fails.
pub fn assemble_avatars(
    input_leader: ForgeItem,
    input_sacrifices: Vec<ForgeItem>,
    hash_provider: &mut HashProvider,
) -> (r: Result<(LeaderForgeOutput, Vec<ForgeOutput>), AvatarError>)
    requires
        input_leader.1.wf(),
        spec_items_wf(spec_items_view(input_sacrifices@)),
        old(hash_provider).wf(),
    ensures
        final(hash_provider).wf(),
        ({
            let ((leader_out, outputs), m1) = spec_assemble_avatars(
                (input_leader.0, input_leader.1@),
                spec_items_view(input_sacrifices@),
                old(hash_provider)@,
            );
            r matches Ok(v) && v.0@ == leader_out && spec_outputs_view(v.1@) == outputs
                && final(hash_provider)@ == m1
        }),
{
    let ghost items0 = spec_items_view(input_sacrifices@);
    let (mut leader_item, matched, others) = match_avatars(
        input_leader,
        input_sacrifices,
        hash_provider,
    );

    let leader_progress = read_progress_array(&leader_item.1);
    let rarity: RarityType = RarityType::from_byte(
        read_lowest_progress_byte(&leader_progress, ByteType::High),
    );

    if has_attribute_with_value(&leader_item.1, AvatarAttributes::ItemType, ItemType::Equipable)
        && has_attribute_with_value(
        &leader_item.1,
        AvatarAttributes::ItemSubType,
        EquipableItemType::ArmorBase,
    ) && has_attribute_with_value(&leader_item.1, AvatarAttributes::RarityType, rarity) {
        match find_armor_base(&matched) {
            Some(i) => {
                proof {
                    assert(spec_items_view(matched@)[i as int].1.wf());
                }
                let sacrifice_spec_byte = read_spec_byte(&matched[i].1, AvatarSpecBytes::SpecByte1);
                write_spec_byte(
                    &mut leader_item.1,
                    AvatarSpecBytes::SpecByte1,
                    sacrifice_spec_byte,
                );
            },
            None => {},
        }
    }

    write_attribute(&mut leader_item.1, AvatarAttributes::RarityType, rarity.into_byte());

    let mut output_vec = consumed_outputs_of(&matched);
    let mut others_consumed = consumed_outputs_of(&others);
    let ghost first_part = spec_outputs_view(output_vec@);
    let ghost second_part = spec_outputs_view(others_consumed@);
    output_vec.append(&mut others_consumed);
    proof {
        assert(spec_outputs_view(output_vec@) =~= first_part + second_part);
    }

    Ok((LeaderForgeOutput::Forged(leader_item, 0), output_vec))
}

/// What a breed forge yields: after the match pass, a leader egg that
/// reached the legendary tier hatches — one provider byte picks a pet
/// class from the egg's bit-encoded candidate set (an empty set leaves
/// the egg unhatched) — and the derived rarity is written back; all
/// sacrifices are consumed, scored group first.
pub open spec fn spec_breed_avatars(
    leader_item: (AvatarId, AvatarModel),
    items: Seq<(AvatarId, AvatarModel)>,
    m: ProviderModel,
) -> ((LeaderForgeOutputModel, Seq<ForgeOutputModel>), ProviderModel) {
    let avatars = spec_item_avatars(items);
    let (leader_1, m1) = spec_match_avatars(leader_item.1, avatars, m);
    let rarity = RarityType::spec_from_byte(
        spec_lowest_progress_byte(
            spec_progress_array(leader_1),
            ByteType::High,
            PROGRESS_LENGTH as int,
        ),
    );
    let matched = spec_matched_items(leader_item.1, items, items.len() as int);
    let unmatched = spec_unmatched_items(leader_item.1, items, items.len() as int);
    let hatching = rarity == RarityType::Legendary && spec_read_attribute(
        leader_1,
        AvatarAttributes::ItemType,
    ) == ItemType::Pet.spec_byte() && spec_read_attribute(leader_1, AvatarAttributes::ItemSubType)
        == PetItemType::Egg.spec_byte();
    let pet_list = spec_bits_to_enums::<PetType>(
        spec_read_attribute(leader_1, AvatarAttributes::CustomType2),
    );
    let (leader_2, m2) = if hatching && pet_list.len() > 0 {
        let (byte, m2) = spec_get_hash_byte(m1);
        let pet_type = pet_list[(byte as int) % (pet_list.len() as int)];
        let with_class = spec_write_attribute(
            leader_1,
            AvatarAttributes::ClassType2,
            pet_type.spec_byte(),
        );
        (
            spec_write_attribute(
                with_class,
                AvatarAttributes::ItemSubType,
                PetItemType::Pet.spec_byte(),
            ),
            m2,
        )
    } else {
        (leader_1, m1)
    };
    let leader_3 = spec_write_attribute(leader_2, AvatarAttributes::RarityType, rarity.spec_byte());
    let outputs = spec_consumed_outputs(matched) + spec_consumed_outputs(unmatched);
    ((LeaderForgeOutputModel::Forged(leader_item.0, leader_3, 0), outputs), m2)
}

/// Runs a breed forge.  Never fails.
pub fn breed_avatars(
    input_leader: ForgeItem,
    input_sacrifices: Vec<ForgeItem>,
    hash_provider: &mut HashProvider,
) -> (r: Result<(LeaderForgeOutput, Vec<ForgeOutput>), AvatarError>)
    requires
        input_leader.1.wf(),
        spec_items_wf(spec_items_view(input_sacrifices@)),
        old(hash_provider).wf(),
    ensures
        final(hash_provider).wf(),
        ({
            let ((leader_out, outputs), m2) = spec_breed_avatars(
                (input_leader.0, input_leader.1@),
                spec_items_view(input_sacrifices@),
                old(hash_provider)@,
            );
            r matches Ok(v) && v.0@ == leader_out && spec_outputs_view(v.1@) == outputs
                && final(hash_provider)@ == m2
        }),
{
    let (mut leader_item, matched, others) = match_avatars(
        input_leader,
        input_sacrifices,
        hash_provider,
    );

    let leader_progress = read_progress_array(&leader_item.1);
    let rarity: RarityType = RarityType::from_byte(
        read_lowest_progress_byte(&leader_progress, ByteType::High),
    );

    let hatching = rarity == RarityType::Legendary && has_attribute_with_value(
        &leader_item.1,
        AvatarAttributes::ItemType,
        ItemType::Pet,
    ) && has_attribute_with_value(&leader_item.1, AvatarAttributes::ItemSubType, PetItemType::Egg);
    if hatching {
        let pet_type_list: Vec<PetType> = bits_to_enums(
            read_attribute(&leader_item.1, AvatarAttributes::CustomType2),
        );
        if pet_type_list.len() > 0 {
            let byte = hash_provider.get_hash_byte();
            let pet_type = pet_type_list[(byte as usize) % pet_type_list.len()];
            write_attribute(&mut leader_item.1, AvatarAttributes::ClassType2, pet_type.into_byte());
            write_attribute(
                &mut leader_item.1,
                AvatarAttributes::ItemSubType,
                PetItemType::Pet.into_byte(),
            );
        }
    }

    write_attribute(&mut leader_item.1, AvatarAttributes::RarityType, rarity.into_byte());

    let mut output_vec = consumed_outputs_of(&matched);
    let mut others_consumed = consumed_outputs_of(&others);
    let ghost first_part = spec_outputs_view(output_vec@);
    let ghost second_part = spec_outputs_view(others_consumed@);
    output_vec.append(&mut others_consumed);
    proof {
        assert(spec_outputs_view(output_vec@) =~= first_part + second_part);
    }

    Ok((LeaderForgeOutput::Forged(leader_item, 0), output_vec))
}

/// How many equipment slots may hold a piece at once.
pub const MAX_EQUIPPED_SLOTS: u8 = 6;

/// How many of the first `n` snapshot slots are occupied (nonzero).
pub open spec fn spec_filled_count(snapshot: Seq<u8>, n: int) -> int
    decreases n,
{
    if n <= 0 {
        0
    } else {
        spec_filled_count(snapshot, n - 1) + (if snapshot[n - 1] > 0 {
            1int
        } else {
            0int
        })
    }
}

/// The leader's spec bytes after equipping the first `n` sacrifices:
/// each sacrifice targets the slot its `ClassType1` names and overwrites
/// it with its own spec byte 1, unless the slot was occupied while the
/// snapshot already held the maximum of filled slots.
pub open spec fn spec_equip_bytes(
    snapshot: Seq<u8>,
    filled: int,
    avatars: Seq<AvatarModel>,
    bytes: Seq<u8>,
    n: int,
) -> Seq<u8>
    decreases n,
{
    if n <= 0 {
        bytes
    } else {
        let prev = spec_equip_bytes(snapshot, filled, avatars, bytes, n - 1);
        let sacrifice = avatars[n - 1];
        let slot = spec_read_attribute(sacrifice, AvatarAttributes::ClassType1) as int;
        let slot_empty = snapshot[slot] == 0;
        if !slot_empty && filled >= MAX_EQUIPPED_SLOTS {
            prev
        } else {
            prev.update(slot, spec_read_spec_byte(sacrifice, AvatarSpecBytes::SpecByte1))
        }
    }
}

/// What an equip forge yields: each sacrifice's spec byte 1 is written
/// into the leader's equipment slot named by the sacrifice's
/// `ClassType1` (occupied slots stay untouched once the slot snapshot is
/// full), every sacrifice's souls are absorbed, and all sacrifices are
/// consumed.  The provider is not drawn from.
pub open spec fn spec_equip_avatars(
    leader_item: (AvatarId, AvatarModel),
    items: Seq<(AvatarId, AvatarModel)>,
) -> (LeaderForgeOutputModel, Seq<ForgeOutputModel>) {
    let avatars = spec_item_avatars(items);
    let leader = leader_item.1;
    let bytes = spec_full_spec_bytes(leader);
    let snapshot = bytes.map(|i: int, b: u8| b & 0xf0);
    let filled = spec_filled_count(snapshot, SPEC_BYTES_COUNT as int);
    let equipped = spec_equip_bytes(snapshot, filled, avatars, bytes, avatars.len() as int);
    let leader_1 = spec_write_full_spec_bytes(leader, equipped);
    let leader_2 = spec_with_souls(
        leader_1,
        sat_add_u32(leader.souls, spec_souls_sum(avatars, avatars.len() as int)),
    );
    (
        LeaderForgeOutputModel::Forged(leader_item.0, leader_2, 0),
        spec_consumed_outputs(items),
    )
}

/// Runs an equip forge.  Never fails.
pub fn equip_avatars(
    input_leader: ForgeItem,
    input_sacrifices: Vec<ForgeItem>,
    hash_provider: &mut HashProvider,
) -> (r: Result<(LeaderForgeOutput, Vec<ForgeOutput>), AvatarError>)
    requires
        input_leader.1.wf(),
        spec_items_wf(spec_items_view(input_sacrifices@)),
        old(hash_provider).wf(),
    ensures
        final(hash_provider)@ == old(hash_provider)@,
        final(hash_provider).wf(),
        ({
            let (leader_out, outputs) = spec_equip_avatars(
                (input_leader.0, input_leader.1@),
                spec_items_view(input_sacrifices@),
            );
            r matches Ok(v) && v.0@ == leader_out && spec_outputs_view(v.1@) == outputs
        }),
{
    let ghost items0 = spec_items_view(input_sacrifices@);
    let ghost avatars0 = spec_item_avatars(items0);
    let (leader_id, mut leader) = input_leader;
    let ghost leader0 = leader@;

    let mut leader_spec_bytes = read_full_spec_bytes(&leader);
    let mut snapshot: Vec<u8> = Vec::new();
    let mut i: usize = 0;
    while i < leader_spec_bytes.len()
        invariant
            leader_spec_bytes@ == spec_full_spec_bytes(leader0),
            leader_spec_bytes@.len() == SPEC_BYTES_COUNT,
            0 <= i <= leader_spec_bytes@.len(),
            snapshot@.len() == i,
            forall|t: int| 0 <= t < i ==> snapshot@[t] == (leader_spec_bytes@[t] & 0xf0),
        decreases leader_spec_bytes@.len() - i,
    {
        snapshot.push(leader_spec_bytes[i] & 0xf0);
        i = i + 1;
    }
    let ghost snapshot_spec = spec_full_spec_bytes(leader0).map(|t: int, b: u8| b & 0xf0);
    proof {
        assert(snapshot@ =~= snapshot_spec);
    }

    let mut filled_slots: usize = 0;
    let mut k: usize = 0;
    while k < snapshot.len()
        invariant
            snapshot@ == snapshot_spec,
            snapshot@.len() == SPEC_BYTES_COUNT,
            0 <= k <= snapshot@.len(),
            filled_slots == spec_filled_count(snapshot@, k as int),
            filled_slots <= k,
        decreases snapshot@.len() - k,
    {
        if snapshot[k] > 0 {
            filled_slots = filled_slots + 1;
        }
        k = k + 1;
    }
    let ghost filled = spec_filled_count(snapshot_spec, SPEC_BYTES_COUNT as int);

    let mut new_souls: u32 = 0;
    let mut j: usize = 0;
    while j < input_sacrifices.len()
        invariant
            items0 == spec_items_view(input_sacrifices@),
            avatars0 == spec_item_avatars(items0),
            spec_items_wf(items0),
            snapshot@ == snapshot_spec,
            snapshot@.len() == SPEC_BYTES_COUNT,
            filled == spec_filled_count(snapshot_spec, SPEC_BYTES_COUNT as int),
            filled_slots == filled,
            0 <= j <= input_sacrifices@.len(),
            new_souls == spec_souls_sum(avatars0, j as int),
            leader_spec_bytes@ == spec_equip_bytes(
                snapshot_spec,
                filled,
                avatars0,
                spec_full_spec_bytes(leader0),
                j as int,
            ),
            leader_spec_bytes@.len() == SPEC_BYTES_COUNT,
        decreases input_sacrifices@.len() - j,
    {
        proof {
            assert(items0[j as int] == (input_sacrifices@[j as int].0, input_sacrifices@[j as int].1@));
            assert(avatars0[j as int] == items0[j as int].1);
            assert(items0[j as int].1.wf());
        }
        let sacrifice = &input_sacrifices[j].1;
        new_souls = new_souls.saturating_add(sacrifice.souls);

        proof {
            crate::dna::lemma_nibble_read_bound(sacrifice@, AvatarAttributes::ClassType1);
        }
        let slot_type = read_attribute(sacrifice, AvatarAttributes::ClassType1) as usize;
        let slot_empty = snapshot[slot_type] == 0;
        if !slot_empty && filled_slots >= MAX_EQUIPPED_SLOTS as usize {
            // The slot is occupied and the leader is already at its slot
            // cap: the sacrifice's piece is dropped, its souls stay.
        } else {
            let piece = read_spec_byte(sacrifice, AvatarSpecBytes::SpecByte1);
            leader_spec_bytes[slot_type] = piece;
        }
        j = j + 1;
    }

    write_full_spec_bytes(&mut leader, &leader_spec_bytes);
    leader.souls = leader.souls.saturating_add(new_souls);

    let output_vec = consumed_outputs_of(&input_sacrifices);

    Ok((LeaderForgeOutput::Forged((leader_id, leader), 0), output_vec))
}

/// The material subtypes of the first `n` sacrifices, in order.
pub open spec fn spec_material_pattern(avatars: Seq<AvatarModel>, n: int) -> Seq<MaterialItemType>
    decreases n,
{
    if n <= 0 {
        Seq::empty()
    } else {
        spec_material_pattern(avatars, n - 1).push(
            MaterialItemType::spec_from_byte(
                spec_read_attribute(avatars[n - 1], AvatarAttributes::ItemSubType),
            ),
        )
    }
}

/// One of a leader's stored material patterns: the set byte unpacked,
/// then reordered by the order byte.
pub open spec fn spec_pattern_of(
    leader: AvatarModel,
    set_byte: AvatarSpecBytes,
    order_byte: AvatarSpecBytes,
) -> Seq<MaterialItemType> {
    spec_bits_order_to_enum::<MaterialItemType>(
        spec_read_spec_byte(leader, order_byte),
        spec_bits_to_enums::<MaterialItemType>(spec_read_spec_byte(leader, set_byte)),
    )
}

/// Whether every one of the first `n` sacrifices holds at least one
/// quantity unit.
pub open spec fn spec_all_usable(avatars: Seq<AvatarModel>, n: int) -> bool {
    forall|i: int|
        0 <= i < n ==> spec_read_attribute(#[trigger] avatars[i], AvatarAttributes::Quantity) >= 1
}

/// Consuming one unit of each of the first `n` sacrifices: the
/// outcomes (consumed when the quantity hits zero, forged otherwise)
/// and the soul points released, summed saturating.
pub open spec fn spec_tinker_consume(items: Seq<(AvatarId, AvatarModel)>, n: int) -> (
    Seq<ForgeOutputModel>,
    u32,
)
    decreases n,
{
    if n <= 0 {
        (Seq::empty(), 0u32)
    } else {
        let (rest, souls) = spec_tinker_consume(items, n - 1);
        let (id, avatar) = items[n - 1];
        let (used, released, after) = spec_use_avatar(avatar, 1);
        let output = if spec_read_attribute(after, AvatarAttributes::Quantity) == 0 {
            ForgeOutputModel::Consumed(id)
        } else {
            ForgeOutputModel::Forged(id, after, 0)
        };
        (rest.push(output), sat_add_u32(souls, released))
    }
}

/// Every sacrifice handed back unchanged, as a forged outcome.
pub open spec fn spec_forged_unchanged_outputs(items: Seq<(AvatarId, AvatarModel)>) -> Seq<
    ForgeOutputModel,
> {
    items.map(|i: int, p: (AvatarId, AvatarModel)| ForgeOutputModel::Forged(p.0, p.1, 0))
}

/// The equipable subtype a tinker mints, by which stored pattern the
/// sacrifices matched.
pub open spec fn spec_tinker_target(f1: bool, f2: bool, f3: bool) -> EquipableItemType {
    if f1 {
        EquipableItemType::ArmorBase
    } else if f2 {
        EquipableItemType::ArmorComponent1
    } else if f3 {
        EquipableItemType::ArmorComponent2
    } else {
        EquipableItemType::ArmorComponent3
    }
}

/// What a tinker forge yields.  When the sacrifices' material pattern
/// equals one of the leader's four stored patterns and every sacrifice
/// has a unit to spend, one unit of each sacrifice is consumed and a
/// blueprint carrying the pattern, the matched target piece, the
/// leader's classes and the released souls is minted; released souls
/// beyond one byte are an unsupported outcome.  Otherwise every
/// sacrifice is handed back unchanged.
pub open spec fn spec_tinker_avatars(
    leader_item: (AvatarId, AvatarModel),
    items: Seq<(AvatarId, AvatarModel)>,
    season_id: SeasonId,
    m: ProviderModel,
) -> Result<((LeaderForgeOutputModel, Seq<ForgeOutputModel>), ProviderModel), AvatarError> {
    let leader = leader_item.1;
    let avatars = spec_item_avatars(items);
    let n = avatars.len() as int;
    let pattern = spec_material_pattern(avatars, n);
    let f1 = pattern == spec_pattern_of(leader, AvatarSpecBytes::SpecByte1, AvatarSpecBytes::SpecByte2);
    let f2 = pattern == spec_pattern_of(leader, AvatarSpecBytes::SpecByte3, AvatarSpecBytes::SpecByte4);
    let f3 = pattern == spec_pattern_of(leader, AvatarSpecBytes::SpecByte5, AvatarSpecBytes::SpecByte6);
    let f4 = pattern == spec_pattern_of(leader, AvatarSpecBytes::SpecByte7, AvatarSpecBytes::SpecByte8);
    let leader_out = LeaderForgeOutputModel::Forged(leader_item.0, leader, 0);
    if (f1 || f2 || f3 || f4) && spec_all_usable(avatars, n) {
        let (outputs, soul_points) = spec_tinker_consume(items, n);
        if soul_points > 255 {
            Err(AvatarError::UnsupportedForgeOutcome)
        } else {
            let pet_type = PetType::spec_from_byte(
                spec_read_attribute(leader, AvatarAttributes::ClassType2),
            );
            let slot_type = SlotType::spec_from_byte(
                spec_read_attribute(leader, AvatarAttributes::ClassType1),
            );
            let (dna, m1) = spec_full_hash(m, 7);
            let base = AvatarModel { season_id, version: AvatarVersion::V2, dna, souls: 0u32 };
            let blueprint = spec_into_blueprint(
                base,
                BlueprintItemType::Blueprint,
                pet_type,
                slot_type,
                spec_tinker_target(f1, f2, f3),
                pattern,
                soul_points,
            );
            Ok(((leader_out, outputs.push(ForgeOutputModel::Minted(blueprint))), m1))
        }
    } else {
        Ok(((leader_out, spec_forged_unchanged_outputs(items)), m))
    }
}

/// Compares two material patterns.
fn material_pattern_eq(a: &Vec<MaterialItemType>, b: &Vec<MaterialItemType>) -> (r: bool)
    ensures
        r == (a@ == b@),
{
    if a.len() != b.len() {
        proof {
            assert(a@.len() != b@.len());
        }
        return false;
    }
    let mut i: usize = 0;
    while i < a.len()
        invariant
            a@.len() == b@.len(),
            0 <= i <= a@.len(),
            forall|t: int| 0 <= t < i ==> a@[t] == b@[t],
        decreases a@.len() - i,
    {
        if a[i] != b[i] {
            return false;
        }
        i = i + 1;
    }
    proof {
        assert(a@ =~= b@);
    }
    true
}

/// Reads the sacrifices' material pattern.
fn material_pattern(sacrifices: &Vec<ForgeItem>) -> (r: Vec<MaterialItemType>)
    requires
        spec_items_wf(spec_items_view(sacrifices@)),
    ensures
        r@ == spec_material_pattern(
            spec_item_avatars(spec_items_view(sacrifices@)),
            sacrifices@.len() as int,
        ),
        r@.len() == sacrifices@.len(),
{
    let ghost avatars = spec_item_avatars(spec_items_view(sacrifices@));
    let mut out: Vec<MaterialItemType> = Vec::new();
    let mut i: usize = 0;
    while i < sacrifices.len()
        invariant
            spec_items_wf(spec_items_view(sacrifices@)),
            avatars == spec_item_avatars(spec_items_view(sacrifices@)),
            0 <= i <= sacrifices@.len(),
            out@ == spec_material_pattern(avatars, i as int),
            out@.len() == i,
        decreases sacrifices@.len() - i,
    {
        proof {
            assert(spec_items_view(sacrifices@)[i as int].1.wf());
            assert(avatars[i as int] == sacrifices@[i as int].1@);
        }
        let material: MaterialItemType = crate::dna::read_attribute_as(
            &sacrifices[i].1,
            AvatarAttributes::ItemSubType,
        );
        out.push(material);
        i = i + 1;
    }
    out
}

/// Reads one of the leader's stored material patterns.
fn pattern_of(leader: &Avatar, set_byte: AvatarSpecBytes, order_byte: AvatarSpecBytes) -> (r: Vec<
    MaterialItemType,
>)
    requires
        leader.wf(),
    ensures
        r@ == spec_pattern_of(leader@, set_byte, order_byte),
        r@.len() <= 4,
{
    let unordered: Vec<MaterialItemType> = bits_to_enums(read_spec_byte(leader, set_byte));
    bits_order_to_enum(read_spec_byte(leader, order_byte), unordered)
}

/// Runs a tinker forge.
pub fn tinker_avatars(
    input_leader: ForgeItem,
    input_sacrifices: Vec<ForgeItem>,
    season_id: SeasonId,
    hash_provider: &mut HashProvider,
) -> (r: Result<(LeaderForgeOutput, Vec<ForgeOutput>), AvatarError>)
    requires
        input_leader.1.wf(),
        spec_items_wf(spec_items_view(input_sacrifices@)),
        old(hash_provider).wf(),
    ensures
        final(hash_provider).wf(),
        ({
            let outcome = spec_tinker_avatars(
                (input_leader.0, input_leader.1@),
                spec_items_view(input_sacrifices@),
                season_id,
                old(hash_provider)@,
            );
            match outcome {
                Ok(((leader_out, outputs), m1)) => r matches Ok(v) && v.0@ == leader_out
                    && spec_outputs_view(v.1@) == outputs && final(hash_provider)@ == m1,
                Err(e) => r == Err::<(LeaderForgeOutput, Vec<ForgeOutput>), AvatarError>(e)
                    && final(hash_provider)@ == old(hash_provider)@,
            }
        }),
{
    let ghost items0 = spec_items_view(input_sacrifices@);
    let ghost avatars0 = spec_item_avatars(items0);

    let sacrifice_pattern = material_pattern(&input_sacrifices);
    let pattern_1 = pattern_of(&input_leader.1, AvatarSpecBytes::SpecByte1, AvatarSpecBytes::SpecByte2);
    let pattern_2 = pattern_of(&input_leader.1, AvatarSpecBytes::SpecByte3, AvatarSpecBytes::SpecByte4);
    let pattern_3 = pattern_of(&input_leader.1, AvatarSpecBytes::SpecByte5, AvatarSpecBytes::SpecByte6);
    let pattern_4 = pattern_of(&input_leader.1, AvatarSpecBytes::SpecByte7, AvatarSpecBytes::SpecByte8);
    let pat_1_flag = material_pattern_eq(&sacrifice_pattern, &pattern_1);
    let pat_2_flag = material_pattern_eq(&sacrifice_pattern, &pattern_2);
    let pat_3_flag = material_pattern_eq(&sacrifice_pattern, &pattern_3);
    let pat_4_flag = material_pattern_eq(&sacrifice_pattern, &pattern_4);

    let mut all_usable = true;
    let mut u: usize = 0;
    while u < input_sacrifices.len()
        invariant
            items0 == spec_items_view(input_sacrifices@),
            avatars0 == spec_item_avatars(items0),
            spec_items_wf(items0),
            0 <= u <= input_sacrifices@.len(),
            all_usable == spec_all_usable(avatars0, u as int),
        decreases input_sacrifices@.len() - u,
    {
        proof {
            assert(items0[u as int].1.wf());
            assert(avatars0[u as int] == input_sacrifices@[u as int].1@);
        }
        if !can_use_avatar(&input_sacrifices[u].1, 1) {
            all_usable = false;
        }
        u = u + 1;
    }

    let correct_pattern = (pat_1_flag || pat_2_flag || pat_3_flag || pat_4_flag) && all_usable;

    if correct_pattern {
        let mut output_sacrifices: Vec<ForgeOutput> = Vec::new();
        let mut soul_points: u32 = 0;
        let mut remaining = input_sacrifices;
        let total_count = remaining.len();
        let mut i: usize = 0;
        proof {
            assert(remaining@ =~= remaining@.skip(0));
        }
        let ghost sacrifices0 = remaining@;
        while remaining.len() > 0
            invariant
                items0 == spec_items_view(sacrifices0),
                spec_items_wf(items0),
                total_count == items0.len(),
                total_count == sacrifices0.len(),
                0 <= i <= total_count,
                i + remaining@.len() == total_count,
                remaining@ == sacrifices0.skip(i as int),
                spec_outputs_view(output_sacrifices@) == spec_tinker_consume(items0, i as int).0,
                soul_points == spec_tinker_consume(items0, i as int).1,
            decreases remaining@.len(),
        {
            let mut item = remaining.remove(0);
            proof {
                assert(remaining@ =~= sacrifices0.skip(i as int + 1));
                assert(items0[i as int] == (sacrifices0[i as int].0, sacrifices0[i as int].1@));
                assert(item.1@ == sacrifices0[i as int].1@);
                assert(items0[i as int].1.wf());
            }
            let (_, released) = use_avatar(&mut item.1, 1);
            soul_points = soul_points.saturating_add(released);
            if read_attribute(&item.1, AvatarAttributes::Quantity) == 0 {
                output_sacrifices.push(ForgeOutput::Consumed(item.0));
            } else {
                output_sacrifices.push(ForgeOutput::Forged(item, 0));
            }
            proof {
                assert(spec_outputs_view(output_sacrifices@) =~= spec_tinker_consume(
                    items0,
                    i as int + 1,
                ).0);
            }
            i = i + 1;
        }

        if soul_points > 255 {
            return Err(AvatarError::UnsupportedForgeOutcome);
        }

        let pet_type: PetType = crate::dna::read_attribute_as(
            &input_leader.1,
            AvatarAttributes::ClassType2,
        );
        let slot_type: SlotType = crate::dna::read_attribute_as(
            &input_leader.1,
            AvatarAttributes::ClassType1,
        );
        let equipable_item_type = if pat_1_flag {
            EquipableItemType::ArmorBase
        } else if pat_2_flag {
            EquipableItemType::ArmorComponent1
        } else if pat_3_flag {
            EquipableItemType::ArmorComponent2
        } else {
            EquipableItemType::ArmorComponent3
        };

        let dna = match generate_base_avatar_dna(hash_provider) {
            Ok(dna) => dna,
            Err(e) => {
                return Err(e);
            },
        };
        let generated_blueprint = AvatarBuilder::with_dna(season_id, dna).into_blueprint(
            BlueprintItemType::Blueprint,
            pet_type,
            slot_type,
            equipable_item_type,
            &sacrifice_pattern,
            soul_points,
        ).build();
        let ghost blueprint_model = generated_blueprint@;
        output_sacrifices.push(ForgeOutput::Minted(generated_blueprint));
        proof {
            assert(spec_outputs_view(output_sacrifices@) =~= spec_tinker_consume(
                items0,
                total_count as int,
            ).0.push(ForgeOutputModel::Minted(blueprint_model)));
        }

        Ok((LeaderForgeOutput::Forged(input_leader, 0), output_sacrifices))
    } else {
        let mut output_sacrifices: Vec<ForgeOutput> = Vec::new();
        let mut remaining = input_sacrifices;
        let total_count = remaining.len();
        let mut i: usize = 0;
        proof {
            assert(remaining@ =~= remaining@.skip(0));
        }
        let ghost sacrifices0 = remaining@;
        while remaining.len() > 0
            invariant
                items0 == spec_items_view(sacrifices0),
                total_count == items0.len(),
                total_count == sacrifices0.len(),
                0 <= i <= total_count,
                i + remaining@.len() == total_count,
                remaining@ == sacrifices0.skip(i as int),
                output_sacrifices@.len() == i,
                forall|t: int|
                    0 <= t < i ==> (#[trigger] spec_outputs_view(output_sacrifices@)[t])
                        == spec_forged_unchanged_outputs(items0)[t],
            decreases remaining@.len(),
        {
            let item = remaining.remove(0);
            proof {
                assert(remaining@ =~= sacrifices0.skip(i as int + 1));
                assert(items0[i as int] == (sacrifices0[i as int].0, sacrifices0[i as int].1@));
                assert(item.1@ == sacrifices0[i as int].1@);
                assert(item.0 == sacrifices0[i as int].0);
            }
            let ghost prev_outputs = output_sacrifices@;
            let ghost item_model = (item.0, item.1@);
            output_sacrifices.push(ForgeOutput::Forged(item, 0));
            proof {
                assert forall|t: int| 0 <= t < i + 1 implies (#[trigger] spec_outputs_view(
                    output_sacrifices@,
                )[t]) == spec_forged_unchanged_outputs(items0)[t] by {
                    if t < i {
                        assert(output_sacrifices@[t] == prev_outputs[t]);
                        assert(spec_outputs_view(prev_outputs)[t]
                            == spec_forged_unchanged_outputs(items0)[t]);
                    } else {
                        assert(spec_outputs_view(output_sacrifices@)[t]
                            == ForgeOutputModel::Forged(item_model.0, item_model.1, 0));
                    }
                }
            }
            i = i + 1;
        }
        proof {
            assert(spec_outputs_view(output_sacrifices@) =~= spec_forged_unchanged_outputs(items0));
        }
        Ok((LeaderForgeOutput::Forged(input_leader, 0), output_sacrifices))
    }
}

/// How many minting rounds a build forge rolls.
pub const MAX_BUILD_ROUNDS: u8 = 6;

/// How much the build threshold decays per round (about 0.15 of a full
/// byte).
pub const BUILD_PROBABILITY_DECAY: u8 = 38;

/// The per-position required quantities of a build: one unit of the
/// first material, then the leader's stored requirement bytes.
pub open spec fn spec_build_quantities(leader: AvatarModel) -> Seq<u8> {
    seq![
        1u8,
        spec_read_spec_byte(leader, AvatarSpecBytes::SpecByte4),
        spec_read_spec_byte(leader, AvatarSpecBytes::SpecByte5),
        spec_read_spec_byte(leader, AvatarSpecBytes::SpecByte6),
        spec_read_spec_byte(leader, AvatarSpecBytes::SpecByte7),
    ]
}

/// Whether each of the first `n` sacrifices holds its required
/// quantity.
pub open spec fn spec_build_usable(avatars: Seq<AvatarModel>, quantities: Seq<u8>, n: int) -> bool {
    forall|i: int|
        0 <= i < n ==> spec_read_attribute(#[trigger] avatars[i], AvatarAttributes::Quantity)
            >= quantities[i]
}

/// Consuming each sacrifice's required quantity: the outcomes and the
/// released soul points, summed saturating.
pub open spec fn spec_build_consume(
    items: Seq<(AvatarId, AvatarModel)>,
    quantities: Seq<u8>,
    n: int,
) -> (Seq<ForgeOutputModel>, u32)
    decreases n,
{
    if n <= 0 {
        (Seq::empty(), 0u32)
    } else {
        let (rest, souls) = spec_build_consume(items, quantities, n - 1);
        let (id, avatar) = items[n - 1];
        let (used, released, after) = spec_use_avatar(avatar, quantities[n - 1]);
        let output = if spec_read_attribute(after, AvatarAttributes::Quantity) == 0 {
            ForgeOutputModel::Consumed(id)
        } else {
            ForgeOutputModel::Forged(id, after, 0)
        };
        (rest.push(output), sat_add_u32(souls, released))
    }
}

/// The minting rounds of a build: each round draws one byte and, while
/// soul points remain and the byte lies under the decaying threshold,
/// mints one common equipable of the leader's target piece and classes
/// for one soul point.
pub open spec fn spec_build_rounds(
    equipable_type: EquipableItemType,
    pet_type: PetType,
    slot_type: SlotType,
    season_id: SeasonId,
    rounds_left: int,
    build_prop: u8,
    soul_points: u32,
    generated: Seq<AvatarModel>,
    m: ProviderModel,
) -> (Seq<AvatarModel>, u32, ProviderModel)
    decreases rounds_left,
{
    if rounds_left <= 0 {
        (generated, soul_points, m)
    } else {
        let (byte, m1) = spec_get_hash_byte(m);
        let decayed = if build_prop >= BUILD_PROBABILITY_DECAY {
            (build_prop - BUILD_PROBABILITY_DECAY) as u8
        } else {
            0u8
        };
        if build_prop >= byte && soul_points > 0 {
            let (dna, m2) = spec_full_hash(m1, 7);
            let base = AvatarModel { season_id, version: AvatarVersion::V2, dna, souls: 0u32 };
            let equipable = spec_into_equipable(
                base,
                equipable_type,
                pet_type,
                slot_type,
                RarityType::Common,
                1,
            );
            spec_build_rounds(
                equipable_type,
                pet_type,
                slot_type,
                season_id,
                rounds_left - 1,
                decayed,
                (soul_points - 1) as u32,
                generated.push(equipable),
                m2,
            )
        } else {
            spec_build_rounds(
                equipable_type,
                pet_type,
                slot_type,
                season_id,
                rounds_left - 1,
                decayed,
                soul_points,
                generated,
                m1,
            )
        }
    }
}

/// Distributing leftover soul points: each draws one byte and gives one
/// soul point to the minted equipable the byte selects; nothing happens
/// when none was minted.
pub open spec fn spec_distribute(
    generated: Seq<AvatarModel>,
    remaining: int,
    m: ProviderModel,
) -> (Seq<AvatarModel>, ProviderModel)
    decreases remaining,
{
    if remaining <= 0 || generated.len() == 0 {
        (generated, m)
    } else {
        let (byte, m1) = spec_get_hash_byte(m);
        let idx = (byte as int) % (generated.len() as int);
        let enriched = generated.update(
            idx,
            spec_with_souls(generated[idx], sat_add_u32(generated[idx].souls, 1)),
        );
        spec_distribute(enriched, remaining - 1, m1)
    }
}

/// The models of a list of avatars.
pub open spec fn spec_avatar_list_view(s: Seq<Avatar>) -> Seq<AvatarModel> {
    s.map(|i: int, a: Avatar| a@)
}

/// A minted outcome for every avatar of a list.
pub open spec fn spec_minted_outputs(generated: Seq<AvatarModel>) -> Seq<ForgeOutputModel> {
    generated.map(|i: int, a: AvatarModel| ForgeOutputModel::Minted(a))
}

/// What a build forge yields.  When the sacrifices' material pattern
/// equals the leader blueprint's stored pattern and each sacrifice holds
/// its required quantity, the required quantities are consumed and up to
/// six decaying-probability rounds mint common equipables of the
/// blueprint's target piece, with leftover souls distributed one by one
/// among them; a mismatch is an unsupported outcome.
pub open spec fn spec_build_avatars(
    leader_item: (AvatarId, AvatarModel),
    items: Seq<(AvatarId, AvatarModel)>,
    season_id: SeasonId,
    m: ProviderModel,
) -> Result<((LeaderForgeOutputModel, Seq<ForgeOutputModel>), ProviderModel), AvatarError> {
    let leader = leader_item.1;
    let avatars = spec_item_avatars(items);
    let n = avatars.len() as int;
    let pattern = spec_material_pattern(avatars, n);
    let stored = spec_pattern_of(leader, AvatarSpecBytes::SpecByte1, AvatarSpecBytes::SpecByte2);
    let quantities = spec_build_quantities(leader);
    if pattern == stored && spec_build_usable(avatars, quantities, n) {
        let (outputs, soul_points) = spec_build_consume(items, quantities, n);
        let equipable_type = EquipableItemType::spec_from_byte(
            spec_read_spec_byte(leader, AvatarSpecBytes::SpecByte3),
        );
        let pet_type = PetType::spec_from_byte(
            spec_read_attribute(leader, AvatarAttributes::ClassType2),
        );
        let slot_type = SlotType::spec_from_byte(
            spec_read_attribute(leader, AvatarAttributes::ClassType1),
        );
        let (generated, leftover, m1) = spec_build_rounds(
            equipable_type,
            pet_type,
            slot_type,
            season_id,
            MAX_BUILD_ROUNDS as int,
            255,
            soul_points,
            Seq::empty(),
            m,
        );
        let (enriched, m2) = spec_distribute(generated, leftover as int, m1);
        let leader_out = LeaderForgeOutputModel::Forged(leader_item.0, leader, 0);
        Ok(((leader_out, outputs + spec_minted_outputs(enriched)), m2))
    } else {
        Err(AvatarError::UnsupportedForgeOutcome)
    }
}

/// Runs the minting rounds of a build forge.
#[verifier::rlimit(50)]
fn run_build_rounds(
    equipable_item_type: EquipableItemType,
    pet_type: PetType,
    slot_type: SlotType,
    season_id: SeasonId,
    soul_points: u32,
    hash_provider: &mut HashProvider,
) -> (r: (Vec<Avatar>, u32))
    requires
        old(hash_provider).wf(),
    ensures
        final(hash_provider).wf(),
        ({
            let (generated, leftover, m1) = spec_build_rounds(
                equipable_item_type,
                pet_type,
                slot_type,
                season_id,
                MAX_BUILD_ROUNDS as int,
                255,
                soul_points,
                Seq::empty(),
                old(hash_provider)@,
            );
            spec_avatar_list_view(r.0@) == generated && r.1 == leftover && final(hash_provider)@
                == m1
        }),
        forall|q: int| 0 <= q < r.0@.len() ==> (#[trigger] r.0@[q]).wf(),
{
    let ghost rounds_target = spec_build_rounds(
        equipable_item_type,
        pet_type,
        slot_type,
        season_id,
        MAX_BUILD_ROUNDS as int,
        255,
        soul_points,
        Seq::empty(),
        old(hash_provider)@,
    );
    let mut souls = soul_points;
    let mut generated_equipables: Vec<Avatar> = Vec::new();
    let mut build_prop: u8 = 255;
    let mut t: usize = 0;
    proof {
        assert(spec_avatar_list_view(generated_equipables@) =~= Seq::<AvatarModel>::empty());
    }
    while t < MAX_BUILD_ROUNDS as usize
        invariant
            hash_provider.wf(),
            0 <= t <= MAX_BUILD_ROUNDS,
            forall|q: int|
                0 <= q < generated_equipables@.len() ==> (#[trigger] generated_equipables@[q]).wf(),
            spec_build_rounds(
                equipable_item_type,
                pet_type,
                slot_type,
                season_id,
                MAX_BUILD_ROUNDS - t,
                build_prop,
                souls,
                spec_avatar_list_view(generated_equipables@),
                hash_provider@,
            ) == rounds_target,
        decreases MAX_BUILD_ROUNDS - t,
    {
        let ghost pre_m = hash_provider@;
        let ghost pre_gen = spec_avatar_list_view(generated_equipables@);
        let ghost pre_prop = build_prop;
        let ghost pre_souls = souls;
        let ghost pre_rounds = MAX_BUILD_ROUNDS - t as int;
        let byte = hash_provider.get_hash_byte();
        if build_prop >= byte && souls > 0 {
            let dna = hash_provider.full_hash(7);
            let generated_equipable = AvatarBuilder::with_dna(season_id, dna).into_equipable(
                equipable_item_type,
                pet_type,
                slot_type,
                RarityType::Common,
                1,
            ).build();
            let ghost equipable_model = generated_equipable@;
            generated_equipables.push(generated_equipable);
            souls = souls - 1;
            proof {
                assert(spec_avatar_list_view(generated_equipables@) =~= pre_gen.push(
                    equipable_model,
                ));
            }
        }
        build_prop = build_prop.saturating_sub(BUILD_PROBABILITY_DECAY);
        t = t + 1;
        proof {
            assert(spec_build_rounds(
                equipable_item_type,
                pet_type,
                slot_type,
                season_id,
                pre_rounds,
                pre_prop,
                pre_souls,
                pre_gen,
                pre_m,
            ) == spec_build_rounds(
                equipable_item_type,
                pet_type,
                slot_type,
                season_id,
                pre_rounds - 1,
                build_prop,
                souls,
                spec_avatar_list_view(generated_equipables@),
                hash_provider@,
            ));
        }
    }
    (generated_equipables, souls)
}

/// Runs a build forge.
#[verifier::rlimit(50)]
pub fn build_avatars(
    input_leader: ForgeItem,
    input_sacrifices: Vec<ForgeItem>,
    season_id: SeasonId,
    hash_provider: &mut HashProvider,
) -> (r: Result<(LeaderForgeOutput, Vec<ForgeOutput>), AvatarError>)
    requires
        input_leader.1.wf(),
        spec_items_wf(spec_items_view(input_sacrifices@)),
        old(hash_provider).wf(),
    ensures
        final(hash_provider).wf(),
        ({
            let outcome = spec_build_avatars(
                (input_leader.0, input_leader.1@),
                spec_items_view(input_sacrifices@),
                season_id,
                old(hash_provider)@,
            );
            match outcome {
                Ok(((leader_out, outputs), m2)) => r matches Ok(v) && v.0@ == leader_out
                    && spec_outputs_view(v.1@) == outputs && final(hash_provider)@ == m2,
                Err(e) => r == Err::<(LeaderForgeOutput, Vec<ForgeOutput>), AvatarError>(e)
                    && final(hash_provider)@ == old(hash_provider)@,
            }
        }),
{
    let ghost items0 = spec_items_view(input_sacrifices@);
    let ghost avatars0 = spec_item_avatars(items0);
    let leader = &input_leader.1;

    let sacrifice_pattern = material_pattern(&input_sacrifices);
    let stored_pattern = pattern_of(leader, AvatarSpecBytes::SpecByte1, AvatarSpecBytes::SpecByte2);
    let pattern_matches = material_pattern_eq(&sacrifice_pattern, &stored_pattern);

    let quantities: Vec<u8> = vec![
        1u8,
        read_spec_byte(leader, AvatarSpecBytes::SpecByte4),
        read_spec_byte(leader, AvatarSpecBytes::SpecByte5),
        read_spec_byte(leader, AvatarSpecBytes::SpecByte6),
        read_spec_byte(leader, AvatarSpecBytes::SpecByte7),
    ];
    proof {
        assert(quantities@ =~= spec_build_quantities(input_leader.1@));
    }

    if !pattern_matches {
        return Err(AvatarError::UnsupportedForgeOutcome);
    }
    proof {
        assert(avatars0.len() == sacrifice_pattern@.len());
        assert(avatars0.len() <= 4);
    }

    let mut usable = true;
    let mut u: usize = 0;
    while u < input_sacrifices.len()
        invariant
            items0 == spec_items_view(input_sacrifices@),
            avatars0 == spec_item_avatars(items0),
            spec_items_wf(items0),
            avatars0.len() <= 4,
            quantities@ == spec_build_quantities(input_leader.1@),
            0 <= u <= input_sacrifices@.len(),
            usable == spec_build_usable(avatars0, quantities@, u as int),
        decreases input_sacrifices@.len() - u,
    {
        proof {
            assert(items0[u as int].1.wf());
            assert(avatars0[u as int] == input_sacrifices@[u as int].1@);
        }
        if !can_use_avatar(&input_sacrifices[u].1, quantities[u]) {
            usable = false;
        }
        u = u + 1;
    }
    if !usable {
        return Err(AvatarError::UnsupportedForgeOutcome);
    }

    let mut output_sacrifices: Vec<ForgeOutput> = Vec::new();
    let mut soul_points: u32 = 0;
    let mut remaining = input_sacrifices;
    let total_count = remaining.len();
    let mut i: usize = 0;
    proof {
        assert(remaining@ =~= remaining@.skip(0));
    }
    let ghost sacrifices0 = remaining@;
    while remaining.len() > 0
        invariant
            items0 == spec_items_view(sacrifices0),
            spec_items_wf(items0),
            quantities@ == spec_build_quantities(input_leader.1@),
            total_count == items0.len(),
            total_count == sacrifices0.len(),
            total_count <= 4,
            0 <= i <= total_count,
            i + remaining@.len() == total_count,
            remaining@ == sacrifices0.skip(i as int),
            spec_outputs_view(output_sacrifices@) == spec_build_consume(
                items0,
                quantities@,
                i as int,
            ).0,
            soul_points == spec_build_consume(items0, quantities@, i as int).1,
        decreases remaining@.len(),
    {
        let mut item = remaining.remove(0);
        proof {
            assert(remaining@ =~= sacrifices0.skip(i as int + 1));
            assert(items0[i as int] == (sacrifices0[i as int].0, sacrifices0[i as int].1@));
            assert(item.1@ == sacrifices0[i as int].1@);
            assert(items0[i as int].1.wf());
        }
        let (_, released) = use_avatar(&mut item.1, quantities[i]);
        soul_points = soul_points.saturating_add(released);
        if read_attribute(&item.1, AvatarAttributes::Quantity) == 0 {
            output_sacrifices.push(ForgeOutput::Consumed(item.0));
        } else {
            output_sacrifices.push(ForgeOutput::Forged(item, 0));
        }
        proof {
            assert(spec_outputs_view(output_sacrifices@) =~= spec_build_consume(
                items0,
                quantities@,
                i as int + 1,
            ).0);
        }
        i = i + 1;
    }

    let equipable_item_type: EquipableItemType = crate::dna::read_spec_byte_as(
        leader,
        AvatarSpecBytes::SpecByte3,
    );
    let pet_type: PetType = crate::dna::read_attribute_as(leader, AvatarAttributes::ClassType2);
    let slot_type: SlotType = crate::dna::read_attribute_as(leader, AvatarAttributes::ClassType1);

    let (mut generated_equipables, leftover) = run_build_rounds(
        equipable_item_type,
        pet_type,
        slot_type,
        season_id,
        soul_points,
        hash_provider,
    );
    let mut soul_points = leftover;

    let ghost distribute_target = spec_distribute(
        spec_avatar_list_view(generated_equipables@),
        soul_points as int,
        hash_provider@,
    );
    while soul_points > 0 && generated_equipables.len() > 0
        invariant
            hash_provider.wf(),
            forall|q: int|
                0 <= q < generated_equipables@.len() ==> (#[trigger] generated_equipables@[q]).wf(),
            spec_distribute(
                spec_avatar_list_view(generated_equipables@),
                soul_points as int,
                hash_provider@,
            ) == distribute_target,
        decreases soul_points,
    {
        let byte = hash_provider.get_hash_byte();
        let idx = (byte as usize) % generated_equipables.len();
        let ghost before = spec_avatar_list_view(generated_equipables@);
        let mut entry = generated_equipables.remove(idx);
        entry.souls = entry.souls.saturating_add(1);
        generated_equipables.insert(idx, entry);
        proof {
            assert(spec_avatar_list_view(generated_equipables@) =~= before.update(
                idx as int,
                spec_with_souls(before[idx as int], sat_add_u32(before[idx as int].souls, 1)),
            ));
        }
        soul_points = soul_points - 1;
    }

    let ghost consumed_part = spec_outputs_view(output_sacrifices@);
    let ghost minted_part = spec_minted_outputs(spec_avatar_list_view(generated_equipables@));
    let mut g: usize = 0;
    let ghost final_generated = spec_avatar_list_view(generated_equipables@);
    let generated_count = generated_equipables.len();
    let mut minted_remaining = generated_equipables;
    proof {
        assert(spec_avatar_list_view(minted_remaining@) =~= final_generated.skip(0));
        assert(minted_part.take(0) =~= Seq::<ForgeOutputModel>::empty());
        assert(consumed_part + minted_part.take(0) =~= consumed_part);
    }
    while minted_remaining.len() > 0
        invariant
            final_generated.len() == generated_count,
            minted_part == spec_minted_outputs(final_generated),
            minted_part.len() == generated_count,
            0 <= g <= generated_count,
            g + minted_remaining@.len() == generated_count,
            spec_avatar_list_view(minted_remaining@) == final_generated.skip(g as int),
            spec_outputs_view(output_sacrifices@) == consumed_part + minted_part.take(g as int),
        decreases minted_remaining@.len(),
    {
        let ghost before_remaining = minted_remaining@;
        let entry = minted_remaining.remove(0);
        let ghost entry_model = entry@;
        proof {
            assert(entry == before_remaining[0]);
            assert(spec_avatar_list_view(before_remaining)[0] == final_generated.skip(g as int)[0]);
            assert(entry_model == final_generated[g as int]);
            assert forall|k: int| 0 <= k < minted_remaining@.len() implies spec_avatar_list_view(
                minted_remaining@,
            )[k] == final_generated.skip(g as int + 1)[k] by {
                assert(minted_remaining@[k] == before_remaining[k + 1]);
                assert(spec_avatar_list_view(before_remaining)[k + 1] == final_generated.skip(
                    g as int,
                )[k + 1]);
            }
            assert(spec_avatar_list_view(minted_remaining@) =~= final_generated.skip(g as int + 1));
        }
        let ghost before_outputs = output_sacrifices@;
        output_sacrifices.push(ForgeOutput::Minted(entry));
        proof {
            let target = consumed_part + minted_part.take(g as int + 1);
            assert(spec_outputs_view(before_outputs).len() == before_outputs.len());
            assert(before_outputs.len() == consumed_part.len() + g);
            assert(output_sacrifices@.len() == before_outputs.len() + 1);
            assert(target.len() == consumed_part.len() + g + 1);
            assert(minted_part[g as int] == ForgeOutputModel::Minted(final_generated[g as int]));
            assert forall|k: int| 0 <= k < spec_outputs_view(output_sacrifices@).len() implies
                spec_outputs_view(output_sacrifices@)[k] == target[k] by {
                if k < before_outputs.len() {
                    assert(output_sacrifices@[k] == before_outputs[k]);
                    assert(spec_outputs_view(before_outputs)[k] == (consumed_part
                        + minted_part.take(g as int))[k]);
                } else {
                    assert(spec_outputs_view(output_sacrifices@)[k] == ForgeOutputModel::Minted(
                        entry_model,
                    ));
                }
            }
            assert(spec_outputs_view(output_sacrifices@) =~= target);
        }
        g = g + 1;
    }
    proof {
        assert(minted_part.take(generated_count as int) =~= minted_part);
    }

    Ok((LeaderForgeOutput::Forged(input_leader, 0), output_sacrifices))
}

/// What one combination run yields under a given algorithm.  The mate
/// and special algorithms are unsupported outcomes by design; the
/// invalid marker never reaches a combination (the classifier rejects it
/// first).
pub open spec fn spec_combine_avatars_in(
    forge_type: ForgeType,
    leader_item: (AvatarId, AvatarModel),
    items: Seq<(AvatarId, AvatarModel)>,
    season_id: SeasonId,
    m: ProviderModel,
) -> Result<((LeaderForgeOutputModel, Seq<ForgeOutputModel>), ProviderModel), AvatarError> {
    match forge_type {
        ForgeType::Stack => Ok(spec_stack_avatars(leader_item, items, season_id, m)),
        ForgeType::Tinker => spec_tinker_avatars(leader_item, items, season_id, m),
        ForgeType::Build => spec_build_avatars(leader_item, items, season_id, m),
        ForgeType::Assemble => Ok(spec_assemble_avatars(leader_item, items, m)),
        ForgeType::Breed => Ok(spec_breed_avatars(leader_item, items, m)),
        ForgeType::Equip => Ok((spec_equip_avatars(leader_item, items), m)),
        ForgeType::Mate => Err(AvatarError::UnsupportedForgeOutcome),
        ForgeType::Special => Err(AvatarError::UnsupportedForgeOutcome),
        ForgeType::Invalid => Err(AvatarError::InvalidForgeComponents),
    }
}

/// Dispatches one combination run to the chosen algorithm.
pub fn combine_avatars_in(
    forge_type: ForgeType,
    season_id: SeasonId,
    _season: &Season,
    input_leader: ForgeItem,
    input_sacrifices: Vec<ForgeItem>,
    hash_provider: &mut HashProvider,
) -> (r: Result<(LeaderForgeOutput, Vec<ForgeOutput>), AvatarError>)
    requires
        input_leader.1.wf(),
        spec_items_wf(spec_items_view(input_sacrifices@)),
        old(hash_provider).wf(),
    ensures
        final(hash_provider).wf(),
        ({
            let outcome = spec_combine_avatars_in(
                forge_type,
                (input_leader.0, input_leader.1@),
                spec_items_view(input_sacrifices@),
                season_id,
                old(hash_provider)@,
            );
            match outcome {
                Ok(((leader_out, outputs), m1)) => r matches Ok(v) && v.0@ == leader_out
                    && spec_outputs_view(v.1@) == outputs && final(hash_provider)@ == m1,
                Err(e) => r == Err::<(LeaderForgeOutput, Vec<ForgeOutput>), AvatarError>(e)
                    && final(hash_provider)@ == old(hash_provider)@,
            }
        }),
{
    match forge_type {
        ForgeType::Stack => stack_avatars(input_leader, input_sacrifices, season_id, hash_provider),
        ForgeType::Tinker => tinker_avatars(
            input_leader,
            input_sacrifices,
            season_id,
            hash_provider,
        ),
        ForgeType::Build => build_avatars(input_leader, input_sacrifices, season_id, hash_provider),
        ForgeType::Assemble => assemble_avatars(input_leader, input_sacrifices, hash_provider),
        ForgeType::Breed => breed_avatars(input_leader, input_sacrifices, hash_provider),
        ForgeType::Equip => equip_avatars(input_leader, input_sacrifices, hash_provider),
        ForgeType::Mate => Err(AvatarError::UnsupportedForgeOutcome),
        ForgeType::Special => Err(AvatarError::UnsupportedForgeOutcome),
        ForgeType::Invalid => Err(AvatarError::InvalidForgeComponents),
    }
}

/// What one forge call yields for a given seed: the classifier's
/// verdict, then the chosen combination, every step a pure function of
/// the seed and the inputs.
pub open spec fn spec_forge_with(
    seed: Seq<u8>,
    season_id: SeasonId,
    leader_item: (AvatarId, AvatarModel),
    items: Seq<(AvatarId, AvatarModel)>,
) -> Result<(LeaderForgeOutputModel, Seq<ForgeOutputModel>), AvatarError> {
    match spec_can_be_forged(leader_item.1, spec_item_avatars(items)) {
        Err(e) => Err(e),
        Ok(forge_type) => match spec_combine_avatars_in(
            forge_type,
            leader_item,
            items,
            season_id,
            spec_initial_provider(seed),
        ) {
            Ok((pair, m1)) => Ok(pair),
            Err(e) => Err(e),
        },
    }
}

/// Forges a leader with its sacrifices, all randomness drawn from the
/// 32-byte seed hash (derived externally from a per-call nonce, player
/// and purpose).  Rejects mixed versions and unclassifiable inputs
/// before any combination runs.
pub fn forge_with(
    seed: &Vec<u8>,
    season_id: SeasonId,
    season: &Season,
    input_leader: ForgeItem,
    input_sacrifices: Vec<ForgeItem>,
) -> (r: Result<(LeaderForgeOutput, Vec<ForgeOutput>), AvatarError>)
    requires
        seed@.len() == 32,
        input_leader.1.wf(),
        spec_items_wf(spec_items_view(input_sacrifices@)),
    ensures
        ({
            let outcome = spec_forge_with(
                seed@,
                season_id,
                (input_leader.0, input_leader.1@),
                spec_items_view(input_sacrifices@),
            );
            match outcome {
                Ok((leader_out, outputs)) => r matches Ok(v) && v.0@ == leader_out
                    && spec_outputs_view(v.1@) == outputs,
                Err(e) => r == Err::<(LeaderForgeOutput, Vec<ForgeOutput>), AvatarError>(e),
            }
        }),
{
    let mut hash_provider = HashProvider::new(seed);
    let forge_type = match can_be_forged(season, &input_leader, &input_sacrifices) {
        Ok(forge_type) => forge_type,
        Err(e) => {
            return Err(e);
        },
    };
    combine_avatars_in(
        forge_type,
        season_id,
        season,
        input_leader,
        input_sacrifices,
        &mut hash_provider,
    )
}

/// Law (forge determinism): a forge call's outcome is a pure function
/// of the seed bytes and the inputs — two runs with the same seed,
/// season tag, leader and sacrifices return the same verdict and
/// byte-identical output DNA.
pub proof fn lemma_forge_deterministic(
    seed: Seq<u8>,
    season_id: SeasonId,
    leader_item: (AvatarId, AvatarModel),
    items: Seq<(AvatarId, AvatarModel)>,
    run_1: Result<(LeaderForgeOutputModel, Seq<ForgeOutputModel>), AvatarError>,
    run_2: Result<(LeaderForgeOutputModel, Seq<ForgeOutputModel>), AvatarError>,
)
    requires
        run_1 == spec_forge_with(seed, season_id, leader_item, items),
        run_2 == spec_forge_with(seed, season_id, leader_item, items),
    ensures
        run_1 == run_2,
{
}

/// Identifier bookkeeping of concatenated outcome lists.
proof fn lemma_output_ids_concat(a: Seq<ForgeOutputModel>, b: Seq<ForgeOutputModel>)
    ensures
        spec_output_ids(a + b) == spec_output_ids(a) + spec_output_ids(b),
    decreases b.len(),
{
    if b.len() == 0 {
        assert(a + b =~= a);
        assert(spec_output_ids(a) + spec_output_ids(b) =~= spec_output_ids(a));
    } else {
        lemma_output_ids_concat(a, b.drop_last());
        assert((a + b).drop_last() =~= a + b.drop_last());
        assert((a + b).last() == b.last());
        assert(spec_output_ids(a + b) =~= spec_output_ids(a) + spec_output_ids(b));
    }
}

/// Sacrifices handed back unchanged account for exactly their
/// identifiers, in order.
proof fn lemma_forged_unchanged_ids(items: Seq<(AvatarId, AvatarModel)>)
    ensures
        spec_output_ids(spec_forged_unchanged_outputs(items)) == spec_ids(items),
    decreases items.len(),
{
    if items.len() > 0 {
        lemma_forged_unchanged_ids(items.drop_last());
        assert(spec_forged_unchanged_outputs(items).drop_last() =~= spec_forged_unchanged_outputs(
            items.drop_last(),
        ));
        assert(spec_output_ids(spec_forged_unchanged_outputs(items)) =~= spec_ids(items));
    } else {
        assert(spec_output_ids(spec_forged_unchanged_outputs(items)) =~= spec_ids(items));
    }
}

/// Minted byproducts account for no identifiers.
proof fn lemma_minted_ids(generated: Seq<AvatarModel>)
    ensures
        spec_output_ids(spec_minted_outputs(generated)) == Seq::<AvatarId>::empty(),
    decreases generated.len(),
{
    if generated.len() > 0 {
        lemma_minted_ids(generated.drop_last());
        assert(spec_minted_outputs(generated).drop_last() =~= spec_minted_outputs(
            generated.drop_last(),
        ));
        assert(spec_output_ids(spec_minted_outputs(generated)) =~= Seq::<AvatarId>::empty());
    } else {
        assert(spec_output_ids(spec_minted_outputs(generated)) =~= Seq::<AvatarId>::empty());
    }
}

/// The tinker consumption accounts for exactly the first `n`
/// identifiers, in order.
proof fn lemma_tinker_consume_ids(items: Seq<(AvatarId, AvatarModel)>, n: int)
    requires
        0 <= n <= items.len(),
    ensures
        spec_output_ids(spec_tinker_consume(items, n).0) == spec_ids(items).take(n),
    decreases n,
{
    if n > 0 {
        lemma_tinker_consume_ids(items, n - 1);
        assert(spec_tinker_consume(items, n).0.drop_last() == spec_tinker_consume(items, n - 1).0);
        assert(spec_output_ids(spec_tinker_consume(items, n).0) =~= spec_ids(items).take(n));
    } else {
        assert(spec_output_ids(spec_tinker_consume(items, n).0) =~= spec_ids(items).take(n));
    }
}

/// The build consumption accounts for exactly the first `n`
/// identifiers, in order.
proof fn lemma_build_consume_ids(items: Seq<(AvatarId, AvatarModel)>, quantities: Seq<u8>, n: int)
    requires
        0 <= n <= items.len(),
    ensures
        spec_output_ids(spec_build_consume(items, quantities, n).0) == spec_ids(items).take(n),
    decreases n,
{
    if n > 0 {
        lemma_build_consume_ids(items, quantities, n - 1);
        assert(spec_build_consume(items, quantities, n).0.drop_last() == spec_build_consume(
            items,
            quantities,
            n - 1,
        ).0);
        assert(spec_output_ids(spec_build_consume(items, quantities, n).0) =~= spec_ids(
            items,
        ).take(n));
    } else {
        assert(spec_output_ids(spec_build_consume(items, quantities, n).0) =~= spec_ids(
            items,
        ).take(n));
    }
}

/// The match pass splits the sacrifices: together, the scored group and
/// the rest hold exactly the input identifiers.
proof fn lemma_partition_ids(leader: AvatarModel, items: Seq<(AvatarId, AvatarModel)>, n: int)
    requires
        0 <= n <= items.len(),
    ensures
        spec_ids(spec_matched_items(leader, items, n)).to_multiset().add(
            spec_ids(spec_unmatched_items(leader, items, n)).to_multiset(),
        ) == spec_ids(items).take(n).to_multiset(),
    decreases n,
{
    broadcast use vstd::seq_lib::group_to_multiset_ensures;
    broadcast use vstd::multiset::group_multiset_axioms;

    if n > 0 {
        lemma_partition_ids(leader, items, n - 1);
        let matched_prev = spec_ids(spec_matched_items(leader, items, n - 1));
        let unmatched_prev = spec_ids(spec_unmatched_items(leader, items, n - 1));
        let id = items[n - 1].0;
        assert(spec_ids(items).take(n).drop_last() =~= spec_ids(items).take(n - 1));
        assert(spec_ids(items).take(n).last() == id);
        assert(spec_ids(items).take(n) == spec_ids(items).take(n - 1).push(id));
        if spec_sacrifice_matches(leader, items[n - 1].1) {
            assert(spec_ids(spec_matched_items(leader, items, n)) =~= matched_prev.push(id));
            assert(spec_ids(spec_unmatched_items(leader, items, n)) =~= unmatched_prev);
            assert(matched_prev.push(id).to_multiset() =~= matched_prev.to_multiset().insert(id));
            assert(matched_prev.to_multiset().insert(id).add(unmatched_prev.to_multiset())
                =~= matched_prev.to_multiset().add(unmatched_prev.to_multiset()).insert(id));
        } else {
            assert(spec_ids(spec_matched_items(leader, items, n)) =~= matched_prev);
            assert(spec_ids(spec_unmatched_items(leader, items, n)) =~= unmatched_prev.push(id));
            assert(unmatched_prev.push(id).to_multiset() =~= unmatched_prev.to_multiset().insert(
                id,
            ));
            assert(matched_prev.to_multiset().add(unmatched_prev.to_multiset().insert(id))
                =~= matched_prev.to_multiset().add(unmatched_prev.to_multiset()).insert(id));
        }
        assert(spec_ids(items).take(n - 1).push(id).to_multiset() =~= spec_ids(items).take(
            n - 1,
        ).to_multiset().insert(id));
    } else {
        assert(spec_ids(items).take(0) =~= Seq::<AvatarId>::empty());
    }
}

/// Consumed items plus identifier-free extras account for exactly the
/// input identifiers.
proof fn lemma_consumed_plus_ids(items: Seq<(AvatarId, AvatarModel)>, extra: Seq<ForgeOutputModel>)
    requires
        spec_output_ids(extra) == Seq::<AvatarId>::empty(),
    ensures
        spec_output_ids(spec_consumed_outputs(items) + extra) == spec_ids(items),
{
    lemma_output_ids_concat(spec_consumed_outputs(items), extra);
    lemma_consumed_ids(items);
    assert(spec_ids(items) + Seq::<AvatarId>::empty() =~= spec_ids(items));
}

/// The stack algorithm's outputs account for exactly the input
/// identifiers.
proof fn lemma_stack_output_ids(
    leader_item: (AvatarId, AvatarModel),
    items: Seq<(AvatarId, AvatarModel)>,
    season_id: SeasonId,
    m: ProviderModel,
)
    ensures
        spec_output_ids(spec_stack_avatars(leader_item, items, season_id, m).0.1).to_multiset()
            == spec_ids(items).to_multiset(),
{
    let essence = spec_stack_essence(season_id, items.len() as int, m).0;
    let extra: Seq<ForgeOutputModel> = match essence {
        Some(e) => seq![ForgeOutputModel::Minted(e)],
        None => Seq::empty(),
    };
    assert(spec_output_ids(extra) == Seq::<AvatarId>::empty()) by {
        assert(spec_output_ids(Seq::<ForgeOutputModel>::empty()) =~= Seq::<AvatarId>::empty());
        match essence {
            Some(e) => {
                assert(extra.len() == 1);
                assert(extra.last() == ForgeOutputModel::Minted(e));
                assert(extra.drop_last() =~= Seq::<ForgeOutputModel>::empty());
                assert(spec_output_ids(extra) =~= Seq::<AvatarId>::empty());
            },
            None => {
                assert(spec_output_ids(extra) =~= Seq::<AvatarId>::empty());
            },
        }
    }
    lemma_consumed_plus_ids(items, extra);
    assert(spec_stack_avatars(leader_item, items, season_id, m).0.1 == spec_consumed_outputs(items)
        + extra);
}

/// A successful tinker's outputs account for exactly the input
/// identifiers.
proof fn lemma_tinker_output_ids(
    leader_item: (AvatarId, AvatarModel),
    items: Seq<(AvatarId, AvatarModel)>,
    season_id: SeasonId,
    m: ProviderModel,
)
    ensures
        match spec_tinker_avatars(leader_item, items, season_id, m) {
            Ok(((leader_out, outputs), m1)) => spec_output_ids(outputs) == spec_ids(items),
            Err(_) => true,
        },
{
    let n = items.len() as int;
    let avatars = spec_item_avatars(items);
    let leader = leader_item.1;
    assert(spec_ids(items).take(n) =~= spec_ids(items));
    let pattern = spec_material_pattern(avatars, n);
    let f1 = pattern == spec_pattern_of(leader, AvatarSpecBytes::SpecByte1, AvatarSpecBytes::SpecByte2);
    let f2 = pattern == spec_pattern_of(leader, AvatarSpecBytes::SpecByte3, AvatarSpecBytes::SpecByte4);
    let f3 = pattern == spec_pattern_of(leader, AvatarSpecBytes::SpecByte5, AvatarSpecBytes::SpecByte6);
    let f4 = pattern == spec_pattern_of(leader, AvatarSpecBytes::SpecByte7, AvatarSpecBytes::SpecByte8);
    if (f1 || f2 || f3 || f4) && spec_all_usable(avatars, n) {
        lemma_tinker_consume_ids(items, n);
        match spec_tinker_avatars(leader_item, items, season_id, m) {
            Ok(((leader_out, outputs), m1)) => {
                assert(outputs.drop_last() =~= spec_tinker_consume(items, n).0);
                assert(spec_output_ids(outputs) == spec_output_ids(
                    spec_tinker_consume(items, n).0,
                ));
            },
            Err(_) => {},
        }
    } else {
        lemma_forged_unchanged_ids(items);
    }
}

/// A successful build's outputs account for exactly the input
/// identifiers.
proof fn lemma_build_output_ids(
    leader_item: (AvatarId, AvatarModel),
    items: Seq<(AvatarId, AvatarModel)>,
    season_id: SeasonId,
    m: ProviderModel,
)
    ensures
        match spec_build_avatars(leader_item, items, season_id, m) {
            Ok(((leader_out, outputs), m2)) => spec_output_ids(outputs).to_multiset() == spec_ids(
                items,
            ).to_multiset(),
            Err(_) => true,
        },
{
    let n = items.len() as int;
    assert(spec_ids(items).take(n) =~= spec_ids(items));
    match spec_build_avatars(leader_item, items, season_id, m) {
        Ok(((leader_out, outputs), m2)) => {
            let quantities = spec_build_quantities(leader_item.1);
            lemma_build_consume_ids(items, quantities, n);
            let consumed = spec_build_consume(items, quantities, n).0;
            let equipable_type = EquipableItemType::spec_from_byte(
                spec_read_spec_byte(leader_item.1, AvatarSpecBytes::SpecByte3),
            );
            let pet_type = PetType::spec_from_byte(
                spec_read_attribute(leader_item.1, AvatarAttributes::ClassType2),
            );
            let slot_type = SlotType::spec_from_byte(
                spec_read_attribute(leader_item.1, AvatarAttributes::ClassType1),
            );
            let (generated, leftover, m1) = spec_build_rounds(
                equipable_type,
                pet_type,
                slot_type,
                season_id,
                MAX_BUILD_ROUNDS as int,
                255,
                spec_build_consume(items, quantities, n).1,
                Seq::empty(),
                m,
            );
            let (enriched, mx) = spec_distribute(generated, leftover as int, m1);
            lemma_minted_ids(enriched);
            lemma_output_ids_concat(consumed, spec_minted_outputs(enriched));
            assert(spec_output_ids(outputs) =~= spec_ids(items));
        },
        Err(_) => {},
    }
}

/// Consuming the match pass's two groups accounts for exactly the input
/// identifiers, as a multiset.
proof fn lemma_match_pass_output_ids(leader: AvatarModel, items: Seq<(AvatarId, AvatarModel)>)
    ensures
        ({
            let matched = spec_matched_items(leader, items, items.len() as int);
            let unmatched = spec_unmatched_items(leader, items, items.len() as int);
            spec_output_ids(
                spec_consumed_outputs(matched) + spec_consumed_outputs(unmatched),
            ).to_multiset() == spec_ids(items).to_multiset()
        }),
{
    broadcast use vstd::multiset::group_multiset_axioms;

    let n = items.len() as int;
    let matched = spec_matched_items(leader, items, n);
    let unmatched = spec_unmatched_items(leader, items, n);
    lemma_consumed_ids(matched);
    lemma_consumed_ids(unmatched);
    lemma_output_ids_concat(spec_consumed_outputs(matched), spec_consumed_outputs(unmatched));
    lemma_partition_ids(leader, items, n);
    assert(spec_ids(items).take(n) =~= spec_ids(items));
    vstd::seq_lib::lemma_multiset_commutative(spec_ids(matched), spec_ids(unmatched));
}

/// Law (disjoint, exhaustive outputs): whatever algorithm a combination
/// runs, the multiset of sacrifice identifiers across its forged and
/// consumed outputs equals exactly the multiset of input sacrifice
/// identifiers — no duplication, no omission — and minted byproducts
/// carry no identifier at all.
pub proof fn lemma_forge_output_conservation(
    forge_type: ForgeType,
    leader_item: (AvatarId, AvatarModel),
    items: Seq<(AvatarId, AvatarModel)>,
    season_id: SeasonId,
    m: ProviderModel,
)
    ensures
        match spec_combine_avatars_in(forge_type, leader_item, items, season_id, m) {
            Ok(((leader_out, outputs), m1)) => spec_output_ids(outputs).to_multiset() == spec_ids(
                items,
            ).to_multiset(),
            Err(_) => true,
        },
{
    match forge_type {
        ForgeType::Stack => {
            lemma_stack_output_ids(leader_item, items, season_id, m);
        },
        ForgeType::Tinker => {
            lemma_tinker_output_ids(leader_item, items, season_id, m);
        },
        ForgeType::Build => {
            lemma_build_output_ids(leader_item, items, season_id, m);
        },
        ForgeType::Assemble => {
            lemma_match_pass_output_ids(leader_item.1, items);
        },
        ForgeType::Breed => {
            lemma_match_pass_output_ids(leader_item.1, items);
        },
        ForgeType::Equip => {
            lemma_consumed_ids(items);
        },
        ForgeType::Mate => {},
        ForgeType::Special => {},
        ForgeType::Invalid => {},
    }
}


} // verus!