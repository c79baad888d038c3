//! The minter: produces a batch of fresh avatars for one mint call.
//!
//! Per avatar it rolls an item archetype from the pack tier's table,
//! draws an identifier and 32 bytes of base DNA from the provider, rolls
//! the matching subtype, and populates the fields through the builder
//! with the archetype's quantity and soul-point formulas.  Everything is
//! a function of the caller-supplied seed and the mint options.

use vstd::prelude::*;

use crate::builder::AvatarBuilder;
use crate::builder::spec_into_egg;
use crate::builder::spec_into_equipable;
use crate::builder::spec_into_blueprint;
use crate::builder::spec_into_essence;
use crate::builder::spec_into_material;
use crate::builder::spec_into_pet_part;
use crate::builder::spec_with_souls;
use crate::dna::Avatar;
use crate::dna::AvatarAttributes;
use crate::dna::AvatarModel;
use crate::dna::PROGRESS_LENGTH;
use crate::dna::read_dna_block;
use crate::dna::spec_write_attribute;
use crate::dna::spec_write_progress_array;
use crate::dna::spec_write_progress_bytes;
use crate::dna::write_progress_bytes;
use crate::hash_provider::HashProvider;
use crate::hash_provider::ProviderModel;
use crate::hash_provider::spec_full_hash;
use crate::hash_provider::spec_initial_provider;
use crate::roller::roll_on_pack_type;
use crate::roller::spec_roll_on;
use crate::tables::blueprint_item_probabilities;
use crate::tables::armor_slot_probabilities;
use crate::tables::equipable_item_probabilities;
use crate::tables::essence_item_probabilities;
use crate::tables::item_probabilities;
use crate::tables::material_item_probabilities;
use crate::tables::pet_item_probabilities;
use crate::tables::pet_type_probabilities;
use crate::tables::special_item_probabilities;
use crate::tables::spec_armor_slot_probabilities;
use crate::tables::spec_blueprint_item_probabilities;
use crate::tables::spec_equipable_item_probabilities;
use crate::tables::spec_essence_item_probabilities;
use crate::tables::spec_item_probabilities;
use crate::tables::spec_material_item_probabilities;
use crate::tables::spec_pet_item_probabilities;
use crate::tables::spec_pet_type_probabilities;
use crate::tables::spec_special_item_probabilities;
use crate::types::AvatarError;
use crate::types::AvatarId;
use crate::types::BlueprintItemType;
use crate::types::EquipableItemType;
use crate::types::EssenceItemType;
use crate::types::HexType;
use crate::types::IntoByte;
use crate::types::ItemType;
use crate::types::MaterialItemType;
use crate::types::MintOption;
use crate::types::PackType;
use crate::types::PetItemType;
use crate::types::RarityType;
use crate::types::Season;
use crate::types::SeasonId;
use crate::types::SpecialItemType;

verus! {

/// The largest quantity the DNA-derived quantity formula yields.
pub const MAX_QUANTITY: u8 = 8;

/// The byte threshold under which a progress slot starts one rarity
/// tier higher (a tuned probability constant, about one in five).
pub const PROGRESS_PROBABILITY_THRESHOLD: u8 = 51;

/// The xor-fold of the first `n` strand bytes, each shifted left twice.
pub open spec fn spec_strand_fold(strands: Seq<u8>, n: int) -> u8
    decreases n,
{
    if n <= 0 {
        0u8
    } else {
        spec_strand_fold(strands, n - 1) ^ (strands[n - 1] << 2)
    }
}

/// The quantity derived from a run of DNA strands: their xor-fold,
/// reduced modulo the maximum quantity.
pub open spec fn spec_random_quantity(strands: Seq<u8>) -> u8 {
    (spec_strand_fold(strands, strands.len() as int) % MAX_QUANTITY) as u8
}

/// Two DNA strands spliced into one 16-bit value, first strand high.
pub open spec fn spec_splice_dna_strands(first_strand: u8, second_strand: u8) -> u16 {
    ((first_strand as u16) << 8) | (second_strand as u16)
}

/// Shared quantity/soul formulas of the archetype mutators.
pub struct MutatorUtils;

impl MutatorUtils {
    /// Derives a quantity below `MAX_QUANTITY` from a run of DNA
    /// strands by an xor-fold.
    pub fn random_quantity_from_dna_strands(strands: &Vec<u8>) -> (r: u8)
        ensures
            r == spec_random_quantity(strands@),
            r < MAX_QUANTITY,
    {
        let mut acc: u8 = 0;
        let mut i: usize = 0;
        while i < strands.len()
            invariant
                0 <= i <= strands@.len(),
                acc == spec_strand_fold(strands@, i as int),
            decreases strands@.len() - i,
        {
            acc = acc ^ (strands[i] << 2);
            i = i + 1;
        }
        acc % MAX_QUANTITY
    }

    /// Splices two DNA strands into one 16-bit value, first strand
    /// high.
    pub fn splice_dna_strands(first_strand: u8, second_strand: u8) -> (r: u16)
        ensures
            r == spec_splice_dna_strands(first_strand, second_strand),
    {
        ((first_strand as u16) << 8) | (second_strand as u16)
    }
}

/// The identifier packed from the first eight bytes of an identifier
/// hash, low byte first.
pub open spec fn spec_id_from_bytes(bytes: Seq<u8>) -> AvatarId {
    (bytes[0] as u64) | ((bytes[1] as u64) << 8) | ((bytes[2] as u64) << 16) | ((bytes[3] as u64)
        << 24) | ((bytes[4] as u64) << 32) | ((bytes[5] as u64) << 40) | ((bytes[6] as u64) << 48)
        | ((bytes[7] as u64) << 56)
}

fn id_from_bytes(bytes: &Vec<u8>) -> (r: AvatarId)
    requires
        bytes@.len() >= 8,
    ensures
        r == spec_id_from_bytes(bytes@),
{
    (bytes[0] as u64) | ((bytes[1] as u64) << 8) | ((bytes[2] as u64) << 16) | ((bytes[3] as u64)
        << 24) | ((bytes[4] as u64) << 32) | ((bytes[5] as u64) << 40) | ((bytes[6] as u64) << 48)
        | ((bytes[7] as u64) << 56)
}

/// Generates 32 bytes of base DNA from the provider's full-hash draw.
/// The draw always yields exactly 32 bytes, so this never fails; the
/// `Result` keeps the fallible boundary of the DNA container.
pub fn generate_base_avatar_dna(hash_provider: &mut HashProvider) -> (r: Result<
    Vec<u8>,
    AvatarError,
>)
    requires
        old(hash_provider).wf(),
    ensures
        final(hash_provider).wf(),
        r matches Ok(dna) && dna@ == spec_full_hash(old(hash_provider)@, 7).0 && dna@.len() == 32,
        final(hash_provider)@ == spec_full_hash(old(hash_provider)@, 7).1,
{
    Ok(hash_provider.full_hash(7))
}

/// What the pet mutator makes of a base avatar: a bare pet, a pet part
/// with rolled slot and class and a DNA-derived quantity, or an egg
/// with DNA-derived candidate classes, progress, and soul points.
pub open spec fn spec_mutate_pet(a: AvatarModel, sub_type: PetItemType, m: ProviderModel) -> (
    AvatarModel,
    ProviderModel,
) {
    match sub_type {
        PetItemType::Pet => {
            let t = spec_write_attribute(a, AvatarAttributes::ItemType, ItemType::Pet.spec_byte());
            (
                spec_write_attribute(
                    t,
                    AvatarAttributes::ItemSubType,
                    PetItemType::Pet.spec_byte(),
                ),
                m,
            )
        },
        PetItemType::PetPart => {
            let (slot_type, m1) = spec_roll_on(spec_armor_slot_probabilities(), m);
            let (pet_type, m2) = spec_roll_on(spec_pet_type_probabilities(), m1);
            let quantity = spec_random_quantity(a.dna.subrange(2, 5));
            (spec_into_pet_part(a, pet_type, slot_type, quantity), m2)
        },
        PetItemType::Egg => {
            let pet_variation = ((a.dna[8] & a.dna[7]) % 16) as u8;
            let souls = (((a.dna[1] ^ a.dna[4]) % 99) + 1) as u32;
            let progress = spec_write_progress_bytes(
                RarityType::Common,
                PROGRESS_PROBABILITY_THRESHOLD,
                a.dna.subrange(21, 32),
            );
            let egg = spec_into_egg(a, RarityType::Common, pet_variation);
            (spec_with_souls(spec_write_progress_array(egg, progress), souls), m)
        },
    }
}

/// What the equipable mutator makes of a base avatar: rolled pet class
/// and slot, uncommon rarity, and soul points spliced from two DNA
/// bytes, reduced to 1..=25.
pub open spec fn spec_mutate_equipable(
    a: AvatarModel,
    sub_type: EquipableItemType,
    m: ProviderModel,
) -> (AvatarModel, ProviderModel) {
    let (pet_type, m1) = spec_roll_on(spec_pet_type_probabilities(), m);
    let (slot_type, m2) = spec_roll_on(spec_armor_slot_probabilities(), m1);
    let souls = ((spec_splice_dna_strands(a.dna[26], a.dna[27]) % 25) + 1) as u32;
    (spec_into_equipable(a, sub_type, pet_type, slot_type, RarityType::Uncommon, souls), m2)
}

/// What the blueprint mutator makes of a base avatar: rolled pet class
/// and slot, an empty pattern aimed at the armor base, and soul points
/// spliced from two DNA bytes, reduced to 1..=25.
pub open spec fn spec_mutate_blueprint(
    a: AvatarModel,
    sub_type: BlueprintItemType,
    m: ProviderModel,
) -> (AvatarModel, ProviderModel) {
    let (pet_type, m1) = spec_roll_on(spec_pet_type_probabilities(), m);
    let (slot_type, m2) = spec_roll_on(spec_armor_slot_probabilities(), m1);
    let souls = ((spec_splice_dna_strands(a.dna[26], a.dna[27]) % 25) + 1) as u32;
    (
        spec_into_blueprint(
            a,
            sub_type,
            pet_type,
            slot_type,
            EquipableItemType::ArmorBase,
            Seq::empty(),
            souls,
        ),
        m2,
    )
}

/// What the special mutator makes of a base avatar.
pub open spec fn spec_mutate_special(a: AvatarModel, sub_type: SpecialItemType) -> AvatarModel {
    let t = spec_write_attribute(a, AvatarAttributes::ItemType, ItemType::Special.spec_byte());
    let s = spec_write_attribute(t, AvatarAttributes::ItemSubType, sub_type.spec_byte());
    let c = spec_write_attribute(s, AvatarAttributes::CustomType1, HexType::X0.spec_byte());
    let q = spec_write_attribute(c, AvatarAttributes::Quantity, 1);
    let souls = ((spec_splice_dna_strands(a.dna[26], a.dna[27]) % 25) + 1) as u32;
    spec_with_souls(q, souls)
}

/// What minting makes of a base avatar of the given archetype: the
/// subtype is rolled from the pack tier's table, then the archetype
/// mutator populates the fields.
pub open spec fn spec_mutate_from_base(
    item_type: ItemType,
    pack: PackType,
    a: AvatarModel,
    m: ProviderModel,
) -> (AvatarModel, ProviderModel) {
    match item_type {
        ItemType::Pet => {
            let (sub_type, m1) = spec_roll_on(spec_pet_item_probabilities(pack), m);
            spec_mutate_pet(a, sub_type, m1)
        },
        ItemType::Material => {
            let (sub_type, m1) = spec_roll_on(spec_material_item_probabilities(pack), m);
            let quantity = spec_random_quantity(a.dna.subrange(0, 3));
            (spec_into_material(a, sub_type, quantity), m1)
        },
        ItemType::Essence => {
            let (sub_type, m1) = spec_roll_on(spec_essence_item_probabilities(pack), m);
            (spec_into_essence(a, sub_type, 1), m1)
        },
        ItemType::Equipable => {
            let (sub_type, m1) = spec_roll_on(spec_equipable_item_probabilities(pack), m);
            spec_mutate_equipable(a, sub_type, m1)
        },
        ItemType::Blueprint => {
            let (sub_type, m1) = spec_roll_on(spec_blueprint_item_probabilities(pack), m);
            spec_mutate_blueprint(a, sub_type, m1)
        },
        ItemType::Special => {
            let (sub_type, m1) = spec_roll_on(spec_special_item_probabilities(pack), m);
            (spec_mutate_special(a, sub_type), m1)
        },
    }
}

/// Rolls the subtype and populates a base avatar's fields for the given
/// archetype.
fn mutate_from_base(
    item_type: ItemType,
    pack: PackType,
    base_avatar: Avatar,
    hash_provider: &mut HashProvider,
) -> (r: Avatar)
    requires
        base_avatar.wf(),
        old(hash_provider).wf(),
    ensures
        final(hash_provider).wf(),
        r.wf(),
        (r@, final(hash_provider)@) == spec_mutate_from_base(
            item_type,
            pack,
            base_avatar@,
            old(hash_provider)@,
        ),
{
    match item_type {
        ItemType::Pet => {
            let on_material = pet_item_probabilities(PackType::Material);
            let on_equipment = pet_item_probabilities(PackType::Equipment);
            let on_special = pet_item_probabilities(PackType::Special);
            let sub_type = roll_on_pack_type(
                pack,
                &on_material,
                &on_equipment,
                &on_special,
                hash_provider,
            );
            match sub_type {
                PetItemType::Pet => AvatarBuilder::with_base_avatar(base_avatar).into_pet(
                    PetItemType::Pet,
                ).build(),
                PetItemType::PetPart => {
                    let slots = armor_slot_probabilities();
                    let slot_type = crate::roller::roll_on(&slots, hash_provider);
                    let pets = pet_type_probabilities();
                    let pet_type = crate::roller::roll_on(&pets, hash_provider);
                    let strands = read_dna_block(&base_avatar.dna, 2, 3);
                    let quantity = MutatorUtils::random_quantity_from_dna_strands(&strands);
                    AvatarBuilder::with_base_avatar(base_avatar).into_pet_part(
                        pet_type,
                        slot_type,
                        quantity,
                    ).build()
                },
                PetItemType::Egg => {
                    let pet_variation = (base_avatar.dna[8] & base_avatar.dna[7]) % 16;
                    let souls = (((base_avatar.dna[1] ^ base_avatar.dna[4]) % 99) + 1) as u32;
                    let progress_source = read_dna_block(&base_avatar.dna, 21, PROGRESS_LENGTH);
                    let progress = write_progress_bytes(
                        RarityType::Common,
                        PROGRESS_PROBABILITY_THRESHOLD,
                        &progress_source,
                    );
                    AvatarBuilder::with_base_avatar(base_avatar).into_egg(
                        RarityType::Common,
                        pet_variation,
                    ).with_progress_array(&progress).with_soul_count(souls).build()
                },
            }
        },
        ItemType::Material => {
            let on_material = material_item_probabilities(PackType::Material);
            let on_equipment = material_item_probabilities(PackType::Equipment);
            let on_special = material_item_probabilities(PackType::Special);
            let sub_type = roll_on_pack_type(
                pack,
                &on_material,
                &on_equipment,
                &on_special,
                hash_provider,
            );
            let strands = read_dna_block(&base_avatar.dna, 0, 3);
            let quantity = MutatorUtils::random_quantity_from_dna_strands(&strands);
            AvatarBuilder::with_base_avatar(base_avatar).into_material(sub_type, quantity).build()
        },
        ItemType::Essence => {
            let on_material = essence_item_probabilities(PackType::Material);
            let on_equipment = essence_item_probabilities(PackType::Equipment);
            let on_special = essence_item_probabilities(PackType::Special);
            let sub_type = roll_on_pack_type(
                pack,
                &on_material,
                &on_equipment,
                &on_special,
                hash_provider,
            );
            AvatarBuilder::with_base_avatar(base_avatar).into_essence(sub_type, 1).build()
        },
        ItemType::Equipable => {
            let on_material = equipable_item_probabilities(PackType::Material);
            let on_equipment = equipable_item_probabilities(PackType::Equipment);
            let on_special = equipable_item_probabilities(PackType::Special);
            let sub_type = roll_on_pack_type(
                pack,
                &on_material,
                &on_equipment,
                &on_special,
                hash_provider,
            );
            let pets = pet_type_probabilities();
            let pet_type = crate::roller::roll_on(&pets, hash_provider);
            let slots = armor_slot_probabilities();
            let slot_type = crate::roller::roll_on(&slots, hash_provider);
            let spliced = MutatorUtils::splice_dna_strands(
                base_avatar.dna[26],
                base_avatar.dna[27],
            );
            let souls = ((spliced % 25) + 1) as u32;
            AvatarBuilder::with_base_avatar(base_avatar).into_equipable(
                sub_type,
                pet_type,
                slot_type,
                RarityType::Uncommon,
                souls,
            ).build()
        },
        ItemType::Blueprint => {
            let on_material = blueprint_item_probabilities(PackType::Material);
            let on_equipment = blueprint_item_probabilities(PackType::Equipment);
            let on_special = blueprint_item_probabilities(PackType::Special);
            let sub_type = roll_on_pack_type(
                pack,
                &on_material,
                &on_equipment,
                &on_special,
                hash_provider,
            );
            let pets = pet_type_probabilities();
            let pet_type = crate::roller::roll_on(&pets, hash_provider);
            let slots = armor_slot_probabilities();
            let slot_type = crate::roller::roll_on(&slots, hash_provider);
            let spliced = MutatorUtils::splice_dna_strands(
                base_avatar.dna[26],
                base_avatar.dna[27],
            );
            let souls = ((spliced % 25) + 1) as u32;
            let pattern: Vec<MaterialItemType> = Vec::new();
            proof {
                assert(pattern@ =~= Seq::<MaterialItemType>::empty());
            }
            AvatarBuilder::with_base_avatar(base_avatar).into_blueprint(
                sub_type,
                pet_type,
                slot_type,
                EquipableItemType::ArmorBase,
                &pattern,
                souls,
            ).build()
        },
        ItemType::Special => {
            let on_material = special_item_probabilities(PackType::Material);
            let on_equipment = special_item_probabilities(PackType::Equipment);
            let on_special = special_item_probabilities(PackType::Special);
            let sub_type = roll_on_pack_type(
                pack,
                &on_material,
                &on_equipment,
                &on_special,
                hash_provider,
            );
            let spliced = MutatorUtils::splice_dna_strands(
                base_avatar.dna[26],
                base_avatar.dna[27],
            );
            let souls = ((spliced % 25) + 1) as u32;
            AvatarBuilder::with_base_avatar(base_avatar).into_special(sub_type).with_attribute(
                AvatarAttributes::CustomType1,
                HexType::X0,
            ).with_attribute_raw(AvatarAttributes::Quantity, 1).with_soul_count(souls).build()
        },
    }
}

/// What minting one avatar yields: the rolled archetype, a fresh
/// identifier, fresh base DNA, and the mutated avatar; and the provider
/// afterwards.
pub open spec fn spec_mint_one(m: ProviderModel, season_id: SeasonId, mint_option: MintOption) -> (
    (AvatarId, AvatarModel),
    ProviderModel,
) {
    let (item_type, m1) = spec_roll_on(spec_item_probabilities(mint_option.mint_pack), m);
    let (id_bytes, m2) = spec_full_hash(m1, 3);
    let avatar_id = spec_id_from_bytes(id_bytes);
    let (dna, m3) = spec_full_hash(m2, 7);
    let base = AvatarModel {
        season_id,
        version: mint_option.mint_version,
        dna,
        souls: 0u32,
    };
    let (avatar, m4) = spec_mutate_from_base(item_type, mint_option.mint_pack, base, m3);
    ((avatar_id, avatar), m4)
}

/// Mints one avatar.
fn mint_one(season_id: SeasonId, mint_option: MintOption, hash_provider: &mut HashProvider) -> (r:
    Result<(AvatarId, Avatar), AvatarError>)
    requires
        old(hash_provider).wf(),
    ensures
        final(hash_provider).wf(),
        r matches Ok(minted) && minted.1.wf() && (minted.0, minted.1@) == spec_mint_one(
            old(hash_provider)@,
            season_id,
            mint_option,
        ).0,
        final(hash_provider)@ == spec_mint_one(old(hash_provider)@, season_id, mint_option).1,
{
    let on_material = item_probabilities(PackType::Material);
    let on_equipment = item_probabilities(PackType::Equipment);
    let on_special = item_probabilities(PackType::Special);
    let rolled_item_type = roll_on_pack_type(
        mint_option.mint_pack,
        &on_material,
        &on_equipment,
        &on_special,
        hash_provider,
    );
    let id_bytes = hash_provider.full_hash(3);
    let avatar_id = id_from_bytes(&id_bytes);
    let base_dna = match generate_base_avatar_dna(hash_provider) {
        Ok(dna) => dna,
        Err(e) => {
            return Err(e);
        },
    };
    let base_avatar = Avatar {
        season_id,
        version: mint_option.mint_version,
        dna: base_dna,
        souls: 0,
    };
    let avatar = mutate_from_base(
        rolled_item_type,
        mint_option.mint_pack,
        base_avatar,
        hash_provider,
    );
    Ok((avatar_id, avatar))
}

/// The models of a list of minted (identifier, avatar) pairs.
pub open spec fn spec_mint_outputs_view(s: Seq<(AvatarId, Avatar)>) -> Seq<(AvatarId, AvatarModel)> {
    s.map(|i: int, p: (AvatarId, Avatar)| (p.0, p.1@))
}

/// What minting the first `n` avatars of a batch yields.
pub open spec fn spec_mint_avatar_set_rec(
    m: ProviderModel,
    season_id: SeasonId,
    mint_option: MintOption,
    n: int,
) -> (Seq<(AvatarId, AvatarModel)>, ProviderModel)
    decreases n,
{
    if n <= 0 {
        (Seq::empty(), m)
    } else {
        let (prefix, m1) = spec_mint_avatar_set_rec(m, season_id, mint_option, n - 1);
        let (minted, m2) = spec_mint_one(m1, season_id, mint_option);
        (prefix.push(minted), m2)
    }
}

/// What one mint call yields for a given seed: `count` avatars, each a
/// pure function of the seed, the season tag and the mint options.
pub open spec fn spec_mint_avatar_set(
    seed: Seq<u8>,
    season_id: SeasonId,
    mint_option: MintOption,
) -> Seq<(AvatarId, AvatarModel)> {
    spec_mint_avatar_set_rec(
        spec_initial_provider(seed),
        season_id,
        mint_option,
        mint_option.count as int,
    ).0
}

/// Mints `mint_option.count` fresh avatars from one 32-byte seed hash
/// (derived externally from a per-call nonce, player and purpose).  The
/// season record is carried for interface fidelity; the version-2
/// formulas take no tuning from it.  Never fails: the DNA source always
/// yields 32-byte buffers.
pub fn mint_avatar_set(
    seed: &Vec<u8>,
    season_id: SeasonId,
    _season: &Season,
    mint_option: MintOption,
) -> (r: Result<Vec<(AvatarId, Avatar)>, AvatarError>)
    requires
        seed@.len() == 32,
    ensures
        r matches Ok(minted) && spec_mint_outputs_view(minted@) == spec_mint_avatar_set(
            seed@,
            season_id,
            mint_option,
        ) && minted@.len() == mint_option.count && (forall|j: int|
            0 <= j < minted@.len() ==> (#[trigger] minted@[j].1).wf()),
{
    let mut hash_provider = HashProvider::new(seed);
    let count = mint_option.count as usize;
    let mut minted_avatars: Vec<(AvatarId, Avatar)> = Vec::new();
    proof {
        assert(spec_mint_outputs_view(minted_avatars@) =~= Seq::<(AvatarId, AvatarModel)>::empty());
    }
    let mut i: usize = 0;
    while i < count
        invariant
            count == mint_option.count,
            hash_provider.wf(),
            0 <= i <= count,
            minted_avatars@.len() == i,
            spec_mint_outputs_view(minted_avatars@) == spec_mint_avatar_set_rec(
                spec_initial_provider(seed@),
                season_id,
                mint_option,
                i as int,
            ).0,
            hash_provider@ == spec_mint_avatar_set_rec(
                spec_initial_provider(seed@),
                season_id,
                mint_option,
                i as int,
            ).1,
            forall|j: int| 0 <= j < minted_avatars@.len() ==> (#[trigger] minted_avatars@[j].1).wf(),
        decreases count - i,
    {
        let minted = match mint_one(season_id, mint_option, &mut hash_provider) {
            Ok(minted) => minted,
            Err(e) => {
                return Err(e);
            },
        };
        minted_avatars.push(minted);
        proof {
            assert(spec_mint_outputs_view(minted_avatars@) =~= spec_mint_avatar_set_rec(
                spec_initial_provider(seed@),
                season_id,
                mint_option,
                i as int + 1,
            ).0);
        }
        i = i + 1;
    }
    Ok(minted_avatars)
}

/// Law (determinism): a mint call's output is a pure function of the
/// seed bytes and the inputs — two runs with the same seed, season tag
/// and options return identical identifiers and byte-identical DNA.
pub proof fn lemma_mint_deterministic(
    seed: Seq<u8>,
    season_id: SeasonId,
    mint_option: MintOption,
    run_1: Seq<(AvatarId, AvatarModel)>,
    run_2: Seq<(AvatarId, AvatarModel)>,
)
    requires
        run_1 == spec_mint_avatar_set(seed, season_id, mint_option),
        run_2 == spec_mint_avatar_set(seed, season_id, mint_option),
    ensures
        run_1 == run_2,
{
}

} // verus!
