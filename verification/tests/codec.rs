//! Tests of the DNA codec, the bit-packing helpers, and the
//! deterministic hash provider.

use awesome_avatars::builder::AvatarBuilder;
use awesome_avatars::dna::Avatar;
use awesome_avatars::dna::AvatarAttributes;
use awesome_avatars::dna::AvatarSpecBytes;
use awesome_avatars::dna::ByteType;
use awesome_avatars::dna::can_use_avatar;
use awesome_avatars::dna::is_same_type_as;
use awesome_avatars::dna::match_progress_arrays;
use awesome_avatars::dna::match_progress_byte;
use awesome_avatars::dna::read_attribute;
use awesome_avatars::dna::read_full_spec_bytes;
use awesome_avatars::dna::read_lowest_progress_byte;
use awesome_avatars::dna::read_progress_array;
use awesome_avatars::dna::read_spec_byte;
use awesome_avatars::dna::use_avatar;
use awesome_avatars::dna::write_attribute;
use awesome_avatars::dna::write_progress_bytes;
use awesome_avatars::dna::write_spec_byte;
use awesome_avatars::bits::bits_order_to_enum;
use awesome_avatars::bits::bits_to_enums;
use awesome_avatars::bits::enums_order_to_bits;
use awesome_avatars::bits::enums_to_bits;
use awesome_avatars::hash_provider::HashProvider;
use awesome_avatars::mint::MutatorUtils;
use awesome_avatars::roller::roll_number;
use awesome_avatars::roller::roll_on;
use awesome_avatars::types::AvatarVersion;
use awesome_avatars::types::ItemType;
use awesome_avatars::types::MaterialItemType;
use awesome_avatars::types::RarityType;

fn zero_avatar() -> Avatar {
    Avatar { season_id: 0, version: AvatarVersion::V2, dna: vec![0u8; 32], souls: 0 }
}

#[test]
fn attribute_write_reads_back() {
    let mut avatar = zero_avatar();
    write_attribute(&mut avatar, AvatarAttributes::ItemType, 4);
    write_attribute(&mut avatar, AvatarAttributes::ItemSubType, 7);
    write_attribute(&mut avatar, AvatarAttributes::ClassType1, 3);
    write_attribute(&mut avatar, AvatarAttributes::ClassType2, 5);
    write_attribute(&mut avatar, AvatarAttributes::CustomType1, 1);
    write_attribute(&mut avatar, AvatarAttributes::RarityType, 2);
    write_attribute(&mut avatar, AvatarAttributes::Quantity, 200);
    write_attribute(&mut avatar, AvatarAttributes::CustomType2, 99);
    assert_eq!(read_attribute(&avatar, AvatarAttributes::ItemType), 4);
    assert_eq!(read_attribute(&avatar, AvatarAttributes::ItemSubType), 7);
    assert_eq!(read_attribute(&avatar, AvatarAttributes::ClassType1), 3);
    assert_eq!(read_attribute(&avatar, AvatarAttributes::ClassType2), 5);
    assert_eq!(read_attribute(&avatar, AvatarAttributes::CustomType1), 1);
    assert_eq!(read_attribute(&avatar, AvatarAttributes::RarityType), 2);
    assert_eq!(read_attribute(&avatar, AvatarAttributes::Quantity), 200);
    assert_eq!(read_attribute(&avatar, AvatarAttributes::CustomType2), 99);
    // Nibble packing per the layout table.
    assert_eq!(avatar.dna[0], 0x47);
    assert_eq!(avatar.dna[1], 0x35);
    assert_eq!(avatar.dna[2], 0x12);
    assert_eq!(avatar.dna[3], 200);
    assert_eq!(avatar.dna[4], 99);
}

#[test]
fn nibble_write_preserves_sibling() {
    let mut avatar = zero_avatar();
    write_attribute(&mut avatar, AvatarAttributes::ItemType, 4);
    write_attribute(&mut avatar, AvatarAttributes::ItemSubType, 9);
    // Rewriting the high nibble leaves the low nibble alone and the
    // other way round.
    write_attribute(&mut avatar, AvatarAttributes::ItemType, 2);
    assert_eq!(read_attribute(&avatar, AvatarAttributes::ItemSubType), 9);
    write_attribute(&mut avatar, AvatarAttributes::ItemSubType, 3);
    assert_eq!(read_attribute(&avatar, AvatarAttributes::ItemType), 2);
}

#[test]
fn spec_byte_write_reads_back() {
    let mut avatar = zero_avatar();
    write_spec_byte(&mut avatar, AvatarSpecBytes::SpecByte1, 0xAA);
    write_spec_byte(&mut avatar, AvatarSpecBytes::SpecByte16, 0x55);
    assert_eq!(read_spec_byte(&avatar, AvatarSpecBytes::SpecByte1), 0xAA);
    assert_eq!(read_spec_byte(&avatar, AvatarSpecBytes::SpecByte16), 0x55);
    assert_eq!(avatar.dna[5], 0xAA);
    assert_eq!(avatar.dna[20], 0x55);
    let block = read_full_spec_bytes(&avatar);
    assert_eq!(block.len(), 16);
    assert_eq!(block[0], 0xAA);
    assert_eq!(block[15], 0x55);
    // Spec-byte writes never touch the attribute head or the progress
    // array.
    assert_eq!(read_attribute(&avatar, AvatarAttributes::Quantity), 0);
    assert_eq!(read_progress_array(&avatar), vec![0u8; 11]);
}

#[test]
fn progress_array_round_trip() {
    let mut avatar = zero_avatar();
    let progress: Vec<u8> = vec![0x21, 0x13, 0x35, 0x21, 0x14, 0x12, 0x25, 0x11, 0x22, 0x33, 0x10];
    let builder = AvatarBuilder::with_base_avatar(avatar.clone()).with_progress_array(&progress);
    avatar = builder.build();
    assert_eq!(read_progress_array(&avatar), progress);
    assert_eq!(read_lowest_progress_byte(&progress, ByteType::High), 1);
    assert_eq!(read_lowest_progress_byte(&progress, ByteType::Low), 0);
}

#[test]
fn same_type_test_compares_archetypes() {
    let polymers = AvatarBuilder::with_base_avatar(zero_avatar())
        .into_material(MaterialItemType::Polymers, 1)
        .build();
    let metals = AvatarBuilder::with_base_avatar(zero_avatar())
        .into_material(MaterialItemType::Metals, 1)
        .build();
    assert!(is_same_type_as(&polymers, &metals));
    assert!(!is_same_type_as(&polymers, &zero_avatar()));
}

#[test]
fn use_avatar_releases_souls() {
    let avatar = zero_avatar();
    let mut material = AvatarBuilder::with_base_avatar(avatar)
        .into_material(MaterialItemType::Polymers, 3)
        .build();
    assert_eq!(material.souls, 3);
    assert!(can_use_avatar(&material, 3));
    assert!(!can_use_avatar(&material, 4));
    // Partial use releases the stackability ratio (1) per unit.
    let (used, released) = use_avatar(&mut material, 1);
    assert!(used);
    assert_eq!(released, 1);
    assert_eq!(read_attribute(&material, AvatarAttributes::Quantity), 2);
    assert_eq!(material.souls, 2);
    // Draining the quantity releases the whole balance.
    let (used, released) = use_avatar(&mut material, 2);
    assert!(used);
    assert_eq!(released, 2);
    assert_eq!(material.souls, 0);
    // Overdrawing fails and changes nothing.
    let (used, released) = use_avatar(&mut material, 1);
    assert!(!used);
    assert_eq!(released, 0);
}

#[test]
fn progress_variation_matching_is_cyclic() {
    assert!(match_progress_byte(2, 1));
    assert!(!match_progress_byte(1, 2));
    assert!(match_progress_byte(5, 0));
    assert!(!match_progress_byte(3, 1));
    assert!(!match_progress_byte(1, 1));
}

#[test]
fn progress_arrays_match_on_adjacent_variations() {
    // Leader: all slots at tier 1; variations one above the
    // sacrifice's in three slots, equal elsewhere.
    let leader: Vec<u8> = vec![0x12, 0x13, 0x14, 0x11, 0x11, 0x11, 0x11, 0x11, 0x11, 0x11, 0x11];
    let other: Vec<u8> = vec![0x11, 0x12, 0x13, 0x11, 0x11, 0x11, 0x11, 0x11, 0x11, 0x11, 0x11];
    let matches = match_progress_arrays(&leader, &other).expect("three matched slots");
    assert_eq!(matches, vec![0, 1, 2]);
    // A single adjacent slot falls under the handicap and is rejected.
    let weak: Vec<u8> = vec![0x12, 0x11, 0x11, 0x11, 0x11, 0x11, 0x11, 0x11, 0x11, 0x11, 0x11];
    assert!(match_progress_arrays(&weak, &other).is_none());
}

#[test]
fn progress_bytes_derivation_is_masked() {
    let random: Vec<u8> = vec![0, 60, 7, 200, 13, 255, 90, 31, 44, 100, 5];
    let derived = write_progress_bytes(RarityType::Common, 51, &random);
    assert_eq!(derived.len(), 11);
    for (i, byte) in derived.iter().enumerate() {
        let tier = byte >> 4;
        let variation = byte & 0x0f;
        assert_eq!(variation, random[i] % 6);
        if i == 10 {
            assert_eq!(tier, 1);
        } else if random[i] < 51 {
            assert_eq!(tier, 2);
        } else {
            assert_eq!(tier, 1);
        }
    }
}

#[test]
fn bit_packing_round_trips() {
    let list = vec![
        MaterialItemType::Polymers,
        MaterialItemType::Optics,
        MaterialItemType::Nanomaterials,
    ];
    let bits = enums_to_bits(&list);
    assert_eq!(bits, 0b1000_1001);
    let decoded: Vec<MaterialItemType> = bits_to_enums(bits);
    assert_eq!(decoded, list);
}

#[test]
fn order_encoding_round_trips_for_full_patterns() {
    let pattern = vec![
        MaterialItemType::Optics,
        MaterialItemType::Polymers,
        MaterialItemType::Metals,
        MaterialItemType::Electronics,
    ];
    let set_bits = enums_to_bits(&pattern);
    let order_bits = enums_order_to_bits(&pattern);
    let unordered: Vec<MaterialItemType> = bits_to_enums(set_bits);
    let decoded = bits_order_to_enum(order_bits, unordered);
    assert_eq!(decoded, pattern);
}

#[test]
fn hash_provider_is_reproducible() {
    let seed: Vec<u8> = (1u8..=32).collect();
    let mut provider_1 = HashProvider::new(&seed);
    let mut provider_2 = HashProvider::new(&seed);
    let run_1: Vec<u8> = (0..100).map(|_| provider_1.get_hash_byte()).collect();
    let run_2: Vec<u8> = (0..100).map(|_| provider_2.get_hash_byte()).collect();
    assert_eq!(run_1, run_2);
    // The first buffer served is the seed itself.
    assert_eq!(&run_1[0..32], &seed[..]);
    // The refilled buffer differs from the seed.
    assert_ne!(&run_1[32..64], &seed[..]);
    // Full-hash draws are reproducible too, and tweak-dependent.
    let mut provider_3 = HashProvider::new(&seed);
    let mut provider_4 = HashProvider::new(&seed);
    assert_eq!(provider_3.full_hash(7), provider_4.full_hash(7));
    assert_ne!(provider_3.full_hash(3), provider_4.full_hash(11));
}

#[test]
fn roll_number_stays_in_per_mille_range() {
    let seed: Vec<u8> = vec![0xFF; 32];
    let mut provider = HashProvider::new(&seed);
    for _ in 0..50 {
        let roll = roll_number(&mut provider);
        assert!((1..=1000).contains(&roll));
    }
}

#[test]
fn weighted_roll_respects_weights() {
    // A certain slot is always picked, a zero-weight slot never;
    // whatever the roll, the whole weight interval belongs to the
    // certain slot.
    let certain: Vec<(ItemType, u32)> = vec![(ItemType::Special, 1000)];
    let skewed: Vec<(ItemType, u32)> =
        vec![(ItemType::Pet, 0), (ItemType::Material, 1000), (ItemType::Essence, 0)];
    for fill in 0u8..20 {
        let seed: Vec<u8> = vec![fill.wrapping_mul(13); 32];
        let mut provider = HashProvider::new(&seed);
        assert_eq!(roll_on(&certain, &mut provider), ItemType::Special);
        let mut provider = HashProvider::new(&seed);
        assert_eq!(roll_on(&skewed, &mut provider), ItemType::Material);
    }
}

#[test]
fn mutator_utils_formulas() {
    assert_eq!(MutatorUtils::splice_dna_strands(0x12, 0x34), 0x1234);
    assert_eq!(MutatorUtils::splice_dna_strands(0, 7), 7);
    // xor-fold of shifted strands, modulo the max quantity.
    let strands = vec![1u8, 2, 3];
    let folded = ((1u8 << 2) ^ (2u8 << 2) ^ (3u8 << 2)) % 8;
    assert_eq!(MutatorUtils::random_quantity_from_dna_strands(&strands), folded);
}
