//! Tests of the minter, with the canonical regression seed.

use awesome_avatars::dna::AvatarAttributes;
use awesome_avatars::dna::read_attribute;
use awesome_avatars::mint::mint_avatar_set;
use awesome_avatars::types::AvatarVersion;
use awesome_avatars::types::MintOption;
use awesome_avatars::types::PackType;
use awesome_avatars::types::RarityType;
use awesome_avatars::types::Season;

fn test_season() -> Season {
    Season {
        max_components: 16,
        tiers: vec![RarityType::Common, RarityType::Rare, RarityType::Legendary],
        single_mint_probs: vec![950, 45, 5],
        batch_mint_probs: vec![980, 19, 1],
        max_variations: 6,
    }
}

fn canonical_seed() -> Vec<u8> {
    (1u8..=32).collect()
}

#[test]
fn mint_determinism() {
    // The canonical regression fixture: seed 1,2,3,...,32, one avatar
    // from a material pack.
    let seed = canonical_seed();
    let option = MintOption {
        count: 1,
        mint_pack: PackType::Material,
        mint_version: AvatarVersion::V2,
    };
    let season = test_season();
    let run_1 = mint_avatar_set(&seed, 9, &season, option).expect("mint never fails");
    let run_2 = mint_avatar_set(&seed, 9, &season, option).expect("mint never fails");
    assert_eq!(run_1.len(), 1);
    assert_eq!(run_1, run_2);

    let (_, avatar) = &run_1[0];
    assert_eq!(avatar.season_id, 9);
    assert_eq!(avatar.version, AvatarVersion::V2);
    assert_eq!(avatar.dna.len(), 32);
    // Pinned expected triple for this seed: the first roll (986) picks
    // the equipable archetype, the subtype roll (22) its armor base,
    // and the souls splice yields 14.
    assert_eq!(read_attribute(avatar, AvatarAttributes::ItemType), 4);
    assert_eq!(read_attribute(avatar, AvatarAttributes::ItemSubType), 1);
    assert_eq!(avatar.souls, 14);
    // An equipable mints with one unit and uncommon rarity.
    assert_eq!(read_attribute(avatar, AvatarAttributes::Quantity), 1);
    assert_eq!(read_attribute(avatar, AvatarAttributes::RarityType), 2);
}

#[test]
fn mint_pet_part_from_material_pack() {
    // An all-zero seed rolls 1 everywhere: the material pack's item
    // table lands on the pet archetype and its subtype table on the pet
    // part.
    let seed: Vec<u8> = vec![0u8; 32];
    let option = MintOption {
        count: 1,
        mint_pack: PackType::Material,
        mint_version: AvatarVersion::V2,
    };
    let minted = mint_avatar_set(&seed, 2, &test_season(), option).expect("mint never fails");
    let (_, avatar) = &minted[0];
    assert_eq!(read_attribute(avatar, AvatarAttributes::ItemType), 1);
    assert_eq!(read_attribute(avatar, AvatarAttributes::ItemSubType), 2);
    // Slot and class are the tables' first entries under roll 1.
    assert_eq!(read_attribute(avatar, AvatarAttributes::ClassType1), 1);
    assert_eq!(read_attribute(avatar, AvatarAttributes::ClassType2), 1);
    // The stackability ratio is 1, so souls equal the derived quantity.
    let quantity = read_attribute(avatar, AvatarAttributes::Quantity);
    assert!(quantity < 8);
    assert_eq!(avatar.souls, quantity as u32);
}

#[test]
fn mint_egg_from_special_pack() {
    // The special pack's pet subtype table holds only the egg.
    let seed: Vec<u8> = vec![0u8; 32];
    let option = MintOption {
        count: 1,
        mint_pack: PackType::Special,
        mint_version: AvatarVersion::V2,
    };
    let minted = mint_avatar_set(&seed, 2, &test_season(), option).expect("mint never fails");
    let (_, avatar) = &minted[0];
    assert_eq!(read_attribute(avatar, AvatarAttributes::ItemType), 1);
    assert_eq!(read_attribute(avatar, AvatarAttributes::ItemSubType), 3);
    assert_eq!(read_attribute(avatar, AvatarAttributes::RarityType), 1);
    assert_eq!(read_attribute(avatar, AvatarAttributes::Quantity), 1);
    assert!((1..=99).contains(&avatar.souls));
    // The egg's progress array: variations below the cycle, tiers at or
    // one above common, the last slot pinned to common.
    for i in 0..11 {
        let byte = avatar.dna[21 + i];
        assert!(byte & 0x0f < 6);
        if i == 10 {
            assert_eq!(byte >> 4, 1);
        } else {
            assert!(byte >> 4 == 1 || byte >> 4 == 2);
        }
    }
}

#[test]
fn mint_count_is_honoured() {
    let seed = canonical_seed();
    let option = MintOption {
        count: 6,
        mint_pack: PackType::Equipment,
        mint_version: AvatarVersion::V2,
    };
    let season = test_season();
    let minted = mint_avatar_set(&seed, 1, &season, option).expect("mint never fails");
    assert_eq!(minted.len(), 6);
    for (_, avatar) in &minted {
        assert_eq!(avatar.dna.len(), 32);
        assert_eq!(avatar.version, AvatarVersion::V2);
        let item_type = read_attribute(avatar, AvatarAttributes::ItemType);
        assert!((1..=6).contains(&item_type));
    }
}

#[test]
fn mint_differs_across_seeds() {
    let option = MintOption {
        count: 1,
        mint_pack: PackType::Special,
        mint_version: AvatarVersion::V2,
    };
    let season = test_season();
    let seed_1 = canonical_seed();
    let seed_2: Vec<u8> = vec![200u8; 32];
    let run_1 = mint_avatar_set(&seed_1, 1, &season, option).expect("mint never fails");
    let run_2 = mint_avatar_set(&seed_2, 1, &season, option).expect("mint never fails");
    assert_ne!(run_1[0].1.dna, run_2[0].1.dna);
}
