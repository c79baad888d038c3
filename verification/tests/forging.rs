//! Tests of the classifier and the combination algorithms.

use awesome_avatars::builder::AvatarBuilder;
use awesome_avatars::dna::Avatar;
use awesome_avatars::dna::AvatarAttributes;
use awesome_avatars::dna::AvatarSpecBytes;
use awesome_avatars::dna::read_attribute;
use awesome_avatars::dna::read_full_spec_bytes;
use awesome_avatars::dna::read_spec_byte;
use awesome_avatars::dna::write_attribute;
use awesome_avatars::forge::ForgeOutput;
use awesome_avatars::forge::LeaderForgeOutput;
use awesome_avatars::forge::can_be_forged;
use awesome_avatars::forge::forge_with;
use awesome_avatars::types::AvatarError;
use awesome_avatars::types::AvatarVersion;
use awesome_avatars::types::BlueprintItemType;
use awesome_avatars::types::EquipableItemType;
use awesome_avatars::types::ForgeType;
use awesome_avatars::types::MaterialItemType;
use awesome_avatars::types::PetItemType;
use awesome_avatars::types::PetType;
use awesome_avatars::types::RarityType;
use awesome_avatars::types::Season;
use awesome_avatars::types::SlotType;

fn test_season() -> Season {
    Season {
        max_components: 16,
        tiers: vec![RarityType::Common, RarityType::Rare, RarityType::Legendary],
        single_mint_probs: vec![950, 45, 5],
        batch_mint_probs: vec![980, 19, 1],
        max_variations: 6,
    }
}

fn zero_avatar() -> Avatar {
    Avatar { season_id: 0, version: AvatarVersion::V2, dna: vec![0u8; 32], souls: 0 }
}

fn material(kind: MaterialItemType, quantity: u8) -> Avatar {
    AvatarBuilder::with_base_avatar(zero_avatar()).into_material(kind, quantity).build()
}

fn consumed_ids(outputs: &[ForgeOutput]) -> Vec<u64> {
    outputs
        .iter()
        .filter_map(|output| match output {
            ForgeOutput::Consumed(id) => Some(*id),
            _ => None,
        })
        .collect()
}

fn minted_count(outputs: &[ForgeOutput]) -> usize {
    outputs
        .iter()
        .filter(|output| matches!(output, ForgeOutput::Minted(_)))
        .count()
}

#[test]
fn stack_of_three_materials() {
    // Leader Material(Polymers, qty 2, souls 2); three sacrifices
    // Material(Polymers, qty 1, souls 1) each.  With this seed all
    // three byproduct draws (bytes 1, 2, 3) fall under the stack
    // threshold, so exactly one essence is minted.
    let seed: Vec<u8> = (1u8..=32).collect();
    let leader = material(MaterialItemType::Polymers, 2);
    let sacrifices = vec![
        (11u64, material(MaterialItemType::Polymers, 1)),
        (12u64, material(MaterialItemType::Polymers, 1)),
        (13u64, material(MaterialItemType::Polymers, 1)),
    ];
    let season = test_season();
    let verdict = can_be_forged(&season, &(10u64, leader.clone()), &sacrifices);
    assert_eq!(verdict, Ok(ForgeType::Stack));

    let (leader_out, outputs) =
        forge_with(&seed, 0, &season, (10u64, leader), sacrifices).expect("stack never fails");
    match leader_out {
        LeaderForgeOutput::Forged((id, after), _) => {
            assert_eq!(id, 10);
            assert_eq!(read_attribute(&after, AvatarAttributes::Quantity), 5);
            assert_eq!(after.souls, 5);
        },
        LeaderForgeOutput::Consumed(_) => panic!("the stack leader persists"),
    }
    assert_eq!(consumed_ids(&outputs), vec![11, 12, 13]);
    assert_eq!(minted_count(&outputs), 1);

    // A seed whose draws all clear the threshold mints nothing.
    let dry_seed: Vec<u8> = vec![50u8; 32];
    let leader = material(MaterialItemType::Polymers, 2);
    let sacrifices = vec![
        (11u64, material(MaterialItemType::Polymers, 1)),
        (12u64, material(MaterialItemType::Polymers, 1)),
        (13u64, material(MaterialItemType::Polymers, 1)),
    ];
    let (_, outputs) =
        forge_with(&dry_seed, 0, &season, (10u64, leader), sacrifices).expect("stack never fails");
    assert_eq!(minted_count(&outputs), 0);
    assert_eq!(consumed_ids(&outputs), vec![11, 12, 13]);
}

#[test]
fn incompatible_versions_are_rejected() {
    // Leader V2, one sacrifice V1: rejected before any combination.
    let season = test_season();
    let leader = material(MaterialItemType::Polymers, 2);
    let mut old_version = material(MaterialItemType::Polymers, 1);
    old_version.version = AvatarVersion::V1;
    let sacrifices = vec![(2u64, old_version)];
    assert_eq!(
        can_be_forged(&season, &(1u64, leader.clone()), &sacrifices),
        Err(AvatarError::IncompatibleAvatarVersions)
    );
    let seed: Vec<u8> = vec![0u8; 32];
    assert_eq!(
        forge_with(&seed, 0, &season, (1u64, leader), sacrifices),
        Err(AvatarError::IncompatibleAvatarVersions)
    );
}

#[test]
fn unclassifiable_components_are_rejected() {
    // An essence leader never forges.
    let season = test_season();
    let leader = AvatarBuilder::with_base_avatar(zero_avatar())
        .into_essence(awesome_avatars::types::EssenceItemType::Glimmer, 1)
        .build();
    let sacrifices = vec![(2u64, material(MaterialItemType::Polymers, 1))];
    assert_eq!(
        can_be_forged(&season, &(1u64, leader), &sacrifices),
        Err(AvatarError::InvalidForgeComponents)
    );
}

#[test]
fn equip_beyond_max_slots_skips_the_slot() {
    // A legendary pet whose sixteen equipment slots are all filled; the
    // sacrifice targets an occupied slot, so the slot stays untouched,
    // yet the sacrifice is consumed and its souls move to the leader.
    let season = test_season();
    let mut leader = AvatarBuilder::with_base_avatar(zero_avatar())
        .into_pet(PetItemType::Pet)
        .with_attribute(AvatarAttributes::RarityType, RarityType::Legendary)
        .with_attribute(AvatarAttributes::ClassType2, PetType::WierdFerry)
        .build();
    for byte in 5..21 {
        leader.dna[byte] = 0x10;
    }
    let sacrifice = AvatarBuilder::with_base_avatar(zero_avatar())
        .into_equipable(
            EquipableItemType::ArmorBase,
            PetType::WierdFerry,
            SlotType::Head,
            RarityType::Legendary,
            7,
        )
        .build();
    assert_eq!(read_spec_byte(&sacrifice, AvatarSpecBytes::SpecByte1), 1);

    let sacrifices = vec![(2u64, sacrifice)];
    assert_eq!(can_be_forged(&season, &(1u64, leader.clone()), &sacrifices), Ok(ForgeType::Equip));

    let seed: Vec<u8> = vec![9u8; 32];
    let (leader_out, outputs) =
        forge_with(&seed, 0, &season, (1u64, leader), sacrifices).expect("equip never fails");
    match leader_out {
        LeaderForgeOutput::Forged((_, after), _) => {
            // Every slot still holds its old piece.
            assert_eq!(read_full_spec_bytes(&after), vec![0x10u8; 16]);
            assert_eq!(after.souls, 7);
        },
        LeaderForgeOutput::Consumed(_) => panic!("the equip leader persists"),
    }
    assert_eq!(consumed_ids(&outputs), vec![2]);
    assert_eq!(minted_count(&outputs), 0);
}

#[test]
fn equip_fills_an_empty_slot() {
    let season = test_season();
    let leader = AvatarBuilder::with_base_avatar(zero_avatar())
        .into_pet(PetItemType::Pet)
        .with_attribute(AvatarAttributes::RarityType, RarityType::Legendary)
        .with_attribute(AvatarAttributes::ClassType2, PetType::FireDino)
        .build();
    let sacrifice = AvatarBuilder::with_base_avatar(zero_avatar())
        .into_equipable(
            EquipableItemType::ArmorBase,
            PetType::FireDino,
            SlotType::Breast,
            RarityType::Legendary,
            3,
        )
        .build();
    let sacrifices = vec![(2u64, sacrifice)];
    let seed: Vec<u8> = vec![9u8; 32];
    let (leader_out, _) =
        forge_with(&seed, 0, &season, (1u64, leader), sacrifices).expect("equip never fails");
    match leader_out {
        LeaderForgeOutput::Forged((_, after), _) => {
            // Slot 2 (the breast slot) now carries the sacrifice's
            // armor-assembly byte.
            let bytes = read_full_spec_bytes(&after);
            assert_eq!(bytes[2], 1);
            assert_eq!(after.souls, 3);
        },
        LeaderForgeOutput::Consumed(_) => panic!("the equip leader persists"),
    }
}

#[test]
fn tinker_without_a_pattern_hands_sacrifices_back() {
    // A pet-part leader with empty stored patterns never matches, so
    // the sacrifices come back unchanged.
    let season = test_season();
    let leader = AvatarBuilder::with_base_avatar(zero_avatar())
        .into_pet_part(PetType::TankyBulldog, SlotType::Head, 2)
        .build();
    let sacrifices = vec![(2u64, material(MaterialItemType::Polymers, 1))];
    assert_eq!(can_be_forged(&season, &(1u64, leader.clone()), &sacrifices), Ok(ForgeType::Tinker));
    let seed: Vec<u8> = vec![9u8; 32];
    let (leader_out, outputs) =
        forge_with(&seed, 0, &season, (1u64, leader), sacrifices).expect("tinker never fails here");
    assert!(matches!(leader_out, LeaderForgeOutput::Forged(_, _)));
    assert_eq!(outputs.len(), 1);
    match &outputs[0] {
        ForgeOutput::Forged((id, sacrifice), _) => {
            assert_eq!(*id, 2);
            assert_eq!(read_attribute(sacrifice, AvatarAttributes::Quantity), 1);
        },
        _ => panic!("an unmatched tinker hands its sacrifices back"),
    }
}

#[test]
fn tinker_mints_a_blueprint_on_a_matched_pattern() {
    // The stored pattern byte 1 (polymers alone) decodes to four
    // polymer positions, so four polymer sacrifices match.
    let season = test_season();
    let leader = AvatarBuilder::with_base_avatar(zero_avatar())
        .into_pet_part(PetType::TankyBulldog, SlotType::Head, 2)
        .with_spec_byte(AvatarSpecBytes::SpecByte1, 1)
        .with_spec_byte(AvatarSpecBytes::SpecByte2, 0)
        .build();
    let sacrifices: Vec<(u64, Avatar)> = (1u64..=4)
        .map(|id| (10 + id, material(MaterialItemType::Polymers, 1)))
        .collect();
    let seed: Vec<u8> = vec![9u8; 32];
    let (_, outputs) = forge_with(&seed, 0, &season, (1u64, leader), sacrifices)
        .expect("a matched tinker mints");
    // All four sacrifices drained to zero and consumed, one blueprint
    // minted carrying their four released souls.
    assert_eq!(consumed_ids(&outputs), vec![11, 12, 13, 14]);
    assert_eq!(minted_count(&outputs), 1);
    let blueprint = outputs
        .iter()
        .find_map(|output| match output {
            ForgeOutput::Minted(avatar) => Some(avatar),
            _ => None,
        })
        .expect("one minted blueprint");
    assert_eq!(
        read_attribute(blueprint, AvatarAttributes::ItemType),
        5,
    );
    assert_eq!(blueprint.souls, 4);
    assert_eq!(read_attribute(blueprint, AvatarAttributes::Quantity), 4);
    assert_eq!(read_spec_byte(blueprint, AvatarSpecBytes::SpecByte1), 1);
    // The first pattern matched, so the blueprint builds the armor base.
    assert_eq!(read_spec_byte(blueprint, AvatarSpecBytes::SpecByte3), 1);
}

#[test]
fn build_with_a_wrong_pattern_is_unsupported() {
    let season = test_season();
    let pattern = vec![MaterialItemType::Polymers];
    let leader = AvatarBuilder::with_base_avatar(zero_avatar())
        .into_blueprint(
            BlueprintItemType::Blueprint,
            PetType::TankyBulldog,
            SlotType::Head,
            EquipableItemType::ArmorBase,
            &pattern,
            4,
        )
        .build();
    let sacrifices = vec![(2u64, material(MaterialItemType::Electronics, 3))];
    assert_eq!(can_be_forged(&season, &(1u64, leader.clone()), &sacrifices), Ok(ForgeType::Build));
    let seed: Vec<u8> = vec![9u8; 32];
    assert_eq!(
        forge_with(&seed, 0, &season, (1u64, leader), sacrifices),
        Err(AvatarError::UnsupportedForgeOutcome)
    );
}

#[test]
fn breed_keeps_an_unready_egg() {
    // Two common eggs breed: the match pass runs, but the leader is far
    // from legendary, so it stays an egg; the sacrifice is consumed and
    // its souls absorbed.
    let season = test_season();
    let mut leader = AvatarBuilder::with_base_avatar(zero_avatar())
        .into_egg(RarityType::Common, 0b0101)
        .with_soul_count(10)
        .build();
    let progress: Vec<u8> = vec![0x11; 11];
    for (i, byte) in progress.iter().enumerate() {
        leader.dna[21 + i] = *byte;
    }
    let mut sacrifice = AvatarBuilder::with_base_avatar(zero_avatar())
        .into_egg(RarityType::Common, 0b0011)
        .with_soul_count(5)
        .build();
    for i in 0..11 {
        sacrifice.dna[21 + i] = 0x12;
    }
    let sacrifices = vec![(2u64, sacrifice)];
    assert_eq!(can_be_forged(&season, &(1u64, leader.clone()), &sacrifices), Ok(ForgeType::Breed));
    let seed: Vec<u8> = vec![9u8; 32];
    let (leader_out, outputs) =
        forge_with(&seed, 0, &season, (1u64, leader), sacrifices).expect("breed never fails");
    match leader_out {
        LeaderForgeOutput::Forged((_, after), _) => {
            // Still an egg (subtype 3), rarity written back from the
            // lowest progress tier (1), souls absorbed.
            assert_eq!(read_attribute(&after, AvatarAttributes::ItemSubType), 3);
            assert_eq!(read_attribute(&after, AvatarAttributes::RarityType), 1);
            assert_eq!(after.souls, 15);
        },
        LeaderForgeOutput::Consumed(_) => panic!("the breed leader persists"),
    }
    assert_eq!(consumed_ids(&outputs), vec![2]);
}

#[test]
fn forge_is_deterministic() {
    let season = test_season();
    let seed: Vec<u8> = (1u8..=32).collect();
    let run = || {
        let leader = material(MaterialItemType::Metals, 10);
        let sacrifices = vec![
            (21u64, material(MaterialItemType::Metals, 4)),
            (22u64, material(MaterialItemType::Metals, 7)),
        ];
        forge_with(&seed, 3, &season, (20u64, leader), sacrifices).expect("stack never fails")
    };
    let run_1 = run();
    let run_2 = run();
    match (&run_1.0, &run_2.0) {
        (LeaderForgeOutput::Forged((_, a), _), LeaderForgeOutput::Forged((_, b), _)) => {
            assert_eq!(a.dna, b.dna);
            assert_eq!(a.souls, b.souls);
        },
        _ => panic!("both runs forge the leader"),
    }
    assert_eq!(run_1.1.len(), run_2.1.len());
}
