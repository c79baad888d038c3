//! The weighted slot roller: given an ordered (value, weight) table
//! whose weights are per-mille values, one provider-drawn roll number in
//! 1..=1000 picks a slot with probability weight/1000.

use vstd::prelude::*;

use crate::hash_provider::HashProvider;
use crate::hash_provider::ProviderModel;
use crate::hash_provider::spec_get_hash_byte;
use crate::types::FromByte;
use crate::types::PackType;

verus! {

/// The roll number drawn from a provider: four stream bytes spliced into
/// a 32-bit value, reduced to 1..=1000; and the provider afterwards.
pub open spec fn spec_roll_number(m: ProviderModel) -> (u32, ProviderModel) {
    let (b0, m0) = spec_get_hash_byte(m);
    let (b1, m1) = spec_get_hash_byte(m0);
    let (b2, m2) = spec_get_hash_byte(m1);
    let (b3, m3) = spec_get_hash_byte(m2);
    let combined = (b0 as u32) | ((b1 as u32) << 8) | ((b2 as u32) << 16) | ((b3 as u32) << 24);
    ((combined % 1000 + 1) as u32, m3)
}

/// Draws a roll number between 1 and 1000, consuming four stream bytes.
pub fn roll_number(hash_provider: &mut HashProvider) -> (r: u32)
    requires
        old(hash_provider).wf(),
    ensures
        final(hash_provider).wf(),
        r == spec_roll_number(old(hash_provider)@).0,
        final(hash_provider)@ == spec_roll_number(old(hash_provider)@).1,
        1 <= r <= 1000,
{
    let b0 = hash_provider.get_hash_byte();
    let b1 = hash_provider.get_hash_byte();
    let b2 = hash_provider.get_hash_byte();
    let b3 = hash_provider.get_hash_byte();
    let combined = (b0 as u32) | ((b1 as u32) << 8) | ((b2 as u32) << 16) | ((b3 as u32) << 24);
    combined % 1000 + 1
}

/// The slot a roll lands on: weights are subtracted from the roll in
/// table order and the first slot to absorb it wins; `None` when the
/// weights run out first.
pub open spec fn spec_roll_pick<S>(slots: Seq<(S, u32)>, roll: u32) -> Option<S>
    decreases slots.len(),
{
    if slots.len() == 0 {
        None
    } else if roll <= slots[0].1 {
        Some(slots[0].0)
    } else {
        spec_roll_pick(slots.drop_first(), (roll - slots[0].1) as u32)
    }
}

/// The index of the slot a roll lands on (the table length when the
/// weights run out first).
pub open spec fn spec_roll_index<S>(slots: Seq<(S, u32)>, roll: u32) -> int
    decreases slots.len(),
{
    if slots.len() == 0 {
        0
    } else if roll <= slots[0].1 {
        0
    } else {
        1 + spec_roll_index(slots.drop_first(), (roll - slots[0].1) as u32)
    }
}

/// The sum of the first `i` slot weights.
pub open spec fn spec_prefix_weight<S>(slots: Seq<(S, u32)>, i: int) -> int
    decreases i,
{
    if i <= 0 || slots.len() == 0 {
        0
    } else {
        slots[0].1 + spec_prefix_weight(slots.drop_first(), i - 1)
    }
}

/// The sum of all slot weights.
pub open spec fn spec_weights_total<S>(slots: Seq<(S, u32)>) -> int {
    spec_prefix_weight(slots, slots.len() as int)
}

/// What rolling on a table yields: the picked slot value — or, when no
/// slot absorbs the roll, the value decoded from byte 0 (the
/// enumeration's first variant) — and the provider afterwards.
pub open spec fn spec_roll_on<S: FromByte>(slots: Seq<(S, u32)>, m: ProviderModel) -> (
    S,
    ProviderModel,
) {
    let (roll, m1) = spec_roll_number(m);
    let picked = match spec_roll_pick(slots, roll) {
        Some(s) => s,
        None => S::spec_from_byte(0),
    };
    (picked, m1)
}

/// Rolls once on a slot table.
pub fn roll_on<S: Copy + FromByte>(slots: &Vec<(S, u32)>, hash_provider: &mut HashProvider) -> (r:
    S)
    requires
        old(hash_provider).wf(),
    ensures
        final(hash_provider).wf(),
        r == spec_roll_on(slots@, old(hash_provider)@).0,
        final(hash_provider)@ == spec_roll_on(slots@, old(hash_provider)@).1,
{
    let roll0 = roll_number(hash_provider);
    let mut roll = roll0;
    let mut result: S = S::from_byte(0);
    let mut picked = false;
    let mut i: usize = 0;
    proof {
        assert(slots@.skip(0) =~= slots@);
    }
    while i < slots.len() && !picked
        invariant
            0 <= i <= slots@.len(),
            picked ==> spec_roll_pick(slots@, roll0) == Some(result),
            !picked ==> spec_roll_pick(slots@, roll0) == spec_roll_pick(
                slots@.skip(i as int),
                roll,
            ),
            !picked ==> roll >= 1,
            !picked ==> result == S::spec_from_byte(0),
        decreases slots@.len() - i,
    {
        let (slot_item, slot_probability) = slots[i];
        proof {
            assert(slots@.skip(i as int).drop_first() =~= slots@.skip(i as int + 1));
            assert(slots@.skip(i as int)[0] == slots@[i as int]);
        }
        if roll <= slot_probability {
            result = slot_item;
            picked = true;
        } else {
            roll = roll - slot_probability;
        }
        i = i + 1;
    }
    proof {
        if !picked {
            assert(slots@.skip(slots@.len() as int) =~= Seq::<(S, u32)>::empty());
        }
    }
    result
}

/// Rolls on one of three tables, selected by the pack tier.
pub fn roll_on_pack_type<S: Copy + FromByte>(
    pack_type: PackType,
    on_material: &Vec<(S, u32)>,
    on_equipment: &Vec<(S, u32)>,
    on_special: &Vec<(S, u32)>,
    hash_provider: &mut HashProvider,
) -> (r: S)
    requires
        old(hash_provider).wf(),
    ensures
        final(hash_provider).wf(),
        ({
            let slots = match pack_type {
                PackType::Material => on_material@,
                PackType::Equipment => on_equipment@,
                PackType::Special => on_special@,
            };
            r == spec_roll_on(slots, old(hash_provider)@).0 && final(hash_provider)@
                == spec_roll_on(slots, old(hash_provider)@).1
        }),
{
    let slots = match pack_type {
        PackType::Material => on_material,
        PackType::Equipment => on_equipment,
        PackType::Special => on_special,
    };
    roll_on(slots, hash_provider)
}

/// Law: when a roll lies within the table's total weight, it lands on
/// the unique slot whose weight interval contains it: slot `idx` with
/// `prefix(idx) < roll <= prefix(idx) + weight(idx)`.  Over the full
/// roll domain `1..=total` (1000 for the minter's tables) each slot is
/// therefore returned for exactly `weight(idx)` roll values, so every
/// slot of positive weight is returned at least once.
pub proof fn lemma_roll_coverage<S>(slots: Seq<(S, u32)>, roll: u32)
    requires
        1 <= roll,
        roll <= spec_weights_total(slots),
    ensures
        ({
            let idx = spec_roll_index(slots, roll);
            0 <= idx < slots.len() && spec_roll_pick(slots, roll) == Some(slots[idx].0)
                && spec_prefix_weight(slots, idx) < roll && roll <= spec_prefix_weight(slots, idx)
                + slots[idx].1
        }),
    decreases slots.len(),
{
    if slots.len() == 0 {
        assert(spec_weights_total(slots) == 0);
    } else if roll <= slots[0].1 {
    } else {
        let rest = slots.drop_first();
        let rolled = (roll - slots[0].1) as u32;
        assert(spec_weights_total(slots) == slots[0].1 + spec_weights_total(rest));
        lemma_roll_coverage(rest, rolled);
        let idx = spec_roll_index(slots, roll);
        assert(idx == 1 + spec_roll_index(rest, rolled));
        assert(spec_prefix_weight(slots, idx) == slots[0].1 + spec_prefix_weight(rest, idx - 1));
        assert(slots[idx] == rest[idx - 1]);
    }
}

/// Law: every slot of positive weight is reachable — the first roll of
/// its interval, `prefix(i) + 1`, lands exactly on slot `i`.
pub proof fn lemma_positive_weight_hit<S>(slots: Seq<(S, u32)>, i: int)
    requires
        0 <= i < slots.len(),
        slots[i].1 >= 1,
        spec_prefix_weight(slots, i) + 1 <= u32::MAX,
    ensures
        spec_roll_pick(slots, (spec_prefix_weight(slots, i) + 1) as u32) == Some(slots[i].0),
    decreases i,
{
    lemma_prefix_weight_nonneg(slots, i);
    if i == 0 {
    } else {
        let rest = slots.drop_first();
        lemma_prefix_weight_nonneg(rest, i - 1);
        lemma_positive_weight_hit(rest, i - 1);
        assert(slots[i] == rest[i - 1]);
        assert(spec_prefix_weight(slots, i) == slots[0].1 + spec_prefix_weight(rest, i - 1));
    }
}

/// Prefix weights are never negative.
pub proof fn lemma_prefix_weight_nonneg<S>(slots: Seq<(S, u32)>, i: int)
    ensures
        spec_prefix_weight(slots, i) >= 0,
    decreases i,
{
    if i > 0 && slots.len() > 0 {
        lemma_prefix_weight_nonneg(slots.drop_first(), i - 1);
    }
}

} // verus!
