//! The DNA codec: typed, bit-masked access to the fields packed inside an
//! avatar's 32-byte DNA.
//!
//! Layout (byte offsets into the 32-byte array):
//! byte 0 high nibble `ItemType`, low nibble `ItemSubType`; byte 1 high
//! nibble `ClassType1`, low nibble `ClassType2`; byte 2 high nibble
//! `CustomType1`, low nibble `RarityType`; byte 3 `Quantity`; byte 4
//! `CustomType2`; bytes 5..=20 the sixteen spec bytes; bytes 21..=31 the
//! eleven progress bytes (high nibble rarity tier, low nibble variation).
//! Nibble writes preserve the sibling nibble.

use vstd::prelude::*;

use crate::types::AvatarVersion;
use crate::types::FromByte;
use crate::types::IntoByte;
use crate::types::RarityType;

verus! {

/// Number of bytes in a (version 2) avatar's DNA.
pub const DNA_LENGTH: usize = 32;

/// Offset of the first spec byte inside the DNA.
pub const SPEC_BYTES_OFFSET: usize = 5;

/// Number of spec bytes.
pub const SPEC_BYTES_COUNT: usize = 16;

/// Offset of the progress array inside the DNA.
pub const PROGRESS_OFFSET: usize = 21;

/// Number of progress bytes.
pub const PROGRESS_LENGTH: usize = 11;

/// Number of variation values a progress byte's low nibble cycles
/// through.
pub const PROGRESS_VARIATIONS: u8 = 6;

/// Which part of a DNA byte an access touches.
#[derive(Clone, Copy, PartialEq, Eq, Structural, Debug)]
pub enum ByteType {
    /// The whole byte.
    Full,
    /// The high nibble.
    High,
    /// The low nibble.
    Low,
}

/// The eight typed attribute fields of an avatar's DNA head.
#[derive(Clone, Copy, PartialEq, Eq, Structural, Debug)]
pub enum AvatarAttributes {
    ItemType,
    ItemSubType,
    ClassType1,
    ClassType2,
    CustomType1,
    CustomType2,
    RarityType,
    Quantity,
}

/// The sixteen archetype-specific auxiliary data bytes.
#[derive(Clone, Copy, PartialEq, Eq, Structural, Debug)]
pub enum AvatarSpecBytes {
    SpecByte1,
    SpecByte2,
    SpecByte3,
    SpecByte4,
    SpecByte5,
    SpecByte6,
    SpecByte7,
    SpecByte8,
    SpecByte9,
    SpecByte10,
    SpecByte11,
    SpecByte12,
    SpecByte13,
    SpecByte14,
    SpecByte15,
    SpecByte16,
}

/// The central entity: a season tag, an encoding version, the DNA byte
/// array, and the redundant soul-point count.
#[derive(Clone, PartialEq, Eq, Debug)]
pub struct Avatar {
    pub season_id: u16,
    pub version: AvatarVersion,
    pub dna: Vec<u8>,
    pub souls: u32,
}

/// The mathematical model of an avatar.
pub ghost struct AvatarModel {
    pub season_id: u16,
    pub version: AvatarVersion,
    pub dna: Seq<u8>,
    pub souls: u32,
}

impl AvatarModel {
    /// Well-formedness: the DNA holds exactly 32 bytes.
    pub open spec fn wf(self) -> bool {
        self.dna.len() == DNA_LENGTH
    }
}

impl View for Avatar {
    type V = AvatarModel;

    open spec fn view(&self) -> AvatarModel {
        AvatarModel {
            season_id: self.season_id,
            version: self.version,
            dna: self.dna@,
            souls: self.souls,
        }
    }
}

impl Avatar {
    /// Well-formedness: the DNA holds exactly 32 bytes.
    pub open spec fn wf(self) -> bool {
        self@.wf()
    }
}

/// What a strand read yields: the byte, its high nibble, or its low
/// nibble.
pub open spec fn spec_read_strand(dna: Seq<u8>, position: int, byte_type: ByteType) -> u8 {
    match byte_type {
        ByteType::Full => dna[position],
        ByteType::High => dna[position] >> 4,
        ByteType::Low => dna[position] & 0x0f,
    }
}

/// The byte that results from writing `value` into one strand of
/// `existing`; nibble writes keep the sibling nibble.
pub open spec fn spec_strand_byte(existing: u8, byte_type: ByteType, value: u8) -> u8 {
    match byte_type {
        ByteType::Full => value,
        ByteType::High => (existing & 0x0f) | (value << 4),
        ByteType::Low => (existing & 0xf0) | (value & 0x0f),
    }
}

/// The DNA that results from a strand write.
pub open spec fn spec_write_strand(
    dna: Seq<u8>,
    position: int,
    byte_type: ByteType,
    value: u8,
) -> Seq<u8> {
    dna.update(position, spec_strand_byte(dna[position], byte_type, value))
}

/// Reads one strand of a byte buffer.
pub fn read_dna_at(dna: &Vec<u8>, position: usize, byte_type: ByteType) -> (r: u8)
    requires
        position < dna@.len(),
    ensures
        r == spec_read_strand(dna@, position as int, byte_type),
{
    match byte_type {
        ByteType::Full => dna[position],
        ByteType::High => dna[position] >> 4,
        ByteType::Low => dna[position] & 0x0f,
    }
}

/// Writes one strand of a byte buffer.
pub fn write_dna_at(dna: &mut Vec<u8>, position: usize, byte_type: ByteType, value: u8)
    requires
        position < old(dna)@.len(),
    ensures
        final(dna)@ == spec_write_strand(old(dna)@, position as int, byte_type, value),
{
    let existing = dna[position];
    let updated = match byte_type {
        ByteType::Full => value,
        ByteType::High => (existing & 0x0f) | (value << 4),
        ByteType::Low => (existing & 0xf0) | (value & 0x0f),
    };
    dna[position] = updated;
}

/// The byte offset and strand of each attribute field.
pub open spec fn spec_attribute_position(attribute: AvatarAttributes) -> (int, ByteType) {
    match attribute {
        AvatarAttributes::ItemType => (0int, ByteType::High),
        AvatarAttributes::ItemSubType => (0int, ByteType::Low),
        AvatarAttributes::ClassType1 => (1int, ByteType::High),
        AvatarAttributes::ClassType2 => (1int, ByteType::Low),
        AvatarAttributes::CustomType1 => (2int, ByteType::High),
        AvatarAttributes::RarityType => (2int, ByteType::Low),
        AvatarAttributes::Quantity => (3int, ByteType::Full),
        AvatarAttributes::CustomType2 => (4int, ByteType::Full),
    }
}

fn attribute_position(attribute: AvatarAttributes) -> (r: (usize, ByteType))
    ensures
        (r.0 as int, r.1) == spec_attribute_position(attribute),
{
    match attribute {
        AvatarAttributes::ItemType => (0usize, ByteType::High),
        AvatarAttributes::ItemSubType => (0usize, ByteType::Low),
        AvatarAttributes::ClassType1 => (1usize, ByteType::High),
        AvatarAttributes::ClassType2 => (1usize, ByteType::Low),
        AvatarAttributes::CustomType1 => (2usize, ByteType::High),
        AvatarAttributes::RarityType => (2usize, ByteType::Low),
        AvatarAttributes::Quantity => (3usize, ByteType::Full),
        AvatarAttributes::CustomType2 => (4usize, ByteType::Full),
    }
}

/// The value of an attribute field of an avatar.
pub open spec fn spec_read_attribute(a: AvatarModel, attribute: AvatarAttributes) -> u8 {
    spec_read_strand(a.dna, spec_attribute_position(attribute).0, spec_attribute_position(attribute).1)
}

/// The avatar that results from writing an attribute field.
pub open spec fn spec_write_attribute(
    a: AvatarModel,
    attribute: AvatarAttributes,
    value: u8,
) -> AvatarModel {
    AvatarModel {
        dna: spec_write_strand(
            a.dna,
            spec_attribute_position(attribute).0,
            spec_attribute_position(attribute).1,
            value,
        ),
        ..a
    }
}

/// Reads an attribute field.  Nibble fields yield values below 16.
pub fn read_attribute(avatar: &Avatar, attribute: AvatarAttributes) -> (r: u8)
    requires
        avatar.wf(),
    ensures
        r == spec_read_attribute(avatar@, attribute),
{
    let (position, byte_type) = attribute_position(attribute);
    read_dna_at(&avatar.dna, position, byte_type)
}

/// Writes an attribute field, preserving every other strand of the DNA.
pub fn write_attribute(avatar: &mut Avatar, attribute: AvatarAttributes, value: u8)
    requires
        old(avatar).wf(),
    ensures
        final(avatar)@ == spec_write_attribute(old(avatar)@, attribute, value),
        final(avatar).wf(),
{
    let (position, byte_type) = attribute_position(attribute);
    write_dna_at(&mut avatar.dna, position, byte_type, value);
}

/// Reads an attribute field and decodes it.
pub fn read_attribute_as<T: FromByte>(avatar: &Avatar, attribute: AvatarAttributes) -> (r: T)
    requires
        avatar.wf(),
    ensures
        r == T::spec_from_byte(spec_read_attribute(avatar@, attribute)),
{
    T::from_byte(read_attribute(avatar, attribute))
}

/// Tests whether an attribute holds the byte code of `value`.
pub fn has_attribute_with_value<T: IntoByte>(
    avatar: &Avatar,
    attribute: AvatarAttributes,
    value: T,
) -> (r: bool)
    requires
        avatar.wf(),
    ensures
        r == (spec_read_attribute(avatar@, attribute) == value.spec_byte()),
{
    read_attribute(avatar, attribute) == value.into_byte()
}

/// Tests whether an attribute lies strictly below the byte code of
/// `lower_than`.
pub fn has_attribute_with_value_lower_than<T: IntoByte>(
    avatar: &Avatar,
    attribute: AvatarAttributes,
    lower_than: T,
) -> (r: bool)
    requires
        avatar.wf(),
    ensures
        r == (spec_read_attribute(avatar@, attribute) < lower_than.spec_byte()),
{
    read_attribute(avatar, attribute) < lower_than.into_byte()
}

/// Tests whether two avatars share their item archetype.
pub fn is_same_type_as(avatar: &Avatar, other: &Avatar) -> (r: bool)
    requires
        avatar.wf(),
        other.wf(),
    ensures
        r == (spec_read_attribute(avatar@, AvatarAttributes::ItemType) == spec_read_attribute(
            other@,
            AvatarAttributes::ItemType,
        )),
{
    read_attribute(avatar, AvatarAttributes::ItemType) == read_attribute(
        other,
        AvatarAttributes::ItemType,
    )
}

/// Tests whether two avatars agree on one attribute.
pub fn has_attribute_with_same_value_as(
    avatar: &Avatar,
    other: &Avatar,
    attribute: AvatarAttributes,
) -> (r: bool)
    requires
        avatar.wf(),
        other.wf(),
    ensures
        r == (spec_read_attribute(avatar@, attribute) == spec_read_attribute(other@, attribute)),
{
    read_attribute(avatar, attribute) == read_attribute(other, attribute)
}

/// Whether two avatars agree on every attribute in `attribute_set`.
pub open spec fn spec_same_attributes(
    a: AvatarModel,
    other: AvatarModel,
    attribute_set: Seq<AvatarAttributes>,
) -> bool {
    forall|i: int|
        0 <= i < attribute_set.len() ==> spec_read_attribute(a, #[trigger] attribute_set[i])
            == spec_read_attribute(other, attribute_set[i])
}

/// Tests whether two avatars agree on every attribute in
/// `attribute_set`.
pub fn has_attribute_set_with_same_values_as(
    avatar: &Avatar,
    other: &Avatar,
    attribute_set: &Vec<AvatarAttributes>,
) -> (r: bool)
    requires
        avatar.wf(),
        other.wf(),
    ensures
        r == spec_same_attributes(avatar@, other@, attribute_set@),
{
    let mut i: usize = 0;
    while i < attribute_set.len()
        invariant
            avatar.wf(),
            other.wf(),
            0 <= i <= attribute_set@.len(),
            forall|j: int|
                0 <= j < i ==> spec_read_attribute(avatar@, #[trigger] attribute_set@[j])
                    == spec_read_attribute(other@, attribute_set@[j]),
        decreases attribute_set@.len() - i,
    {
        if !has_attribute_with_same_value_as(avatar, other, attribute_set[i]) {
            return false;
        }
        i = i + 1;
    }
    true
}

/// The byte offset of a spec byte inside the DNA.
pub open spec fn spec_spec_byte_position(spec_byte: AvatarSpecBytes) -> int {
    match spec_byte {
        AvatarSpecBytes::SpecByte1 => 5,
        AvatarSpecBytes::SpecByte2 => 6,
        AvatarSpecBytes::SpecByte3 => 7,
        AvatarSpecBytes::SpecByte4 => 8,
        AvatarSpecBytes::SpecByte5 => 9,
        AvatarSpecBytes::SpecByte6 => 10,
        AvatarSpecBytes::SpecByte7 => 11,
        AvatarSpecBytes::SpecByte8 => 12,
        AvatarSpecBytes::SpecByte9 => 13,
        AvatarSpecBytes::SpecByte10 => 14,
        AvatarSpecBytes::SpecByte11 => 15,
        AvatarSpecBytes::SpecByte12 => 16,
        AvatarSpecBytes::SpecByte13 => 17,
        AvatarSpecBytes::SpecByte14 => 18,
        AvatarSpecBytes::SpecByte15 => 19,
        AvatarSpecBytes::SpecByte16 => 20,
    }
}

fn spec_byte_position(spec_byte: AvatarSpecBytes) -> (r: usize)
    ensures
        r as int == spec_spec_byte_position(spec_byte),
{
    match spec_byte {
        AvatarSpecBytes::SpecByte1 => 5,
        AvatarSpecBytes::SpecByte2 => 6,
        AvatarSpecBytes::SpecByte3 => 7,
        AvatarSpecBytes::SpecByte4 => 8,
        AvatarSpecBytes::SpecByte5 => 9,
        AvatarSpecBytes::SpecByte6 => 10,
        AvatarSpecBytes::SpecByte7 => 11,
        AvatarSpecBytes::SpecByte8 => 12,
        AvatarSpecBytes::SpecByte9 => 13,
        AvatarSpecBytes::SpecByte10 => 14,
        AvatarSpecBytes::SpecByte11 => 15,
        AvatarSpecBytes::SpecByte12 => 16,
        AvatarSpecBytes::SpecByte13 => 17,
        AvatarSpecBytes::SpecByte14 => 18,
        AvatarSpecBytes::SpecByte15 => 19,
        AvatarSpecBytes::SpecByte16 => 20,
    }
}

/// The value of one spec byte.
pub open spec fn spec_read_spec_byte(a: AvatarModel, spec_byte: AvatarSpecBytes) -> u8 {
    a.dna[spec_spec_byte_position(spec_byte)]
}

/// The avatar that results from overwriting one spec byte.
pub open spec fn spec_write_spec_byte(
    a: AvatarModel,
    spec_byte: AvatarSpecBytes,
    value: u8,
) -> AvatarModel {
    AvatarModel { dna: a.dna.update(spec_spec_byte_position(spec_byte), value), ..a }
}

/// Reads one spec byte.
pub fn read_spec_byte(avatar: &Avatar, spec_byte: AvatarSpecBytes) -> (r: u8)
    requires
        avatar.wf(),
    ensures
        r == spec_read_spec_byte(avatar@, spec_byte),
{
    let position = spec_byte_position(spec_byte);
    read_dna_at(&avatar.dna, position, ByteType::Full)
}

/// Reads one spec byte and decodes it.
pub fn read_spec_byte_as<T: FromByte>(avatar: &Avatar, spec_byte: AvatarSpecBytes) -> (r: T)
    requires
        avatar.wf(),
    ensures
        r == T::spec_from_byte(spec_read_spec_byte(avatar@, spec_byte)),
{
    T::from_byte(read_spec_byte(avatar, spec_byte))
}

/// Overwrites one spec byte.
pub fn write_spec_byte(avatar: &mut Avatar, spec_byte: AvatarSpecBytes, value: u8)
    requires
        old(avatar).wf(),
    ensures
        final(avatar)@ == spec_write_spec_byte(old(avatar)@, spec_byte, value),
        final(avatar).wf(),
{
    let position = spec_byte_position(spec_byte);
    write_dna_at(&mut avatar.dna, position, ByteType::Full, value);
}

/// The sixteen spec bytes of an avatar.
pub open spec fn spec_full_spec_bytes(a: AvatarModel) -> Seq<u8> {
    a.dna.subrange(SPEC_BYTES_OFFSET as int, SPEC_BYTES_OFFSET + SPEC_BYTES_COUNT)
}

/// Copies the sixteen spec bytes out of an avatar.
pub fn read_full_spec_bytes(avatar: &Avatar) -> (r: Vec<u8>)
    requires
        avatar.wf(),
    ensures
        r@ == spec_full_spec_bytes(avatar@),
{
    read_dna_block(&avatar.dna, SPEC_BYTES_OFFSET, SPEC_BYTES_COUNT)
}

/// The avatar that results from overwriting the whole spec-byte block.
pub open spec fn spec_write_full_spec_bytes(a: AvatarModel, value: Seq<u8>) -> AvatarModel {
    AvatarModel {
        dna: a.dna.take(SPEC_BYTES_OFFSET as int) + value + a.dna.skip(
            SPEC_BYTES_OFFSET + SPEC_BYTES_COUNT,
        ),
        ..a
    }
}

/// Overwrites the sixteen spec bytes as one block.
pub fn write_full_spec_bytes(avatar: &mut Avatar, value: &Vec<u8>)
    requires
        old(avatar).wf(),
        value@.len() == SPEC_BYTES_COUNT,
    ensures
        final(avatar)@ == spec_write_full_spec_bytes(old(avatar)@, value@),
        final(avatar).wf(),
{
    write_dna_block(&mut avatar.dna, SPEC_BYTES_OFFSET, value);
    proof {
        assert(avatar@.dna =~= spec_write_full_spec_bytes(old(avatar)@, value@).dna);
    }
}

/// The eleven progress bytes of an avatar.
pub open spec fn spec_progress_array(a: AvatarModel) -> Seq<u8> {
    a.dna.subrange(PROGRESS_OFFSET as int, PROGRESS_OFFSET + PROGRESS_LENGTH)
}

/// Copies the eleven progress bytes out of an avatar.
pub fn read_progress_array(avatar: &Avatar) -> (r: Vec<u8>)
    requires
        avatar.wf(),
    ensures
        r@ == spec_progress_array(avatar@),
{
    read_dna_block(&avatar.dna, PROGRESS_OFFSET, PROGRESS_LENGTH)
}

/// The avatar that results from overwriting the progress array.
pub open spec fn spec_write_progress_array(a: AvatarModel, value: Seq<u8>) -> AvatarModel {
    AvatarModel { dna: a.dna.take(PROGRESS_OFFSET as int) + value, ..a }
}

/// Overwrites the eleven progress bytes as one block.
pub fn write_progress_array(avatar: &mut Avatar, value: &Vec<u8>)
    requires
        old(avatar).wf(),
        value@.len() == PROGRESS_LENGTH,
    ensures
        final(avatar)@ == spec_write_progress_array(old(avatar)@, value@),
        final(avatar).wf(),
{
    write_dna_block(&mut avatar.dna, PROGRESS_OFFSET, value);
    proof {
        assert(avatar@.dna =~= spec_write_progress_array(old(avatar)@, value@).dna);
    }
}

/// Copies `count` bytes starting at `offset` out of a buffer.
pub fn read_dna_block(dna: &Vec<u8>, offset: usize, count: usize) -> (r: Vec<u8>)
    requires
        offset + count <= dna@.len(),
    ensures
        r@ == dna@.subrange(offset as int, offset + count),
{
    let n = dna.len();
    let mut out: Vec<u8> = Vec::new();
    let mut i: usize = 0;
    while i < count
        invariant
            offset + count <= n == dna@.len(),
            0 <= i <= count,
            out@ == dna@.subrange(offset as int, offset + i),
        decreases count - i,
    {
        out.push(dna[offset + i]);
        proof {
            assert(out@ =~= dna@.subrange(offset as int, offset + i + 1));
        }
        i = i + 1;
    }
    out
}

/// Overwrites the bytes at `offset..offset + value.len()` of a buffer.
fn write_dna_block(dna: &mut Vec<u8>, offset: usize, value: &Vec<u8>)
    requires
        offset + value@.len() <= old(dna)@.len(),
    ensures
        final(dna)@ == old(dna)@.take(offset as int) + value@ + old(dna)@.skip(
            offset + value@.len(),
        ),
{
    let n = dna.len();
    let mut i: usize = 0;
    while i < value.len()
        invariant
            offset + value@.len() <= n == dna@.len(),
            dna@.len() == old(dna)@.len(),
            0 <= i <= value@.len(),
            forall|j: int| 0 <= j < offset ==> dna@[j] == old(dna)@[j],
            forall|j: int| 0 <= j < i ==> dna@[offset + j] == value@[j],
            forall|j: int| offset + value@.len() <= j < dna@.len() ==> dna@[j] == old(dna)@[j],
        decreases value@.len() - i,
    {
        let b = value[i];
        dna[offset + i] = b;
        i = i + 1;
    }
    proof {
        assert(dna@ =~= old(dna)@.take(offset as int) + value@ + old(dna)@.skip(
            offset + value@.len(),
        ));
    }
}

/// Whether the avatar holds at least `quantity` units.
pub fn can_use_avatar(avatar: &Avatar, quantity: u8) -> (r: bool)
    requires
        avatar.wf(),
    ensures
        r == (spec_read_attribute(avatar@, AvatarAttributes::Quantity) >= quantity),
{
    read_attribute(avatar, AvatarAttributes::Quantity) >= quantity
}

/// What consuming `quantity` units does to an avatar: whether it
/// succeeded, the soul points released, and the avatar afterwards.
pub open spec fn spec_use_avatar(a: AvatarModel, quantity: u8) -> (bool, u32, AvatarModel) {
    let current = spec_read_attribute(a, AvatarAttributes::Quantity);
    if current < quantity {
        (false, 0u32, a)
    } else {
        let reduced = spec_write_attribute(a, AvatarAttributes::Quantity, (current - quantity) as u8);
        if current == quantity {
            (true, a.souls, AvatarModel { souls: 0u32, ..reduced })
        } else {
            let ratio = spec_read_attribute(a, AvatarAttributes::CustomType1);
            let released = sat_mul_u8(ratio, quantity) as u32;
            (true, released, AvatarModel { souls: sat_sub_u32(a.souls, released), ..reduced })
        }
    }
}

/// `a * b` clamped to the `u8` range.
pub open spec fn sat_mul_u8(a: u8, b: u8) -> u8 {
    if a * b > 255 {
        255u8
    } else {
        (a * b) as u8
    }
}

/// `a - b` clamped at zero.
pub open spec fn sat_sub_u32(a: u32, b: u32) -> u32 {
    if a < b {
        0u32
    } else {
        (a - b) as u32
    }
}

/// `a + b` clamped to the `u32` range.
pub open spec fn sat_add_u32(a: u32, b: u32) -> u32 {
    if a + b > u32::MAX {
        u32::MAX
    } else {
        (a + b) as u32
    }
}

/// `a + b` clamped to the `u8` range.
pub open spec fn sat_add_u8(a: u8, b: u8) -> u8 {
    if a + b > 255 {
        255u8
    } else {
        (a + b) as u8
    }
}

/// Consumes `quantity` units of the avatar.  On success the released
/// soul points are the avatar's whole balance when the quantity hits
/// zero, and `CustomType1 * quantity` (the stackability ratio) otherwise.
pub fn use_avatar(avatar: &mut Avatar, quantity: u8) -> (r: (bool, u32))
    requires
        old(avatar).wf(),
    ensures
        (r.0, r.1, final(avatar)@) == spec_use_avatar(old(avatar)@, quantity),
        final(avatar).wf(),
{
    let current = read_attribute(avatar, AvatarAttributes::Quantity);
    if current < quantity {
        return (false, 0);
    }
    let remaining = current - quantity;
    write_attribute(avatar, AvatarAttributes::Quantity, remaining);
    if remaining == 0 {
        let souls = avatar.souls;
        avatar.souls = 0;
        (true, souls)
    } else {
        let ratio = read_attribute(avatar, AvatarAttributes::CustomType1);
        proof {
            assert((ratio as u32) * (quantity as u32) <= 65025) by (nonlinear_arith)
                requires
                    ratio <= 255,
                    quantity <= 255,
            ;
        }
        let product: u32 = (ratio as u32) * (quantity as u32);
        let released: u32 = if product > 255 {
            255
        } else {
            product
        };
        avatar.souls = avatar.souls.saturating_sub(released);
        (true, released)
    }
}

/// Cyclic adjacency of two progress variations: `byte_1` is one step
/// above `byte_2`, directly or around the cycle of
/// `PROGRESS_VARIATIONS` values.
pub open spec fn spec_match_progress_byte(byte_1: u8, byte_2: u8) -> bool {
    let diff = if byte_1 < byte_2 {
        0u8
    } else {
        (byte_1 - byte_2) as u8
    };
    diff == 1 || diff == PROGRESS_VARIATIONS - 1
}

/// Tests cyclic adjacency of two progress variations.
pub fn match_progress_byte(byte_1: u8, byte_2: u8) -> (r: bool)
    ensures
        r == spec_match_progress_byte(byte_1, byte_2),
{
    let diff = byte_1.saturating_sub(byte_2);
    diff == 1 || diff == PROGRESS_VARIATIONS - 1
}

/// The smallest strand value over a progress array.
pub open spec fn spec_lowest_progress_byte(bytes: Seq<u8>, byte_type: ByteType, n: int) -> u8
    decreases n,
{
    if n <= 0 {
        255u8
    } else {
        let rest = spec_lowest_progress_byte(bytes, byte_type, n - 1);
        let value = spec_read_strand(bytes, n - 1, byte_type);
        if rest > value {
            value
        } else {
            rest
        }
    }
}

/// Returns the smallest strand value over a progress array.
pub fn read_lowest_progress_byte(progress_bytes: &Vec<u8>, byte_type: ByteType) -> (r: u8)
    ensures
        r == spec_lowest_progress_byte(progress_bytes@, byte_type, progress_bytes@.len() as int),
{
    let mut result: u8 = 255;
    let mut i: usize = 0;
    while i < progress_bytes.len()
        invariant
            0 <= i <= progress_bytes@.len(),
            result == spec_lowest_progress_byte(progress_bytes@, byte_type, i as int),
        decreases progress_bytes@.len() - i,
    {
        let value = read_dna_at(progress_bytes, i, byte_type);
        if result > value {
            result = value;
        }
        i = i + 1;
    }
    result
}

/// Whether progress slot `i` of `array_1` "fits" slot `i` of `array_2`:
/// same rarity, the slot is not already above the array's lowest tier,
/// and the variations are cyclically adjacent.
pub open spec fn spec_progress_fits(array_1: Seq<u8>, array_2: Seq<u8>, i: int) -> bool {
    let rarity_1 = spec_read_strand(array_1, i, ByteType::High);
    let rarity_2 = spec_read_strand(array_2, i, ByteType::High);
    let variation_1 = spec_read_strand(array_1, i, ByteType::Low);
    let variation_2 = spec_read_strand(array_2, i, ByteType::Low);
    rarity_1 == rarity_2 && !spec_progress_maxed(array_1, i) && spec_match_progress_byte(
        variation_1,
        variation_2,
    )
}

/// Whether progress slot `i` of `array_1` is already maxed: above the
/// array's lowest tier, or the whole array at the legendary tier.
pub open spec fn spec_progress_maxed(array_1: Seq<u8>, i: int) -> bool {
    let lowest = spec_lowest_progress_byte(array_1, ByteType::High, array_1.len() as int);
    spec_read_strand(array_1, i, ByteType::High) > lowest || lowest == RarityType::Legendary.spec_byte()
}

/// The slot indices of `array_1` (as bytes) whose first `n` slots fit
/// `array_2`.
pub open spec fn spec_match_indexes(array_1: Seq<u8>, array_2: Seq<u8>, n: int) -> Seq<u8>
    decreases n,
{
    if n <= 0 {
        Seq::empty()
    } else {
        let rest = spec_match_indexes(array_1, array_2, n - 1);
        if spec_progress_fits(array_1, array_2, n - 1) {
            rest.push((n - 1) as u8)
        } else {
            rest
        }
    }
}

/// Matched slot indices stay below the bound they were collected under.
pub proof fn lemma_match_indexes_bounded(array_1: Seq<u8>, array_2: Seq<u8>, n: int)
    ensures
        forall|t: int|
            0 <= t < spec_match_indexes(array_1, array_2, n).len() ==> (
            #[trigger] spec_match_indexes(array_1, array_2, n)[t]) < n,
    decreases n,
{
    if n > 0 {
        lemma_match_indexes_bounded(array_1, array_2, n - 1);
        let prev = spec_match_indexes(array_1, array_2, n - 1);
        let cur = spec_match_indexes(array_1, array_2, n);
        assert forall|t: int| 0 <= t < cur.len() implies cur[t] < n by {
            if spec_progress_fits(array_1, array_2, n - 1) {
                assert(cur == prev.push((n - 1) as u8));
                if t < prev.len() {
                    assert(cur[t] == prev[t]);
                } else {
                    assert(cur[t] == (n - 1) as u8);
                }
            } else {
                assert(cur == prev);
            }
        }
    }
}

/// How many of the first `n` maxed slots of `array_1` mirror
/// `array_2`'s variation exactly.
pub open spec fn spec_mirror_count(array_1: Seq<u8>, array_2: Seq<u8>, n: int) -> int
    decreases n,
{
    if n <= 0 {
        0
    } else {
        let rest = spec_mirror_count(array_1, array_2, n - 1);
        let variation_1 = spec_read_strand(array_1, n - 1, ByteType::Low);
        let variation_2 = spec_read_strand(array_2, n - 1, ByteType::Low);
        if spec_progress_maxed(array_1, n - 1) && variation_1 == variation_2 {
            rest + 1
        } else {
            rest
        }
    }
}

/// The handicap the match scoring demands of `total` matched slots: 4
/// for a single match, 2 for two, none from three on.
pub open spec fn spec_match_handicap(total: int) -> int {
    if total == 1 {
        4
    } else if total == 2 {
        2
    } else {
        0
    }
}

/// The matched slot indices of two progress arrays, if the match scoring
/// accepts them: some slot fits, and matches plus mirrored maxed slots
/// reach the handicap threshold.
pub open spec fn spec_match_progress_arrays(array_1: Seq<u8>, array_2: Seq<u8>) -> Option<Seq<u8>> {
    let matches = spec_match_indexes(array_1, array_2, PROGRESS_LENGTH as int);
    let mirror = spec_mirror_count(array_1, array_2, PROGRESS_LENGTH as int);
    let total = matches.len() as int;
    if total > 0 && total + mirror >= spec_match_handicap(total) + 3 {
        Some(matches)
    } else {
        None
    }
}

/// Compares two progress arrays slot by slot, returning the matched slot
/// indices if the match scoring accepts them.
pub fn match_progress_arrays(array_1: &Vec<u8>, array_2: &Vec<u8>) -> (r: Option<Vec<u8>>)
    requires
        array_1@.len() == PROGRESS_LENGTH,
        array_2@.len() == PROGRESS_LENGTH,
    ensures
        match r {
            Some(v) => spec_match_progress_arrays(array_1@, array_2@) == Some(v@),
            None => spec_match_progress_arrays(array_1@, array_2@) is None,
        },
{
    let mut matches: Vec<u8> = Vec::new();
    let mut mirror: usize = 0;

    let lowest_1 = read_lowest_progress_byte(array_1, ByteType::High);
    let legendary = RarityType::Legendary.into_byte();

    let mut i: usize = 0;
    while i < PROGRESS_LENGTH
        invariant
            array_1@.len() == PROGRESS_LENGTH,
            array_2@.len() == PROGRESS_LENGTH,
            lowest_1 == spec_lowest_progress_byte(array_1@, ByteType::High, PROGRESS_LENGTH as int),
            legendary == RarityType::Legendary.spec_byte(),
            0 <= i <= PROGRESS_LENGTH,
            matches@ == spec_match_indexes(array_1@, array_2@, i as int),
            matches@.len() <= i,
            mirror == spec_mirror_count(array_1@, array_2@, i as int),
            mirror <= i,
        decreases PROGRESS_LENGTH - i,
    {
        let rarity_1 = read_dna_at(array_1, i, ByteType::High);
        let variation_1 = read_dna_at(array_1, i, ByteType::Low);
        let rarity_2 = read_dna_at(array_2, i, ByteType::High);
        let variation_2 = read_dna_at(array_2, i, ByteType::Low);

        let have_same_rarity = rarity_1 == rarity_2;
        let is_maxed = rarity_1 > lowest_1 || lowest_1 == legendary;

        if have_same_rarity && !is_maxed && match_progress_byte(variation_1, variation_2) {
            matches.push(i as u8);
        }
        if is_maxed && variation_1 == variation_2 {
            mirror = mirror + 1;
        }
        i = i + 1;
    }

    let total = matches.len();
    let handicap: usize = if total == 1 {
        4
    } else if total == 2 {
        2
    } else {
        0
    };
    if total > 0 && total + mirror >= handicap + 3 {
        Some(matches)
    } else {
        None
    }
}

/// The progress array the minter derives from random bytes: per slot,
/// the given rarity tier (one higher where the random byte falls below
/// the probability threshold) in the high nibble and the random byte
/// modulo the variation count in the low nibble; the last slot's tier is
/// then pinned back to the given rarity.
pub open spec fn spec_progress_bytes(
    rarity: RarityType,
    probability: u8,
    bytes: Seq<u8>,
    n: int,
) -> Seq<u8>
    decreases n,
{
    if n <= 0 {
        bytes
    } else {
        let prev = spec_progress_bytes(rarity, probability, bytes, n - 1);
        let random_value = bytes[n - 1];
        let tier = if random_value < probability {
            sat_add_u8(rarity.spec_byte(), 1)
        } else {
            rarity.spec_byte()
        };
        let with_tier = spec_write_strand(prev, n - 1, ByteType::High, tier);
        spec_write_strand(with_tier, n - 1, ByteType::Low, (random_value % PROGRESS_VARIATIONS) as u8)
    }
}

/// The finished minter-derived progress array: all eleven slots written,
/// then the last slot's tier pinned to `rarity`.
pub open spec fn spec_write_progress_bytes(
    rarity: RarityType,
    probability: u8,
    bytes: Seq<u8>,
) -> Seq<u8> {
    spec_write_strand(
        spec_progress_bytes(rarity, probability, bytes, PROGRESS_LENGTH as int),
        PROGRESS_LENGTH - 1,
        ByteType::High,
        rarity.spec_byte(),
    )
}

/// A nibble read never exceeds 15.
pub proof fn lemma_nibble_read_bound(a: AvatarModel, attribute: AvatarAttributes)
    requires
        a.wf(),
        spec_attribute_position(attribute).1 != ByteType::Full,
    ensures
        spec_read_attribute(a, attribute) < 16,
{
    let b = a.dna[spec_attribute_position(attribute).0];
    assert((b >> 4) < 16 && (b & 0x0f) < 16) by (bit_vector);
}

/// Law: writing an attribute field and reading it back yields the
/// written value, for every value in the field's byte range (0..=15 for
/// nibble fields, 0..=255 for full-byte fields).
pub proof fn lemma_attribute_round_trip(a: AvatarModel, attribute: AvatarAttributes, value: u8)
    requires
        a.wf(),
        spec_attribute_position(attribute).1 == ByteType::Full || value < 16,
    ensures
        spec_read_attribute(spec_write_attribute(a, attribute, value), attribute) == value,
{
    let b = a.dna[spec_attribute_position(attribute).0];
    if value < 16 {
        assert(((b & 0x0f) | (value << 4)) >> 4 == value) by (bit_vector)
            requires
                value < 16,
        ;
        assert(((b & 0xf0) | (value & 0x0f)) & 0x0f == value) by (bit_vector)
            requires
                value < 16,
        ;
    }
}

/// Law: writing one attribute field never perturbs any other attribute
/// field, whatever value is written.
pub proof fn lemma_attribute_write_frame(
    a: AvatarModel,
    written: AvatarAttributes,
    read: AvatarAttributes,
    value: u8,
)
    requires
        a.wf(),
        written != read,
    ensures
        spec_read_attribute(spec_write_attribute(a, written, value), read) == spec_read_attribute(
            a,
            read,
        ),
{
    let b = a.dna[spec_attribute_position(written).0];
    assert(((b & 0x0f) | (value << 4)) & 0x0f == b & 0x0f) by (bit_vector);
    assert(((b & 0xf0) | (value & 0x0f)) >> 4 == b >> 4) by (bit_vector);
}

/// Law: writing an attribute field never perturbs the spec bytes or the
/// progress array.
pub proof fn lemma_attribute_write_preserves_blocks(
    a: AvatarModel,
    attribute: AvatarAttributes,
    value: u8,
)
    requires
        a.wf(),
    ensures
        spec_full_spec_bytes(spec_write_attribute(a, attribute, value)) == spec_full_spec_bytes(a),
        spec_progress_array(spec_write_attribute(a, attribute, value)) == spec_progress_array(a),
{
    let written = spec_write_attribute(a, attribute, value);
    assert(spec_full_spec_bytes(written) =~= spec_full_spec_bytes(a));
    assert(spec_progress_array(written) =~= spec_progress_array(a));
}

/// Law: overwriting one spec byte reads back exactly, and never perturbs
/// another spec byte, any attribute field, or the progress array.
pub proof fn lemma_spec_byte_write_frame(
    a: AvatarModel,
    written: AvatarSpecBytes,
    read: AvatarSpecBytes,
    attribute: AvatarAttributes,
    value: u8,
)
    requires
        a.wf(),
    ensures
        spec_read_spec_byte(spec_write_spec_byte(a, written, value), written) == value,
        written != read ==> spec_read_spec_byte(spec_write_spec_byte(a, written, value), read)
            == spec_read_spec_byte(a, read),
        spec_read_attribute(spec_write_spec_byte(a, written, value), attribute)
            == spec_read_attribute(a, attribute),
        spec_progress_array(spec_write_spec_byte(a, written, value)) == spec_progress_array(a),
{
    let updated = spec_write_spec_byte(a, written, value);
    assert(spec_progress_array(updated) =~= spec_progress_array(a));
}

/// Law: overwriting the progress array reads back exactly and never
/// perturbs any attribute field or spec byte.
pub proof fn lemma_progress_write_frame(
    a: AvatarModel,
    value: Seq<u8>,
    attribute: AvatarAttributes,
    spec_byte: AvatarSpecBytes,
)
    requires
        a.wf(),
        value.len() == PROGRESS_LENGTH,
    ensures
        spec_progress_array(spec_write_progress_array(a, value)) == value,
        spec_read_attribute(spec_write_progress_array(a, value), attribute) == spec_read_attribute(
            a,
            attribute,
        ),
        spec_read_spec_byte(spec_write_progress_array(a, value), spec_byte) == spec_read_spec_byte(
            a,
            spec_byte,
        ),
{
    let updated = spec_write_progress_array(a, value);
    assert(spec_progress_array(updated) =~= value);
}

/// Derives a fresh progress array from eleven random bytes.
pub fn write_progress_bytes(rarity: RarityType, probability: u8, progress_bytes: &Vec<u8>) -> (r:
    Vec<u8>)
    requires
        progress_bytes@.len() == PROGRESS_LENGTH,
    ensures
        r@ == spec_write_progress_bytes(rarity, probability, progress_bytes@),
        r@.len() == PROGRESS_LENGTH,
{
    let mut out = progress_bytes.clone();
    let rarity_byte = rarity.into_byte();
    let mut i: usize = 0;
    proof {
        assert(out@ == spec_progress_bytes(rarity, probability, progress_bytes@, 0));
    }
    while i < PROGRESS_LENGTH
        invariant
            progress_bytes@.len() == PROGRESS_LENGTH,
            out@.len() == PROGRESS_LENGTH,
            rarity_byte == rarity.spec_byte(),
            0 <= i <= PROGRESS_LENGTH,
            out@ == spec_progress_bytes(rarity, probability, progress_bytes@, i as int),
        decreases PROGRESS_LENGTH - i,
    {
        let random_value = progress_bytes[i];
        let tier = if random_value < probability {
            rarity_byte.saturating_add(1)
        } else {
            rarity_byte
        };
        write_dna_at(&mut out, i, ByteType::High, tier);
        write_dna_at(&mut out, i, ByteType::Low, random_value % PROGRESS_VARIATIONS);
        i = i + 1;
    }
    write_dna_at(&mut out, PROGRESS_LENGTH - 1, ByteType::High, rarity_byte);
    out
}

} // verus!
