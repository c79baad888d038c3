//! Bit-packing helpers: pack a small set of enumeration values into one
//! byte, encode their relative sort order into a second byte, and invert
//! both operations.

use vstd::prelude::*;
use vstd::multiset::Multiset;
use vstd::relations::sorted_by;
use vstd::relations::total_ordering;
use vstd::seq_lib::lemma_multiset_commutative;
use vstd::seq_lib::lemma_sorted_unique;

use crate::types::FromByte;
use crate::types::IntoByte;

verus! {

/// The byte codes of a list of enumeration values.
pub open spec fn spec_enum_bytes<T: IntoByte>(s: Seq<T>) -> Seq<u8> {
    s.map(|i: int, x: T| x.spec_byte())
}

/// Byte order used when sorting byte codes.
pub open spec fn byte_leq() -> spec_fn(u8, u8) -> bool {
    |a: u8, b: u8| a <= b
}

/// The byte codes of a list, sorted ascending.
pub open spec fn spec_sort_bytes(s: Seq<u8>) -> Seq<u8> {
    s.sort_by(byte_leq())
}

/// Maps a list of enumeration values to their byte codes.
fn enum_bytes<T: IntoByte>(enum_list: &Vec<T>) -> (r: Vec<u8>)
    ensures
        r@ == spec_enum_bytes(enum_list@),
{
    let mut out: Vec<u8> = Vec::new();
    let mut i: usize = 0;
    while i < enum_list.len()
        invariant
            0 <= i <= enum_list@.len(),
            out@.len() == i,
            forall|j: int| 0 <= j < i ==> out@[j] == enum_list@[j].spec_byte(),
        decreases enum_list@.len() - i,
    {
        let e = enum_list[i];
        out.push(e.into_byte());
        i = i + 1;
    }
    proof {
        assert(out@ =~= spec_enum_bytes(enum_list@));
    }
    out
}

/// The sorted copy of `t` with `x` inserted at position `k` is the
/// sorted copy of `s.push(x)`, provided `k` is `x`'s insertion point.
proof fn lemma_sorted_insert(s: Seq<u8>, t: Seq<u8>, x: u8, k: int)
    requires
        t == spec_sort_bytes(s),
        0 <= k <= t.len(),
        forall|j: int| 0 <= j < k ==> t[j] <= x,
        forall|j: int| k <= j < t.len() ==> x < t[j],
    ensures
        t.insert(k, x) == spec_sort_bytes(s.push(x)),
{
    broadcast use vstd::seq_lib::group_to_multiset_ensures;
    broadcast use vstd::multiset::group_multiset_axioms;

    let leq = byte_leq();
    assert(total_ordering(leq));
    s.lemma_sort_by_ensures(leq);
    s.push(x).lemma_sort_by_ensures(leq);

    let u = t.insert(k, x);
    assert(sorted_by(u, leq));

    // Multiset bookkeeping: inserting x anywhere adds exactly x.
    let left = t.take(k);
    let right = t.skip(k);
    assert(u =~= left + (seq![x] + right));
    lemma_multiset_commutative(left, seq![x] + right);
    lemma_multiset_commutative(seq![x], right);
    assert(seq![x].to_multiset() =~= Multiset::empty().insert(x));
    assert(left + right =~= t);
    lemma_multiset_commutative(left, right);
    assert(u.to_multiset() =~= t.to_multiset().insert(x));
    assert(s.push(x).to_multiset() =~= s.to_multiset().insert(x));
    assert(u.to_multiset() =~= spec_sort_bytes(s.push(x)).to_multiset());

    lemma_sorted_unique(u, spec_sort_bytes(s.push(x)), leq);
}

/// Sorts a list of byte codes ascending by insertion.
fn sort_bytes(v: &Vec<u8>) -> (r: Vec<u8>)
    ensures
        r@ == spec_sort_bytes(v@),
{
    let mut out: Vec<u8> = Vec::new();
    proof {
        broadcast use vstd::seq_lib::group_to_multiset_ensures;
        broadcast use vstd::multiset::group_multiset_axioms;

        let leq = byte_leq();
        v@.take(0).lemma_sort_by_ensures(leq);
        assert(v@.take(0) =~= Seq::<u8>::empty());
        assert(spec_sort_bytes(v@.take(0)).to_multiset().len() == v@.take(0).to_multiset().len());
        assert(spec_sort_bytes(v@.take(0)).len() == 0);
        assert(out@ =~= spec_sort_bytes(v@.take(0)));
    }
    let mut i: usize = 0;
    while i < v.len()
        invariant
            0 <= i <= v@.len(),
            out@ == spec_sort_bytes(v@.take(i as int)),
            out@.len() == i,
        decreases v@.len() - i,
    {
        let x = v[i];
        proof {
            v@.take(i as int).lemma_sort_by_ensures(byte_leq());
        }
        let mut k: usize = 0;
        while k < out.len() && out[k] <= x
            invariant
                0 <= k <= out@.len(),
                forall|j: int| 0 <= j < k ==> out@[j] <= x,
            decreases out@.len() - k,
        {
            k = k + 1;
        }
        proof {
            assert(sorted_by(out@, byte_leq()));
            assert forall|j: int| k <= j < out@.len() implies x < out@[j] by {
                if k < out@.len() {
                    assert(byte_leq()(out@[k as int], out@[j]) || j == k);
                }
            }
            lemma_sorted_insert(v@.take(i as int), out@, x, k as int);
            assert(v@.take(i as int).push(x) =~= v@.take(i + 1));
        }
        out.insert(k, x);
        i = i + 1;
    }
    proof {
        assert(v@.take(v@.len() as int) =~= v@);
    }
    out
}

/// The first position of `x` in `s` at or after `i`; `s.len()` if absent.
pub open spec fn spec_first_index_from(s: Seq<u8>, x: u8, i: int) -> int
    decreases s.len() - i,
{
    if i < 0 || i >= s.len() {
        i
    } else if s[i] == x {
        i
    } else {
        spec_first_index_from(s, x, i + 1)
    }
}

/// The first position of `x` in `s`; `s.len()` if absent.
pub open spec fn spec_first_index(s: Seq<u8>, x: u8) -> int {
    spec_first_index_from(s, x, 0)
}

/// Finds the first position of `x` in `s`, or `s.len()` if absent.
fn first_index(s: &Vec<u8>, x: u8) -> (r: usize)
    ensures
        r as int == spec_first_index(s@, x),
        r <= s@.len(),
{
    let mut i: usize = 0;
    while i < s.len()
        invariant
            0 <= i <= s@.len(),
            spec_first_index(s@, x) == spec_first_index_from(s@, x, i as int),
        decreases s@.len() - i,
    {
        if s[i] == x {
            return i;
        }
        i = i + 1;
    }
    i
}

/// The packed-bits encoding of the first `n` byte codes: bit `code - 1`
/// set for each code in the list.
pub open spec fn spec_bytes_to_bits(bytes: Seq<u8>, n: int) -> u8
    decreases n,
{
    if n <= 0 {
        0u8
    } else {
        spec_bytes_to_bits(bytes, n - 1) | (1u8 << ((bytes[n - 1] - 1) as u8))
    }
}

/// The packed-bits encoding of a list of enumeration values.
pub open spec fn spec_enums_to_bits<T: IntoByte>(s: Seq<T>) -> u8 {
    spec_bytes_to_bits(spec_enum_bytes(s), s.len() as int)
}

/// Packs a list of enumeration values into one byte, setting bit
/// `code - 1` for each value.  Byte codes above 8 do not fit one byte,
/// so every value's code must lie in 1..=8.
pub fn enums_to_bits<T: IntoByte>(enum_list: &Vec<T>) -> (r: u8)
    requires
        forall|i: int|
            0 <= i < enum_list@.len() ==> 1 <= (#[trigger] enum_list@[i].spec_byte()) <= 8,
    ensures
        r == spec_enums_to_bits(enum_list@),
{
    let mut acc: u8 = 0;
    let mut i: usize = 0;
    while i < enum_list.len()
        invariant
            forall|j: int|
                0 <= j < enum_list@.len() ==> 1 <= (#[trigger] enum_list@[j].spec_byte()) <= 8,
            0 <= i <= enum_list@.len(),
            acc == spec_bytes_to_bits(spec_enum_bytes(enum_list@), i as int),
        decreases enum_list@.len() - i,
    {
        let e = enum_list[i];
        let b = e.into_byte();
        acc = acc | (1u8 << (b - 1));
        i = i + 1;
    }
    acc
}

/// The decoded value list of a packed-bits byte: for each set bit `n`
/// (low to high), the value whose byte code is `n + 1`.
pub open spec fn spec_bits_to_enums_rec<T: FromByte>(bits: u8, n: int) -> Seq<T>
    decreases n,
{
    if n <= 0 {
        Seq::empty()
    } else {
        let rest = spec_bits_to_enums_rec::<T>(bits, n - 1);
        if bits & (1u8 << ((n - 1) as u8)) != 0 {
            rest.push(T::spec_from_byte(n as u8))
        } else {
            rest
        }
    }
}

/// The decoded value list of a packed-bits byte.
pub open spec fn spec_bits_to_enums<T: FromByte>(bits: u8) -> Seq<T> {
    spec_bits_to_enums_rec::<T>(bits, 8)
}

/// Unpacks a packed-bits byte into the list of encoded values, ordered
/// by ascending byte code.  Inverts `enums_to_bits` on duplicate-free
/// lists.
pub fn bits_to_enums<T: FromByte>(bits: u8) -> (r: Vec<T>)
    ensures
        r@ == spec_bits_to_enums::<T>(bits),
        r@.len() <= 8,
{
    let mut out: Vec<T> = Vec::new();
    let mut n: usize = 0;
    while n < 8
        invariant
            0 <= n <= 8,
            out@ == spec_bits_to_enums_rec::<T>(bits, n as int),
            out@.len() <= n,
        decreases 8 - n,
    {
        if bits & (1u8 << (n as u8)) != 0 {
            out.push(T::from_byte((n + 1) as u8));
        }
        n = n + 1;
    }
    out
}

/// The order-encoding accumulator after the first `n` byte codes: each
/// code contributes its position in the sorted list as a two-bit field,
/// first code highest.
pub open spec fn spec_order_buff(bytes: Seq<u8>, sorted: Seq<u8>, n: int) -> u32
    decreases n,
{
    if n <= 0 {
        0u32
    } else {
        (spec_order_buff(bytes, sorted, n - 1) << 2) | (spec_first_index(
            sorted,
            bytes[n - 1],
        ) as u32)
    }
}

/// The order byte of a list of enumeration values: the two-bit sorted
/// positions of its codes, packed from the byte's top down.
pub open spec fn spec_enums_order_to_bits<T: IntoByte>(s: Seq<T>) -> u8 {
    let bytes = spec_enum_bytes(s);
    let sorted = spec_sort_bytes(bytes);
    let buff = spec_order_buff(bytes, sorted, bytes.len() as int);
    let shift: int = if bytes.len() <= 4 {
        8 - 2 * bytes.len()
    } else {
        0
    };
    ((buff << (shift as u32)) & 0xff) as u8
}

/// Encodes the relative sort order of a list of enumeration values into
/// one byte: each value contributes its position in the sorted list as a
/// two-bit field, first value in the byte's top bits.  Four values fill
/// the byte; `bits_order_to_enum` inverts the encoding on four-value
/// lists.
pub fn enums_order_to_bits<T: IntoByte>(enum_list: &Vec<T>) -> (r: u8)
    requires
        enum_list@.len() <= 4,
    ensures
        r == spec_enums_order_to_bits(enum_list@),
{
    let bytes = enum_bytes(enum_list);
    let sorted = sort_bytes(&bytes);
    proof {
        broadcast use vstd::seq_lib::group_to_multiset_ensures;
        broadcast use vstd::multiset::group_multiset_axioms;

        bytes@.lemma_sort_by_ensures(byte_leq());
        assert(sorted@.to_multiset().len() == bytes@.to_multiset().len());
        assert(sorted@.len() == bytes@.len());
    }
    let mut buff: u32 = 0;
    let mut i: usize = 0;
    while i < bytes.len()
        invariant
            bytes@ == spec_enum_bytes(enum_list@),
            sorted@ == spec_sort_bytes(bytes@),
            sorted@.len() == bytes@.len(),
            bytes@.len() == enum_list@.len(),
            enum_list@.len() <= 4,
            0 <= i <= bytes@.len(),
            buff == spec_order_buff(bytes@, sorted@, i as int),
        decreases bytes@.len() - i,
    {
        let idx = first_index(&sorted, bytes[i]);
        buff = (buff << 2) | (idx as u32);
        i = i + 1;
    }
    let shift: u32 = (8 - 2 * bytes.len()) as u32;
    ((buff << shift) & 0xff) as u8
}

/// The two order bits the decoder reads for output position `k`.
pub open spec fn spec_pick_position(bit_order: u8, k: int) -> u8 {
    (bit_order >> ((6 - 2 * k) as u8)) & 3
}

/// The decoded order list after the first `n` of the four two-bit
/// positions: each position in range picks one sorted byte code.
pub open spec fn spec_bits_order_rec<T: FromByte>(bit_order: u8, sorted: Seq<u8>, n: int) -> Seq<T>
    decreases n,
{
    if n <= 0 {
        Seq::empty()
    } else {
        let rest = spec_bits_order_rec::<T>(bit_order, sorted, n - 1);
        let pos = spec_pick_position(bit_order, n - 1) as int;
        if pos < sorted.len() {
            rest.push(T::spec_from_byte(sorted[pos]))
        } else {
            rest
        }
    }
}

/// The decoded order list of an order byte over a value list.
pub open spec fn spec_bits_order_to_enum<T: IntoByte + FromByte>(
    bit_order: u8,
    enum_list: Seq<T>,
) -> Seq<T> {
    spec_bits_order_rec::<T>(bit_order, spec_sort_bytes(spec_enum_bytes(enum_list)), 4)
}

/// Decodes an order byte over a list of enumeration values: reads four
/// two-bit sorted-list positions (high bits first) and picks the value
/// at each position that lies inside the sorted list.
pub fn bits_order_to_enum<T: IntoByte + FromByte>(bit_order: u8, enum_list: Vec<T>) -> (r: Vec<T>)
    ensures
        r@ == spec_bits_order_to_enum::<T>(bit_order, enum_list@),
        r@.len() <= 4,
{
    let bytes = enum_bytes(&enum_list);
    let sorted = sort_bytes(&bytes);
    let mut out: Vec<T> = Vec::new();
    let mut k: usize = 0;
    while k < 4
        invariant
            bytes@ == spec_enum_bytes(enum_list@),
            sorted@ == spec_sort_bytes(bytes@),
            0 <= k <= 4,
            out@ == spec_bits_order_rec::<T>(bit_order, sorted@, k as int),
            out@.len() <= k,
        decreases 4 - k,
    {
        let shift: u8 = (6 - 2 * k) as u8;
        let pos = ((bit_order >> shift) & 3) as usize;
        if pos < sorted.len() {
            out.push(T::from_byte(sorted[pos]));
        }
        k = k + 1;
    }
    out
}

} // verus!
