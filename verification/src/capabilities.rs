//! The capability register: 128 flags in 16 bytes, each capability at the bit
//! whose index is the capability's position in the canonical list.
//!
//! The register is shared with native code, which numbers the bits of a byte
//! from the least significant bit on a little-endian target and from the most
//! significant bit on a big-endian one. Every operation here exists in two
//! forms: one that is told the order and one that takes the order of the
//! target it runs on.

use vstd::array::spec_array_update;
use vstd::prelude::*;

verus! {

/// How many flags the register holds.
pub const FLAGS: usize = 128;

/// From which end the bits of a byte are numbered.
#[derive(Debug, Copy, Clone, PartialEq, Eq, Structural)]
pub enum Endian {
    /// From the least significant bit.
    Little,
    /// From the most significant bit.
    Big,
}

/// Where a flag lives: in which byte of the register, and under which mask of
/// one bit within that byte.
#[derive(Debug, Copy, Clone, PartialEq, Eq, Structural)]
pub struct Index {
    pub byte: usize,
    pub mask: u8,
}

/// `u16::to_be`: the number whose bytes in memory read, most significant
/// first, as `x`. On a big-endian target that is `x` itself, on a
/// little-endian one `x` with its two bytes swapped. Which of the two comes
/// back depends on the target alone, and nothing here says which.
#[verifier::external_body]
fn to_big_endian(x: u16) -> (r: u16)
    ensures
        r == x || r == (x % 0x100) * 0x100 + x / 0x100,
{
    x.to_be()
}

impl Endian {
    /// The bit of its byte, counted from the least significant one, at which
    /// the flag with this index lives.
    pub open spec fn bit(self, index: int) -> int {
        match self {
            Endian::Little => index % 8,
            Endian::Big => 7 - index % 8,
        }
    }

    /// The order of the target that this runs on: what the number 1, written
    /// most significant byte first, tells of it. The number reads as 1 again
    /// on a big-endian target and as 256 on a little-endian one; which of the
    /// two it is depends on the target, so all that holds of the result is
    /// that it is the order that one of the two tells.
    pub fn target() -> (order: Endian)
        ensures
            order == Endian::of_probe(1) || order == Endian::of_probe(0x100),
    {
        Endian::from_probe(to_big_endian(1))
    }

    /// The order of a target on which the number 1, written most significant
    /// byte first, reads as `probe`: big-endian where it still reads as 1,
    /// little-endian else.
    pub open spec fn of_probe(probe: u16) -> Endian {
        if probe == 1 {
            Endian::Big
        } else {
            Endian::Little
        }
    }

    /// The order of a target on which the number 1, written most significant
    /// byte first, reads as `probe`.
    pub fn from_probe(probe: u16) -> (order: Endian)
        ensures
            order == Endian::of_probe(probe),
    {
        if probe == 1 {
            Endian::Big
        } else {
            Endian::Little
        }
    }
}

impl Index {
    /// Where the flag with this index lives under the given order.
    pub open spec fn of(order: Endian, index: int) -> Index {
        Index { byte: (index / 8) as usize, mask: 1u8 << (order.bit(index) as u8) }
    }

    /// Where the flag with this index lives under the given order.
    pub fn position_in(order: Endian, index: usize) -> (at: Index)
        ensures
            at == Index::of(order, index as int),
    {
        let bit = match order {
            Endian::Little => index % 8,
            Endian::Big => 7 - (index % 8),
        };
        Index { byte: index / 8, mask: 1 << bit }
    }

    /// Where the flag with this index lives on the target that this runs on.
    pub fn position(index: usize) -> (at: Index)
        ensures
            at == Index::of(Endian::Little, index as int) || at == Index::of(
                Endian::Big,
                index as int,
            ),
    {
        Index::position_in(Endian::target(), index)
    }
}

/// The capability register.
#[allow(non_camel_case_types)]
#[derive(Copy, Clone)]
pub struct jvmtiCapabilities {
    pub inner: [u8; 16],
}

impl jvmtiCapabilities {
    /// Whether the flag with index `bit` is set, the bits being numbered in
    /// the given order.
    pub open spec fn flag(self, order: Endian, bit: int) -> bool {
        let at = Index::of(order, bit);
        self.inner[at.byte as int] & at.mask == at.mask
    }

    /// The 128 flags of the register, by index.
    pub open spec fn flags(self, order: Endian) -> Seq<bool> {
        Seq::new(FLAGS as nat, |bit: int| self.flag(order, bit))
    }

    /// The register with the flag at index `bit` set to `value` and every
    /// other bit as it is in `self`.
    pub open spec fn with_flag(self, order: Endian, bit: int, value: bool) -> jvmtiCapabilities {
        let at = Index::of(order, bit);
        let byte = self.inner[at.byte as int];
        jvmtiCapabilities {
            inner: spec_array_update(
                self.inner,
                at.byte as int,
                if value {
                    byte | at.mask
                } else {
                    byte & !at.mask
                },
            ),
        }
    }

    /// Whether `r` is what reading the flag with index `bit` gives under one
    /// of the two orders.
    pub open spec fn reads(self, bit: int, r: bool) -> bool {
        r == self.flag(Endian::Little, bit) || r == self.flag(Endian::Big, bit)
    }

    /// Whether `after` is `self` with the flag at index `bit` set to `value`
    /// under one of the two orders.
    pub open spec fn writes(self, after: jvmtiCapabilities, bit: int, value: bool) -> bool {
        after == self.with_flag(Endian::Little, bit, value) || after == self.with_flag(
            Endian::Big,
            bit,
            value,
        )
    }

    /// The register with no flag set.
    pub fn empty() -> (c: jvmtiCapabilities)
        ensures
            forall|i: int| 0 <= i < 16 ==> c.inner[i] == 0,
            forall|order: Endian, bit: int| 0 <= bit < FLAGS ==> !c.flag(order, bit),
    {
        let c = jvmtiCapabilities { inner: [0; 16] };
        assert forall|order: Endian, bit: int| 0 <= bit < FLAGS implies !c.flag(order, bit) by {
            let mask = Index::of(order, bit).mask;
            lemma_mask(order, bit);
            assert(0u8 & mask == 0u8) by (bit_vector);
        }
        c
    }

    /// Reads the flag with index `bit`, the bits being numbered in the given
    /// order.
    pub fn get_in(&self, order: Endian, bit: usize) -> (r: bool)
        requires
            bit < FLAGS,
        ensures
            r == self.flag(order, bit as int),
    {
        let at = Index::position_in(order, bit);
        self.inner[at.byte] & at.mask == at.mask
    }

    /// Sets the flag with index `bit` to `value`, the bits being numbered in
    /// the given order.
    pub fn set_in(&mut self, order: Endian, bit: usize, value: bool)
        requires
            bit < FLAGS,
        ensures
            *final(self) == old(self).with_flag(order, bit as int, value),
    {
        let at = Index::position_in(order, bit);
        if value {
            self.inner[at.byte] |= at.mask;
        } else {
            self.inner[at.byte] &= !at.mask;
        }
        assert(self.inner =~= old(self).with_flag(order, bit as int, value).inner);
    }

    /// Reads the flag with index `bit` on the target that this runs on.
    #[inline(always)]
    pub fn get(&self, bit: usize) -> (r: bool)
        requires
            bit < FLAGS,
        ensures
            self.reads(bit as int, r),
    {
        self.get_in(Endian::target(), bit)
    }

    /// Sets the flag with index `bit` to `value` on the target that this runs
    /// on.
    #[inline(always)]
    pub fn set(&mut self, bit: usize, value: bool)
        requires
            bit < FLAGS,
        ensures
            old(self).writes(*final(self), bit as int, value),
    {
        self.set_in(Endian::target(), bit, value)
    }
}

impl Default for jvmtiCapabilities {
    /// The register with no flag set.
    fn default() -> (c: jvmtiCapabilities)
        ensures
            forall|i: int| 0 <= i < 16 ==> c.inner[i] == 0,
            forall|order: Endian, bit: int| 0 <= bit < FLAGS ==> !c.flag(order, bit),
    {
        jvmtiCapabilities::empty()
    }
}

/// The mask of a flag has one bit, and that bit is the flag's.
proof fn lemma_mask(order: Endian, bit: int)
    requires
        0 <= bit,
    ensures
        0 <= order.bit(bit) < 8,
        Index::of(order, bit).mask != 0,
{
    let k = order.bit(bit) as u8;
    assert(k < 8 ==> 1u8 << k != 0) by (bit_vector);
}

/// What setting and clearing one bit of a byte does to that bit and to each
/// other bit of the byte.
proof fn lemma_one_bit(byte: u8, k: u8, j: u8)
    requires
        k < 8,
        j < 8,
    ensures
        (byte | (1u8 << k)) & (1u8 << k) == (1u8 << k),
        (byte & !(1u8 << k)) & (1u8 << k) != (1u8 << k),
        j != k ==> ((byte | (1u8 << k)) & (1u8 << j) == (1u8 << j)) == (byte & (1u8 << j) == (1u8
            << j)),
        j != k ==> ((byte & !(1u8 << k)) & (1u8 << j) == (1u8 << j)) == (byte & (1u8 << j) == (1u8
            << j)),
{
    assert((byte | (1u8 << k)) & (1u8 << k) == (1u8 << k)) by (bit_vector)
        requires
            k < 8,
    ;
    assert((byte & !(1u8 << k)) & (1u8 << k) != (1u8 << k)) by (bit_vector)
        requires
            k < 8,
    ;
    assert(j != k ==> ((byte | (1u8 << k)) & (1u8 << j) == (1u8 << j)) == (byte & (1u8 << j) == (
    1u8 << j))) by (bit_vector)
        requires
            k < 8,
            j < 8,
    ;
    assert(j != k ==> ((byte & !(1u8 << k)) & (1u8 << j) == (1u8 << j)) == (byte & (1u8 << j) == (
    1u8 << j))) by (bit_vector)
        requires
            k < 8,
            j < 8,
    ;
}

/// A flag that was set reads as set, and one that was cleared reads as
/// cleared.
pub proof fn law_set_then_get(c: jvmtiCapabilities, order: Endian, bit: int, value: bool)
    requires
        0 <= bit < FLAGS,
    ensures
        c.with_flag(order, bit, value).flag(order, bit) == value,
{
    let at = Index::of(order, bit);
    let k = order.bit(bit) as u8;
    lemma_one_bit(c.inner[at.byte as int], k, k);
}

/// Setting or clearing one flag changes no other flag: not its neighbours, not
/// any other.
pub proof fn law_set_leaves_others(
    c: jvmtiCapabilities,
    order: Endian,
    bit: int,
    value: bool,
    other: int,
)
    requires
        0 <= bit < FLAGS,
        0 <= other < FLAGS,
        other != bit,
    ensures
        c.with_flag(order, bit, value).flag(order, other) == c.flag(order, other),
{
    let at = Index::of(order, bit);
    let k = order.bit(bit) as u8;
    let j = order.bit(other) as u8;
    let after = c.with_flag(order, bit, value);
    if other / 8 == bit / 8 {
        lemma_one_bit(c.inner[at.byte as int], k, j);
    }
}

/// Seen as 128 flags, the register after a flag was set to `value` is the
/// register before with `value` at that flag's index.
pub proof fn law_flags_after_set(c: jvmtiCapabilities, order: Endian, bit: int, value: bool)
    requires
        0 <= bit < FLAGS,
    ensures
        c.with_flag(order, bit, value).flags(order) == c.flags(order).update(bit, value),
{
    let after = c.with_flag(order, bit, value);
    assert forall|i: int| 0 <= i < FLAGS implies after.flags(order)[i] == c.flags(order).update(
        bit,
        value,
    )[i] by {
        if i == bit {
            law_set_then_get(c, order, bit, value);
        } else {
            law_set_leaves_others(c, order, bit, value, i);
        }
    }
    assert(after.flags(order) =~= c.flags(order).update(bit, value));
}

/// A byte is known by its eight bits.
proof fn lemma_byte_by_bits(a: u8, b: u8)
    requires
        forall|k: u8| k < 8 ==> (a & (1u8 << k) == (1u8 << k)) == (b & (1u8 << k) == (1u8 << k)),
    ensures
        a == b,
{
    assert((a & (1u8 << 0u8) == (1u8 << 0u8)) == (b & (1u8 << 0u8) == (1u8 << 0u8)));
    assert((a & (1u8 << 1u8) == (1u8 << 1u8)) == (b & (1u8 << 1u8) == (1u8 << 1u8)));
    assert((a & (1u8 << 2u8) == (1u8 << 2u8)) == (b & (1u8 << 2u8) == (1u8 << 2u8)));
    assert((a & (1u8 << 3u8) == (1u8 << 3u8)) == (b & (1u8 << 3u8) == (1u8 << 3u8)));
    assert((a & (1u8 << 4u8) == (1u8 << 4u8)) == (b & (1u8 << 4u8) == (1u8 << 4u8)));
    assert((a & (1u8 << 5u8) == (1u8 << 5u8)) == (b & (1u8 << 5u8) == (1u8 << 5u8)));
    assert((a & (1u8 << 6u8) == (1u8 << 6u8)) == (b & (1u8 << 6u8) == (1u8 << 6u8)));
    assert((a & (1u8 << 7u8) == (1u8 << 7u8)) == (b & (1u8 << 7u8) == (1u8 << 7u8)));
    assert(a == b) by (bit_vector)
        requires
            (a & (1u8 << 0u8) == (1u8 << 0u8)) == (b & (1u8 << 0u8) == (1u8 << 0u8)),
            (a & (1u8 << 1u8) == (1u8 << 1u8)) == (b & (1u8 << 1u8) == (1u8 << 1u8)),
            (a & (1u8 << 2u8) == (1u8 << 2u8)) == (b & (1u8 << 2u8) == (1u8 << 2u8)),
            (a & (1u8 << 3u8) == (1u8 << 3u8)) == (b & (1u8 << 3u8) == (1u8 << 3u8)),
            (a & (1u8 << 4u8) == (1u8 << 4u8)) == (b & (1u8 << 4u8) == (1u8 << 4u8)),
            (a & (1u8 << 5u8) == (1u8 << 5u8)) == (b & (1u8 << 5u8) == (1u8 << 5u8)),
            (a & (1u8 << 6u8) == (1u8 << 6u8)) == (b & (1u8 << 6u8) == (1u8 << 6u8)),
            (a & (1u8 << 7u8) == (1u8 << 7u8)) == (b & (1u8 << 7u8) == (1u8 << 7u8)),
    ;
}

/// The 128 flags are all there is to the register: two registers with the same
/// flags hold the same bytes.
pub proof fn law_flags_determine_register(
    a: jvmtiCapabilities,
    b: jvmtiCapabilities,
    order: Endian,
)
    requires
        a.flags(order) == b.flags(order),
    ensures
        a == b,
{
    assert forall|i: int| 0 <= i < 16 implies a.inner[i] == b.inner[i] by {
        assert forall|k: u8| k < 8 implies (a.inner[i] & (1u8 << k) == (1u8 << k)) == (b.inner[i]
            & (1u8 << k) == (1u8 << k)) by {
            let bit = match order {
                Endian::Little => 8 * i + k,
                Endian::Big => 8 * i + 7 - k,
            };
            assert(order.bit(bit) == k);
            assert(bit / 8 == i);
            assert(a.flags(order)[bit] == a.flag(order, bit));
            assert(b.flags(order)[bit] == b.flag(order, bit));
        }
        lemma_byte_by_bits(a.inner[i], b.inner[i]);
    }
    assert(a.inner =~= b.inner);
}

} // verus!
