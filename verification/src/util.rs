//! Bit-field updates of register words, and register accesses as values.
//!
//! A driver operation does not touch memory itself. It returns the
//! [`Access`] to perform: which register, whether its word is loaded first,
//! and which word is then stored. Whoever owns the hardware loads at most
//! once, asks [`Access::stored`] for the word, and stores once.

use vstd::prelude::*;

verus! {

/// The `len` bits starting at bit `offset`.
pub open spec fn field_mask(offset: u32, len: u32) -> u32 {
    (((1u32 << len) - 1) as u32) << offset
}

/// `word` with the field of `len` bits at `offset` replaced by `value`;
/// every bit outside the field is kept.
pub open spec fn set_bits_spec(word: u32, offset: u32, len: u32, value: u32) -> u32 {
    (word & !field_mask(offset, len)) | ((value << offset) & field_mask(offset, len))
}

/// `word` with the bits of `clear` removed and then the bits of `set` added.
pub open spec fn merge_spec(word: u32, clear: u32, set: u32) -> u32 {
    (word & !clear) | set
}

/// Replacing a field keeps every bit outside it and, where the field lies
/// inside the word, leaves exactly the low `len` bits of `value` in it.
pub proof fn lemma_set_bits_field(word: u32, offset: u32, len: u32, value: u32)
    requires
        offset < 32,
        len < 32,
    ensures
        set_bits_spec(word, offset, len, value) & !field_mask(offset, len) == word & !field_mask(
            offset,
            len,
        ),
        offset + len <= 32 ==> (set_bits_spec(word, offset, len, value) >> offset) & field_mask(
            0,
            len,
        ) == value & field_mask(0, len),
{
    assert((1u32 << len) >= 1) by (bit_vector)
        requires
            len < 32,
    ;
    let low: u32 = ((1u32 << len) - 1) as u32;
    assert(field_mask(offset, len) == low << offset);
    assert(field_mask(0, len) == low) by (bit_vector)
        requires
            field_mask(0, len) == low << 0u32,
    ;
    assert((((word & !(low << offset)) | ((value << offset) & (low << offset))) & !(low << offset))
        == word & !(low << offset)) by (bit_vector);
    if offset + len <= 32 {
        assert(((((word & !(low << offset)) | ((value << offset) & (low << offset))) >> offset)
            & low) == value & low) by (bit_vector)
            requires
                offset + len <= 32,
                offset < 32,
                len < 32,
                low == ((1u32 << len) - 1) as u32,
        ;
    }
}

/// Replacing one field leaves every field that does not overlap it as it
/// was: a write to one pin's or one setting's field cannot disturb its
/// neighbours.
pub proof fn lemma_set_bits_keeps_other_fields(
    word: u32,
    offset: u32,
    len: u32,
    value: u32,
    other_offset: u32,
    other_len: u32,
)
    requires
        offset + len <= 32,
        other_offset + other_len <= 32,
        len < 32,
        other_len < 32,
        offset + len <= other_offset || other_offset + other_len <= offset,
    ensures
        (set_bits_spec(word, offset, len, value) >> other_offset) & field_mask(0, other_len) == (
        word >> other_offset) & field_mask(0, other_len),
{
    assert((1u32 << len) >= 1) by (bit_vector)
        requires
            len < 32,
    ;
    assert((1u32 << other_len) >= 1) by (bit_vector)
        requires
            other_len < 32,
    ;
    let low: u32 = ((1u32 << len) - 1) as u32;
    let other_low: u32 = ((1u32 << other_len) - 1) as u32;
    assert(field_mask(0, other_len) == other_low) by (bit_vector)
        requires
            field_mask(0, other_len) == other_low << 0u32,
    ;
    assert(((((word & !(low << offset)) | ((value << offset) & (low << offset))) >> other_offset)
        & other_low) == (word >> other_offset) & other_low) by (bit_vector)
        requires
            offset + len <= 32,
            other_offset + other_len <= 32,
            len < 32,
            other_len < 32,
            offset + len <= other_offset || other_offset + other_len <= offset,
            low == ((1u32 << len) - 1) as u32,
            other_low == ((1u32 << other_len) - 1) as u32,
    ;
}

/// A word in which a bit field can be replaced.
pub trait SetBits: Sized {
    /// The word after the field of `len` bits at `offset` took `value`.
    spec fn with_bits(self, offset: u32, len: u32, value: u32) -> Self;

    fn set_bits(self, offset: u32, len: u32, value: u32) -> (r: Self)
        requires
            offset < 32,
            len < 32,
        ensures
            r == self.with_bits(offset, len, value),
    ;
}

impl SetBits for u32 {
    open spec fn with_bits(self, offset: u32, len: u32, value: u32) -> u32 {
        set_bits_spec(self, offset, len, value)
    }

    fn set_bits(self, offset: u32, len: u32, value: u32) -> (r: u32) {
        assert((1u32 << len) >= 1) by (bit_vector)
            requires
                len < 32,
        ;
        let mask: u32 = ((1u32 << len) - 1) << offset;
        (self & !mask) | ((value << offset) & mask)
    }
}

/// One access to a memory-mapped register.
#[derive(Clone, Copy, Debug, PartialEq, Eq)]
pub enum Access {
    /// Store `value`; nothing is loaded.
    Store { address: u32, value: u32 },
    /// Load the word, replace the field of `len` bits at `offset` by
    /// `value`, store the result.
    SetField { address: u32, offset: u32, len: u32, value: u32 },
    /// Load the word, remove the bits of `clear`, add the bits of `set`,
    /// store the result.
    Merge { address: u32, clear: u32, set: u32 },
}

impl Access {
    /// A field access names a field that a 32-bit shift can reach.
    pub open spec fn wf(&self) -> bool {
        match *self {
            Access::SetField { offset, len, .. } => offset < 32 && len < 32,
            _ => true,
        }
    }

    pub open spec fn address_spec(&self) -> u32 {
        match *self {
            Access::Store { address, .. } => address,
            Access::SetField { address, .. } => address,
            Access::Merge { address, .. } => address,
        }
    }

    /// The word that the access stores when `loaded` is what it loaded.
    pub open spec fn stored_spec(&self, loaded: u32) -> u32 {
        match *self {
            Access::Store { value, .. } => value,
            Access::SetField { offset, len, value, .. } => set_bits_spec(
                loaded,
                offset,
                len,
                value,
            ),
            Access::Merge { clear, set, .. } => merge_spec(loaded, clear, set),
        }
    }

    /// The register that the access goes to.
    pub fn address(&self) -> (r: u32)
        ensures
            r == self.address_spec(),
    {
        match *self {
            Access::Store { address, .. } => address,
            Access::SetField { address, .. } => address,
            Access::Merge { address, .. } => address,
        }
    }

    /// Whether the register is loaded before the store.
    pub fn loads(&self) -> (r: bool)
        ensures
            r == !(*self is Store),
    {
        match *self {
            Access::Store { .. } => false,
            _ => true,
        }
    }

    /// The word to store, given the word that was loaded. A plain store
    /// ignores `loaded`.
    pub fn stored(&self, loaded: u32) -> (r: u32)
        requires
            self.wf(),
        ensures
            r == self.stored_spec(loaded),
    {
        match *self {
            Access::Store { value, .. } => value,
            Access::SetField { offset, len, value, .. } => loaded.set_bits(offset, len, value),
            Access::Merge { clear, set, .. } => (loaded & !clear) | set,
        }
    }
}

} // verus!
