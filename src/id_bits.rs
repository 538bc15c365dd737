use vstd::prelude::*;

verus! {

/// Mask of the epoch bits of a packed id.
pub const EPOCH_MASK: u32 = 0x1fff_ffff;

/// Packs `index` into the low 32 bits, `epoch` above it and the backend tag
/// into the top three bits.
pub open spec fn pack(index: u64, epoch: u64, tag: u64) -> u64 {
    index | (epoch << 32u64) | (tag << 61u64)
}

/// Unpacking a packed id gives back its three parts.
pub proof fn lemma_unpack(index: u64, epoch: u64, tag: u64)
    requires
        index < 0x1_0000_0000,
        epoch <= 0x1fff_ffff,
        tag < 8,
    ensures
        pack(index, epoch, tag) & 0xffff_ffffu64 == index,
        (pack(index, epoch, tag) >> 32u64) & 0x1fff_ffffu64 == epoch,
        pack(index, epoch, tag) >> 61u64 == tag,
{
    assert(((index | (epoch << 32u64) | (tag << 61u64)) & 0xffff_ffffu64) == index) by (bit_vector)
        requires
            index < 0x1_0000_0000,
            epoch <= 0x1fff_ffff,
            tag < 8,
    ;
    assert((((index | (epoch << 32u64) | (tag << 61u64)) >> 32u64) & 0x1fff_ffffu64) == epoch)
        by (bit_vector)
        requires
            index < 0x1_0000_0000,
            epoch <= 0x1fff_ffff,
            tag < 8,
    ;
    assert(((index | (epoch << 32u64) | (tag << 61u64)) >> 61u64) == tag) by (bit_vector)
        requires
            index < 0x1_0000_0000,
            epoch <= 0x1fff_ffff,
            tag < 8,
    ;
}

/// The epoch bits of any word fit under the epoch mask.
pub proof fn lemma_epoch_bits_fit(raw: u64)
    ensures
        (raw >> 32u64) & 0x1fff_ffffu64 <= 0x1fff_ffff,
        raw & 0xffff_ffffu64 < 0x1_0000_0000,
        raw >> 61u64 < 8,
{
    assert((raw >> 32u64) & 0x1fff_ffffu64 <= 0x1fff_ffff) by (bit_vector);
    assert(raw & 0xffff_ffffu64 < 0x1_0000_0000) by (bit_vector);
    assert(raw >> 61u64 < 8) by (bit_vector);
}

/// Masking a 32-bit epoch keeps it under the epoch mask, and leaves a small one as it is.
pub proof fn lemma_mask_epoch(epoch: u32)
    ensures
        epoch & EPOCH_MASK <= EPOCH_MASK,
        epoch <= EPOCH_MASK ==> epoch & EPOCH_MASK == epoch,
{
    assert(epoch & 0x1fff_ffffu32 <= 0x1fff_ffffu32) by (bit_vector);
    assert(epoch <= 0x1fff_ffffu32 ==> epoch & 0x1fff_ffffu32 == epoch) by (bit_vector);
}

} // verus!
