use vstd::prelude::*;

verus! {

/// Bounds of the address masks the mappers and the PPU use, so that every
/// masked index is in range for the storage it selects.
pub proof fn lemma_mask_bounds()
    by (bit_vector)
    ensures
        forall|a: u16| #[trigger] (a & 0x7FF) < 0x800,
        forall|a: u16| #[trigger] (a & 0xFFF) < 0x1000,
        forall|a: u16| #[trigger] (a & 0x1F) < 0x20,
        forall|a: u16| #[trigger] (a & 0x3FFF) < 0x4000,
        forall|a: u16| #[trigger] (a & 0x7FFF) < 0x8000,
        forall|a: u16| #[trigger] (a % 8) < 8,
        forall|a: u16| #[trigger] (a & 7) < 8,
        forall|a: u16| #[trigger] (a & 0xFF) < 0x100,
        forall|a: u16| a < 0x100 ==> #[trigger] (a ^ 0xFF) < 0x100,
        forall|a: u16| #[trigger] ((a & 0x3E0) >> 5) < 0x20,
        forall|a: u8| #[trigger] (a & 0x0F) < 0x10,
        forall|a: u8| #[trigger] (a & 0x07) < 8,
        forall|a: u8| #[trigger] (a & 0x03) < 4,
        forall|a: u16, b: u16| #[trigger] (((a & 2) << 1) | (b & 2)) < 8,
        forall|a: u16| #[trigger] (a | 0) == a,
        (0u16 << 5) == 0u16,
{
}

} // verus!
