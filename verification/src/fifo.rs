//! Graphics FIFOs: the calls that describe a `GXFifoObj`, with their argument rules.

use vstd::prelude::*;
use crate::call::FifoCall;
use crate::gx::FIFO_ALIGN;

verus! {

/// The alignment, in bytes, of FIFO water marks.
pub const WATERMARK_ALIGN: u32 = 32;

impl FifoCall {
    /// Describes the FIFO area at `base_addr` of `size` bytes. Both must be multiples of 32;
    /// the size is handed over as a 32-bit value.
    pub fn init_base(base_addr: usize, size: usize) -> (call: FifoCall)
        requires
            size % FIFO_ALIGN == 0,
            base_addr % FIFO_ALIGN == 0,
        ensures
            call == (FifoCall::InitBase { base: base_addr, size: size as u32 }),
    {
        FifoCall::InitBase { base: base_addr, size: size as u32 }
    }

    /// Sets the high and low water marks, both multiples of 32.
    pub fn init_limits(hiwatermark: u32, lowatermark: u32) -> (call: FifoCall)
        requires
            hiwatermark % WATERMARK_ALIGN == 0,
            lowatermark % WATERMARK_ALIGN == 0,
        ensures
            call == (FifoCall::InitLimits { hiwatermark, lowatermark }),
    {
        FifoCall::InitLimits { hiwatermark, lowatermark }
    }
}

} // verus!
