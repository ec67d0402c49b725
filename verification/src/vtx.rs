//! Vertex descriptors.

use vstd::prelude::*;

verus! {

/// Describes how a single vertex attribute will be referenced, laid out as libogc's
/// `GXVtxDesc`. In a list of descriptors, the attribute `VtxAttr::Null` marks the end.
#[derive(Copy, Clone, Debug, PartialEq, Eq, Structural)]
pub struct VtxDesc {
    /// The attribute's code (see `VtxAttr::code`).
    pub attr: u8,
    /// How the attribute is given: none, direct, or an 8- or 16-bit index.
    pub v_type: u8,
}

} // verus!
