//! Where the parts of a packed file start.
use vstd::prelude::*;

verus! {

/// The bytes reserved at the start of a packed file for the stub script.
pub const HEADER_RESERVED_SIZE: usize = 4096;

/// The fixed offsets of a packed file: the stub, zero-padded to
/// `header_reserved_size` bytes, then the decompressor, then the payload.
#[derive(Clone, Copy, Debug, PartialEq, Eq, Structural)]
pub struct PackedLayout {
    pub header_reserved_size: usize,
    pub decompressor_offset: usize,
    pub decompressor_size: usize,
    pub payload_offset: usize,
}

impl PackedLayout {
    /// The decompressor starts where the header ends, the payload where the
    /// decompressor ends.
    pub open spec fn wf(self) -> bool {
        &&& self.decompressor_offset == self.header_reserved_size
        &&& self.payload_offset == self.decompressor_offset + self.decompressor_size
    }

    /// The layout for a header of `header_reserved_size` bytes followed by a
    /// decompressor of `decompressor_size` bytes.
    pub fn plan(header_reserved_size: usize, decompressor_size: usize) -> (r: PackedLayout)
        requires
            header_reserved_size + decompressor_size <= usize::MAX,
        ensures
            r.wf(),
            r.header_reserved_size == header_reserved_size,
            r.decompressor_size == decompressor_size,
    {
        PackedLayout {
            header_reserved_size,
            decompressor_offset: header_reserved_size,
            decompressor_size,
            payload_offset: header_reserved_size + decompressor_size,
        }
    }
}

} // verus!
