//! The codec table shared by packing and unpacking.
use vstd::prelude::*;
use crate::algo::CompressionAlgo;

verus! {

/// What packing needs beside the codecs: the embedded decompressor for
/// `TemsXz`, a stand-alone program that reads an xz stream on standard input
/// and writes its content to standard output. Built once, then only read.
pub struct CodecRegistry {
    embedded_xz: Option<Vec<u8>>,
}

impl CodecRegistry {
    /// The embedded xz decompressor the registry holds.
    pub closed spec fn embedded(self) -> Option<Seq<u8>> {
        match self.embedded_xz {
            Some(b) => Some(b@),
            None => None,
        }
    }

    /// The decompressor a packed file made with `algo` embeds: none but for
    /// `TemsXz`.
    pub open spec fn decompressor_of(self, algo: CompressionAlgo) -> Option<Seq<u8>> {
        if algo == CompressionAlgo::TemsXz {
            self.embedded()
        } else {
            None
        }
    }

    pub fn new(embedded_xz: Option<Vec<u8>>) -> (r: CodecRegistry)
        ensures
            r.embedded() == match embedded_xz {
                Some(b) => Some(b@),
                None => None::<Seq<u8>>,
            },
    {
        CodecRegistry { embedded_xz }
    }

    /// The decompressor a packed file made with `algo` embeds.
    pub fn decompressor_bin(&self, algo: CompressionAlgo) -> (r: Option<&Vec<u8>>)
        ensures
            match r {
                Some(b) => self.decompressor_of(algo) == Some(b@),
                None => self.decompressor_of(algo) is None,
            },
    {
        match algo {
            CompressionAlgo::TemsXz => match &self.embedded_xz {
                Some(b) => Some(b),
                None => None,
            },
            _ => None,
        }
    }
}

} // verus!
