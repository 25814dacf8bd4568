//! The compression algorithms, how their output is recognised, and the codec calls.
use vstd::prelude::*;
use std::io::{Read, Write};
use crate::bytes::starts_with;

verus! {

/// A compression algorithm a packed file can use.
#[derive(Clone, Copy, Debug, PartialEq, Eq, Structural)]
pub enum CompressionAlgo {
    Gzip,
    Bzip2,
    Xz,
    /// The xz format, unpacked at run time by an embedded decompressor.
    TemsXz,
}

/// The first bytes of a gzip member.
pub open spec fn gzip_magic() -> Seq<u8> {
    seq![0x1fu8, 0x8bu8]
}

/// "BZh", the first bytes of a bzip2 stream.
pub open spec fn bzip2_magic() -> Seq<u8> {
    seq![0x42u8, 0x5au8, 0x68u8]
}

/// The first bytes of an xz stream.
pub open spec fn xz_magic() -> Seq<u8> {
    seq![0xfdu8, 0x37u8, 0x7au8, 0x58u8, 0x5au8, 0x00u8]
}

/// The algorithm whose container format `data` opens with, gzip first, then
/// bzip2, then xz.
pub open spec fn detect(data: Seq<u8>) -> Option<CompressionAlgo> {
    if starts_with(data, gzip_magic()) {
        Some(CompressionAlgo::Gzip)
    } else if starts_with(data, bzip2_magic()) {
        Some(CompressionAlgo::Bzip2)
    } else if starts_with(data, xz_magic()) {
        Some(CompressionAlgo::Xz)
    } else {
        None
    }
}

/// The algorithm a command-line flag selects.
pub open spec fn algo_for_flag(s: Seq<char>) -> Option<CompressionAlgo> {
    if s == "-gz"@ {
        Some(CompressionAlgo::Gzip)
    } else if s == "-bz2"@ {
        Some(CompressionAlgo::Bzip2)
    } else if s == "-xz"@ {
        Some(CompressionAlgo::Xz)
    } else if s == "-temsxz"@ {
        Some(CompressionAlgo::TemsXz)
    } else {
        None
    }
}

pub uninterp spec fn gzip_of(data: Seq<u8>) -> Seq<u8>;

pub uninterp spec fn bzip2_of(data: Seq<u8>) -> Seq<u8>;

pub uninterp spec fn gunzip_of(data: Seq<u8>) -> Seq<u8>;

pub uninterp spec fn bunzip2_of(data: Seq<u8>) -> Seq<u8>;

pub uninterp spec fn unxz_of(data: Seq<u8>) -> Seq<u8>;

/// Whether the xz decoder reads `data` to its end without error.
pub uninterp spec fn xz_accepts(data: Seq<u8>) -> bool;

impl CompressionAlgo {
    /// The container format the algorithm writes: both xz variants write xz.
    pub open spec fn format(self) -> CompressionAlgo {
        match self {
            CompressionAlgo::TemsXz => CompressionAlgo::Xz,
            other => other,
        }
    }

    /// The bytes every output of the algorithm opens with.
    pub open spec fn magic(self) -> Seq<u8> {
        match self {
            CompressionAlgo::Gzip => gzip_magic(),
            CompressionAlgo::Bzip2 => bzip2_magic(),
            _ => xz_magic(),
        }
    }

    pub open spec fn spec_name(self) -> Seq<char> {
        match self {
            CompressionAlgo::Gzip => "gzip"@,
            CompressionAlgo::Bzip2 => "bzip2"@,
            CompressionAlgo::Xz => "xz"@,
            CompressionAlgo::TemsXz => "temsxz (embedded)"@,
        }
    }

    /// The one output compressing `data` can have, where the codec fixes it:
    /// gzip and bzip2 do; xz output depends on the liblzma build.
    pub open spec fn fixed_encoding(self, data: Seq<u8>) -> Option<Seq<u8>> {
        match self {
            CompressionAlgo::Gzip => Some(gzip_of(data)),
            CompressionAlgo::Bzip2 => Some(bzip2_of(data)),
            _ => None,
        }
    }

    /// What decompressing `data` with the algorithm yields.
    pub open spec fn decompressed(self, data: Seq<u8>) -> Seq<u8> {
        match self {
            CompressionAlgo::Gzip => gunzip_of(data),
            CompressionAlgo::Bzip2 => bunzip2_of(data),
            _ => unxz_of(data),
        }
    }

    /// Whether the algorithm's decoder reads `data` without error: gzip and
    /// bzip2 read any output of their encoder.
    pub open spec fn decodable(self, data: Seq<u8>) -> bool {
        match self {
            CompressionAlgo::Gzip => data == gzip_of(gunzip_of(data)),
            CompressionAlgo::Bzip2 => data == bzip2_of(bunzip2_of(data)),
            _ => xz_accepts(data),
        }
    }

    /// `c` is a compressed form of `original` for the algorithm: it opens with
    /// the algorithm's magic bytes, its format's decoder reads it back to
    /// `original`, and it is the fixed encoding where the codec has one.
    pub open spec fn is_compression_of(self, c: Seq<u8>, original: Seq<u8>) -> bool {
        &&& starts_with(c, self.magic())
        &&& self.format().decodable(c)
        &&& self.format().decompressed(c) == original
        &&& self.fixed_encoding(original) matches Some(f) ==> c == f
    }

    /// The algorithm a command-line flag (`-gz`, `-bz2`, `-xz`, `-temsxz`) selects.
    pub fn from_str(s: &str) -> (r: Option<CompressionAlgo>)
        ensures
            r == algo_for_flag(s@),
    {
        let t = s.to_owned();
        if t == String::from_str("-gz") {
            Some(CompressionAlgo::Gzip)
        } else if t == String::from_str("-bz2") {
            Some(CompressionAlgo::Bzip2)
        } else if t == String::from_str("-xz") {
            Some(CompressionAlgo::Xz)
        } else if t == String::from_str("-temsxz") {
            Some(CompressionAlgo::TemsXz)
        } else {
            None
        }
    }

    /// The name shown to users.
    pub fn to_str(&self) -> (r: &'static str)
        ensures
            r@ == self.spec_name(),
    {
        match self {
            CompressionAlgo::Gzip => "gzip",
            CompressionAlgo::Bzip2 => "bzip2",
            CompressionAlgo::Xz => "xz",
            CompressionAlgo::TemsXz => "temsxz (embedded)",
        }
    }

    /// Whether packing with the algorithm embeds a decompressor in the packed file.
    pub fn needs_embedded_decompressor(&self) -> (r: bool)
        ensures
            r == (*self == CompressionAlgo::TemsXz),
    {
        matches!(self, CompressionAlgo::TemsXz)
    }

    /// The algorithm whose format `data` opens with; None for anything else,
    /// the empty input included. An xz stream is reported as `Xz`.
    pub fn from_magic(data: &[u8]) -> (r: Option<CompressionAlgo>)
        ensures
            r == detect(data@),
    {
        let n = data.len();
        if n >= 2 && data[0] == 0x1f && data[1] == 0x8b {
            assert(data@.subrange(0, 2) =~= gzip_magic());
            Some(CompressionAlgo::Gzip)
        } else if n >= 3 && data[0] == 0x42 && data[1] == 0x5a && data[2] == 0x68 {
            assert(data@.subrange(0, 2)[0] == data@[0]);
            assert(data@.subrange(0, 3) =~= bzip2_magic());
            Some(CompressionAlgo::Bzip2)
        } else if n >= 6 && data[0] == 0xfd && data[1] == 0x37 && data[2] == 0x7a && data[3]
            == 0x58 && data[4] == 0x5a && data[5] == 0x00 {
            assert(data@.subrange(0, 2)[0] == data@[0]);
            assert(data@.subrange(0, 3)[0] == data@[0]);
            assert(data@.subrange(0, 6) =~= xz_magic());
            Some(CompressionAlgo::Xz)
        } else {
            proof {
                if starts_with(data@, gzip_magic()) {
                    assert(data@.subrange(0, 2)[0] == data@[0]);
                    assert(data@.subrange(0, 2)[1] == data@[1]);
                }
                if starts_with(data@, bzip2_magic()) {
                    assert(data@.subrange(0, 3)[0] == data@[0]);
                    assert(data@.subrange(0, 3)[1] == data@[1]);
                    assert(data@.subrange(0, 3)[2] == data@[2]);
                }
                if starts_with(data@, xz_magic()) {
                    let p = data@.subrange(0, 6);
                    assert(p[0] == data@[0] && p[1] == data@[1] && p[2] == data@[2]);
                    assert(p[3] == data@[3] && p[4] == data@[4] && p[5] == data@[5]);
                }
            }
            None
        }
    }

    /// Compresses `data` at the algorithm's highest level. Compressing into
    /// memory does not fail.
    pub fn compress(&self, data: &[u8]) -> (r: Result<Vec<u8>, String>)
        ensures
            r is Ok,
            r matches Ok(v) ==> self.is_compression_of(v@, data@),
    {
        match self {
            CompressionAlgo::Gzip => gzip_compress(data),
            CompressionAlgo::Bzip2 => bzip2_compress(data),
            _ => xz_compress(data),
        }
    }

    /// Decompresses `data`, which holds the algorithm's container format; on
    /// failure the codec's message. Both xz variants are read by the xz codec.
    /// Data the decoder reads never fails.
    pub fn decompress(&self, data: &[u8]) -> (r: Result<Vec<u8>, String>)
        ensures
            self.decodable(data@) ==> r is Ok,
            r matches Ok(v) ==> v@ == self.decompressed(data@),
    {
        match self {
            CompressionAlgo::Gzip => gzip_decompress(data),
            CompressionAlgo::Bzip2 => bzip2_decompress(data),
            _ => xz_decompress(data),
        }
    }
}

/// Relies on flate2's `GzEncoder` at `Compression::best()`: `finish` writes the
/// gzip header, which opens with 1f 8b, before the deflate data; with no file
/// name, comment or time stamp set, the output depends on the input alone.
/// Writing to a `Vec` does not fail, and `GzDecoder` reads the output back.
#[verifier::external_body]
fn gzip_compress(data: &[u8]) -> (r: Result<Vec<u8>, String>)
    ensures
        r is Ok,
        r matches Ok(v) ==> v@ == gzip_of(data@) && starts_with(v@, gzip_magic()) && gunzip_of(v@)
            == data@,
{
    let mut enc = flate2::write::GzEncoder::new(Vec::new(), flate2::Compression::best());
    let done = match enc.write_all(data) {
        Ok(()) => enc.finish(),
        Err(e) => Err(e),
    };
    match done {
        Ok(v) => Ok(v),
        Err(e) => Err(e.to_string()),
    }
}

/// Relies on bzip2's `BzEncoder` at `Compression::best()`: the stream header the
/// codec writes first opens with "BZh". The pure-Rust libbz2 is linked in, so
/// the output depends on the input alone; writing to a `Vec` does not fail,
/// and `BzDecoder` reads the output back.
#[verifier::external_body]
fn bzip2_compress(data: &[u8]) -> (r: Result<Vec<u8>, String>)
    ensures
        r is Ok,
        r matches Ok(v) ==> v@ == bzip2_of(data@) && starts_with(v@, bzip2_magic()) && bunzip2_of(
            v@,
        ) == data@,
{
    let mut enc = bzip2::write::BzEncoder::new(Vec::new(), bzip2::Compression::best());
    let done = match enc.write_all(data) {
        Ok(()) => enc.finish(),
        Err(e) => Err(e),
    };
    match done {
        Ok(v) => Ok(v),
        Err(e) => Err(e.to_string()),
    }
}

/// Relies on xz2's `XzEncoder` at preset 9: liblzma writes an xz stream, whose
/// header opens with fd 37 7a 58 5a 00, and which `XzDecoder` reads back.
/// Writing to a `Vec` does not fail. Which bytes come out depends on the
/// liblzma build, so they are not named.
#[verifier::external_body]
fn xz_compress(data: &[u8]) -> (r: Result<Vec<u8>, String>)
    ensures
        r is Ok,
        r matches Ok(v) ==> starts_with(v@, xz_magic()) && xz_accepts(v@) && unxz_of(v@) == data@,
{
    let mut enc = xz2::write::XzEncoder::new(Vec::new(), 9);
    let done = match enc.write_all(data) {
        Ok(()) => enc.finish(),
        Err(e) => Err(e),
    };
    match done {
        Ok(v) => Ok(v),
        Err(e) => Err(e.to_string()),
    }
}

/// Relies on flate2's `GzDecoder`, read to its end: the content of the gzip
/// member that `data` holds. It fails only on data no gzip encoder wrote.
#[verifier::external_body]
fn gzip_decompress(data: &[u8]) -> (r: Result<Vec<u8>, String>)
    ensures
        data@ == gzip_of(gunzip_of(data@)) ==> r is Ok,
        r matches Ok(v) ==> v@ == gunzip_of(data@),
{
    let mut out = Vec::new();
    match flate2::read::GzDecoder::new(data).read_to_end(&mut out) {
        Ok(_) => Ok(out),
        Err(e) => Err(e.to_string()),
    }
}

/// Relies on bzip2's `BzDecoder`, read to its end: the content of the bzip2
/// stream that `data` holds. It fails only on data no bzip2 encoder wrote.
#[verifier::external_body]
fn bzip2_decompress(data: &[u8]) -> (r: Result<Vec<u8>, String>)
    ensures
        data@ == bzip2_of(bunzip2_of(data@)) ==> r is Ok,
        r matches Ok(v) ==> v@ == bunzip2_of(data@),
{
    let mut out = Vec::new();
    match bzip2::read::BzDecoder::new(data).read_to_end(&mut out) {
        Ok(_) => Ok(out),
        Err(e) => Err(e.to_string()),
    }
}

/// Relies on xz2's `XzDecoder`, read to its end: the content of the xz stream
/// that `data` holds; it succeeds exactly when `xz_accepts` holds.
#[verifier::external_body]
fn xz_decompress(data: &[u8]) -> (r: Result<Vec<u8>, String>)
    ensures
        xz_accepts(data@) <==> r is Ok,
        r matches Ok(v) ==> v@ == unxz_of(data@),
{
    let mut out = Vec::new();
    match xz2::read::XzDecoder::new(data).read_to_end(&mut out) {
        Ok(_) => Ok(out),
        Err(e) => Err(e.to_string()),
    }
}

/// Every algorithm's output is recognised as its container format.
pub proof fn lemma_detect_known_signatures(algo: CompressionAlgo, data: Seq<u8>)
    requires
        starts_with(data, algo.magic()),
    ensures
        detect(data) == Some(algo.format()),
{
    let m = algo.magic();
    assert(data.subrange(0, m.len() as int)[0] == data[0]);
    if m.len() > 1 {
        assert(data.subrange(0, m.len() as int)[1] == data[1]);
    }
    match algo {
        CompressionAlgo::Gzip => {
            assert(data.subrange(0, 2) =~= gzip_magic());
        },
        CompressionAlgo::Bzip2 => {
            assert(data.subrange(0, 3) =~= bzip2_magic());
        },
        _ => {
            assert(data.subrange(0, 6) =~= xz_magic());
        },
    }
}

} // verus!
