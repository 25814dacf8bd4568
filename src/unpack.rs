//! Reading a packed file back: its header, its payload, and the original bytes.
use vstd::prelude::*;
use vstd::utf8::encode_utf8;
use crate::algo::{CompressionAlgo, detect};
use crate::bytes::{first_match, find_from, line_value, parse_decimal_line, prefix_copy};
use crate::gate::signature_bytes;
use crate::layout::HEADER_RESERVED_SIZE;
use crate::steps::{FileStep, unpack_step_list, unpack_steps};
use crate::stub::{DATA_START_KEY, DECOMP_SIZE_KEY, SIGNATURE};

verus! {

/// Why a file cannot be unpacked.
#[derive(Debug, PartialEq, Eq)]
pub enum UnpackError {
    /// The header region holds no signature.
    NotPacked,
    /// An offset field is missing, is not a decimal number, or the payload
    /// offset is zero.
    CorruptHeader,
    /// The file ends before the payload offset.
    Truncated,
    /// The payload opens with no known magic bytes.
    UnknownFormat,
    /// The codec failed, with its message.
    Codec(String),
}

/// Where a packed file's payload lies and how it was compressed.
#[derive(Clone, Copy, Debug, PartialEq, Eq, Structural)]
pub struct PayloadLocation {
    pub decompressor_size: usize,
    pub payload_offset: usize,
    pub algo: CompressionAlgo,
}

pub open spec fn decomp_key() -> Seq<u8> {
    encode_utf8(DECOMP_SIZE_KEY@)
}

pub open spec fn data_key() -> Seq<u8> {
    encode_utf8(DATA_START_KEY@)
}

/// The part of a file where the stub lies.
pub open spec fn header_region(data: Seq<u8>) -> Seq<u8> {
    if data.len() <= HEADER_RESERVED_SIZE {
        data
    } else {
        data.subrange(0, HEADER_RESERVED_SIZE as int)
    }
}

/// The decompressor size and the payload offset a header states: after the
/// first signature, the first `DECOMP_SIZE=` line, and after it the first
/// `DATA_START=` line, each value a decimal number on its own line.
pub open spec fn header_fields(h: Seq<u8>) -> Result<(nat, nat), UnpackError> {
    match first_match(h, signature_bytes(), 0) {
        None => Err(UnpackError::NotPacked),
        Some(p) => match first_match(h, decomp_key(), p + signature_bytes().len()) {
            None => Err(UnpackError::CorruptHeader),
            Some(k1) => match line_value(h, k1 + decomp_key().len()) {
                None => Err(UnpackError::CorruptHeader),
                Some((size, e1)) => match first_match(h, data_key(), e1) {
                    None => Err(UnpackError::CorruptHeader),
                    Some(k2) => match line_value(h, k2 + data_key().len()) {
                        None => Err(UnpackError::CorruptHeader),
                        Some((start, _)) => {
                            if start == 0 {
                                Err(UnpackError::CorruptHeader)
                            } else {
                                Ok((size, start))
                            }
                        },
                    },
                },
            },
        },
    }
}

/// Where the payload of `data` lies: the header read, then the file's length
/// held against the payload offset, then the payload's format recognised.
pub open spec fn locate(data: Seq<u8>) -> Result<PayloadLocation, UnpackError> {
    match header_fields(header_region(data)) {
        Err(e) => Err(e),
        Ok((size, start)) => {
            if data.len() < start {
                Err(UnpackError::Truncated)
            } else {
                match detect(data.subrange(start as int, data.len() as int)) {
                    None => Err(UnpackError::UnknownFormat),
                    Some(algo) => Ok(
                        PayloadLocation {
                            decompressor_size: size as usize,
                            payload_offset: start as usize,
                            algo,
                        },
                    ),
                }
            }
        },
    }
}

pub open spec fn fields_view(r: Result<(usize, usize), UnpackError>) -> Result<(nat, nat), UnpackError> {
    match r {
        Ok((a, b)) => Ok((a as nat, b as nat)),
        Err(e) => Err(e),
    }
}

/// Reads the two offset fields of a header region (see `header_fields`).
pub fn parse_header(h: &[u8]) -> (r: Result<(usize, usize), UnpackError>)
    ensures
        fields_view(r) == header_fields(h@),
{
    let sig = SIGNATURE.as_bytes();
    let key1 = DECOMP_SIZE_KEY.as_bytes();
    let key2 = DATA_START_KEY.as_bytes();
    let p = match find_from(h, sig, 0) {
        None => return Err(UnpackError::NotPacked),
        Some(p) => p,
    };
    proof {
        crate::bytes::lemma_first_match(h@, sig@, 0);
    }
    let k1 = match find_from(h, key1, p + sig.len()) {
        None => return Err(UnpackError::CorruptHeader),
        Some(k) => k,
    };
    proof {
        crate::bytes::lemma_first_match(h@, key1@, p + sig@.len());
    }
    let (size, e1) = match parse_decimal_line(h, k1 + key1.len()) {
        None => return Err(UnpackError::CorruptHeader),
        Some(f) => f,
    };
    let k2 = match find_from(h, key2, e1) {
        None => return Err(UnpackError::CorruptHeader),
        Some(k) => k,
    };
    proof {
        crate::bytes::lemma_first_match(h@, key2@, e1 as int);
    }
    let (start, _e2) = match parse_decimal_line(h, k2 + key2.len()) {
        None => return Err(UnpackError::CorruptHeader),
        Some(f) => f,
    };
    if start == 0 {
        return Err(UnpackError::CorruptHeader);
    }
    Ok((size, start))
}

/// Finds where the payload of a packed file lies (see `locate`).
pub fn locate_payload(data: &[u8]) -> (r: Result<PayloadLocation, UnpackError>)
    ensures
        r == locate(data@),
{
    let n = if data.len() <= HEADER_RESERVED_SIZE {
        data.len()
    } else {
        HEADER_RESERVED_SIZE
    };
    let h = prefix_copy(data, n);
    assert(h@ == header_region(data@)) by {
        if data@.len() <= HEADER_RESERVED_SIZE {
            assert(data@.subrange(0, n as int) =~= data@);
        }
    }
    let (size, start) = match parse_header(h.as_slice()) {
        Err(e) => return Err(e),
        Ok(f) => f,
    };
    if data.len() < start {
        return Err(UnpackError::Truncated);
    }
    let algo = match CompressionAlgo::from_magic(vstd::slice::slice_subrange(data, start, data.len())) {
        None => return Err(UnpackError::UnknownFormat),
        Some(a) => a,
    };
    Ok(PayloadLocation { decompressor_size: size, payload_offset: start, algo })
}

/// The bytes a packed file restores to, and where they were read from.
pub struct Unpacked {
    pub data: Vec<u8>,
    pub location: PayloadLocation,
    pub compressed_size: usize,
}

/// The payload of `data`, if `data` is a packed file.
pub open spec fn payload_of(data: Seq<u8>, loc: PayloadLocation) -> Seq<u8> {
    data.subrange(loc.payload_offset as int, data.len() as int)
}

/// Restores the original bytes of the packed file `data`: the errors of
/// `locate`, else the codec's output on the payload, else the codec's error,
/// which comes only for a payload the codec's decoder does not accept.
pub fn unpack_image(data: &[u8]) -> (r: Result<Unpacked, UnpackError>)
    ensures
        locate(data@) matches Ok(loc) && loc.algo.decodable(payload_of(data@, loc)) ==> r is Ok,
        match locate(data@) {
            Err(e) => r == Err::<Unpacked, UnpackError>(e),
            Ok(loc) => match r {
                Ok(u) => {
                    &&& u.location == loc
                    &&& u.data@ == loc.algo.decompressed(payload_of(data@, loc))
                    &&& u.compressed_size == data@.len() - loc.payload_offset
                },
                Err(e) => e is Codec,
            },
        },
{
    let location = locate_payload(data)?;
    let payload = vstd::slice::slice_subrange(data, location.payload_offset, data.len());
    match location.algo.decompress(payload) {
        Ok(v) => Ok(Unpacked { data: v, location, compressed_size: data.len() - location.payload_offset }),
        Err(msg) => Err(UnpackError::Codec(msg)),
    }
}

/// An unpacking: the restored bytes and the file steps that put them in place.
pub struct UnpackPlan {
    pub unpacked: Unpacked,
    pub steps: Vec<FileStep>,
}

/// Plans the unpacking of the packed file `data`, whose mode is `mode`: the
/// outcome of `unpack_image`, and on success the steps of `unpack_steps`.
pub fn unpack(data: &[u8], mode: u32, keep_backup: bool) -> (r: Result<UnpackPlan, UnpackError>)
    ensures
        locate(data@) matches Ok(loc) && loc.algo.decodable(payload_of(data@, loc)) ==> r is Ok,
        match locate(data@) {
            Err(e) => r == Err::<UnpackPlan, UnpackError>(e),
            Ok(loc) => match r {
                Ok(p) => {
                    &&& p.unpacked.location == loc
                    &&& p.unpacked.data@ == loc.algo.decompressed(payload_of(data@, loc))
                    &&& p.unpacked.compressed_size == data@.len() - loc.payload_offset
                    &&& p.steps@ == unpack_step_list(keep_backup, mode)
                },
                Err(e) => e is Codec,
            },
        },
{
    let unpacked = unpack_image(data)?;
    Ok(UnpackPlan { unpacked, steps: unpack_steps(keep_backup, mode) })
}

} // verus!
