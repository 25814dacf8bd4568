//! Building a packed file: stub, decompressor and compressed payload at fixed offsets.
use vstd::prelude::*;
use vstd::utf8::encode_utf8;
use crate::algo::CompressionAlgo;
use crate::gate::{FileInfo, GateError, check_file, gate_verdict};
use crate::layout::{HEADER_RESERVED_SIZE, PackedLayout};
use crate::registry::CodecRegistry;
use crate::steps::{FileStep, pack_step_list, pack_steps};
use crate::stub::{dd_script, generate_dd_decompression_script};
use crate::laws::{lemma_packed_file_locates, lemma_payload_of_packed_file};
use crate::unpack::{PayloadLocation, UnpackError, locate};

verus! {

/// Why a file cannot be packed.
#[derive(Debug, PartialEq, Eq)]
pub enum PackError {
    /// The file failed the safety gate.
    Gate(GateError),
    /// The codec failed, with its message.
    Codec(String),
    /// The algorithm embeds a decompressor and the registry holds none.
    MissingDecompressor,
    /// The decompressor is too large for its offsets to be counted.
    LayoutOverflow,
    /// The rendered stub does not fit the reserved header.
    ScriptTooLarge { script_size: usize, reserved: usize },
}

pub open spec fn zeros(n: nat) -> Seq<u8> {
    Seq::new(n, |i: int| 0u8)
}

/// A packed file's bytes: the stub, zeros up to `header` bytes, the
/// decompressor, the payload.
pub open spec fn packed_bytes(stub: Seq<u8>, header: nat, blob: Seq<u8>, payload: Seq<u8>) -> Seq<u8> {
    stub + zeros((header - stub.len()) as nat) + blob + payload
}

/// The stub of a packed file whose decompressor is `blob`, as bytes.
pub open spec fn stub_bytes(algo: CompressionAlgo, blob: Seq<u8>) -> Seq<u8> {
    let h = HEADER_RESERVED_SIZE as nat;
    encode_utf8(dd_script(h, blob.len(), h + blob.len(), algo))
}

/// The packed file for `algo`, decompressor `blob` and compressed `payload`.
pub open spec fn packed_file(algo: CompressionAlgo, blob: Seq<u8>, payload: Seq<u8>) -> Seq<u8> {
    packed_bytes(stub_bytes(algo, blob), HEADER_RESERVED_SIZE as nat, blob, payload)
}

/// The decompressor a file packed with `algo` embeds, given what the registry
/// offers for it: an algorithm that embeds one needs a non-empty one.
pub open spec fn blob_for(offered: Option<Seq<u8>>, algo: CompressionAlgo) -> Result<Seq<u8>, PackError> {
    if algo == CompressionAlgo::TemsXz {
        match offered {
            Some(b) => if b.len() > 0 {
                Ok(b)
            } else {
                Err(PackError::MissingDecompressor)
            },
            None => Err(PackError::MissingDecompressor),
        }
    } else {
        Ok(Seq::empty())
    }
}

/// Why packing with `algo` cannot go ahead, whatever the payload: no
/// decompressor where one is needed, offsets past `usize`, or a stub larger
/// than the reserved header. None when it can.
pub open spec fn pack_refusal(offered: Option<Seq<u8>>, algo: CompressionAlgo) -> Option<PackError> {
    match blob_for(offered, algo) {
        Err(e) => Some(e),
        Ok(blob) => {
            if HEADER_RESERVED_SIZE + blob.len() > usize::MAX {
                Some(PackError::LayoutOverflow)
            } else if stub_bytes(algo, blob).len() > HEADER_RESERVED_SIZE {
                Some(
                    (PackError::ScriptTooLarge {
                        script_size: stub_bytes(algo, blob).len() as usize,
                        reserved: HEADER_RESERVED_SIZE,
                    }),
                )
            } else {
                None
            }
        },
    }
}

/// What packing a compressed payload yields.
pub open spec fn pack_result(offered: Option<Seq<u8>>, algo: CompressionAlgo, payload: Seq<u8>) -> Result<Seq<u8>, PackError> {
    match pack_refusal(offered, algo) {
        Some(e) => Err(e),
        None => Ok(packed_file(algo, blob_for(offered, algo)->Ok_0, payload)),
    }
}

/// A packed file's bytes with its layout and sizes.
pub struct PackedImage {
    pub image: Vec<u8>,
    pub layout: PackedLayout,
    pub compressed_size: usize,
}

/// The compressed payload a packed image carries.
pub open spec fn packed_payload(p: PackedImage) -> Seq<u8> {
    p.image@.subrange(p.layout.payload_offset as int, p.image@.len() as int)
}

/// `p` is the packing of `original` with `algo`: its layout, its bytes, a
/// payload that compresses `original`, and a header that reads back as that
/// layout.
pub open spec fn packed_as(p: PackedImage, offered: Option<Seq<u8>>, algo: CompressionAlgo, original: Seq<u8>) -> bool {
    let blob = blob_for(offered, algo)->Ok_0;
    &&& p.layout.wf()
    &&& p.layout.header_reserved_size == HEADER_RESERVED_SIZE
    &&& p.layout.decompressor_size == blob.len()
    &&& p.image@ == packed_file(algo, blob, packed_payload(p))
    &&& p.compressed_size == packed_payload(p).len()
    &&& algo.is_compression_of(packed_payload(p), original)
    &&& locate(p.image@) == Ok::<PayloadLocation, UnpackError>(
        PayloadLocation {
            decompressor_size: p.layout.decompressor_size,
            payload_offset: p.layout.payload_offset,
            algo: algo.format(),
        },
    )
}

pub open spec fn image_view(r: Result<PackedImage, PackError>) -> Result<Seq<u8>, PackError> {
    match r {
        Ok(p) => Ok(p.image@),
        Err(e) => Err(e),
    }
}

fn append_bytes(out: &mut Vec<u8>, src: &[u8])
    ensures
        final(out)@ == old(out)@ + src@,
{
    let mut i: usize = 0;
    while i < src.len()
        invariant
            i <= src@.len(),
            out@ == old(out)@ + src@.subrange(0, i as int),
        decreases src@.len() - i,
    {
        out.push(src[i]);
        i += 1;
        assert(out@ =~= old(out)@ + src@.subrange(0, i as int));
    }
    assert(src@.subrange(0, i as int) =~= src@);
}

fn append_zeros(out: &mut Vec<u8>, n: usize)
    ensures
        final(out)@ == old(out)@ + zeros(n as nat),
{
    let mut i: usize = 0;
    while i < n
        invariant
            i <= n,
            out@ == old(out)@ + zeros(i as nat),
        decreases n - i,
    {
        out.push(0u8);
        i += 1;
        assert(out@ =~= old(out)@ + zeros(i as nat));
    }
}

/// Lays out a packed file: the bytes of `script`, zeros up to the reserved
/// header size, `blob`, `payload`. Fails, writing nothing, when the script
/// does not fit the header.
pub fn assemble_packed_file(script: &str, layout: &PackedLayout, blob: &[u8], payload: &[u8]) -> (r: Result<Vec<u8>, PackError>)
    requires
        layout.wf(),
        blob@.len() == layout.decompressor_size,
    ensures
        encode_utf8(script@).len() > layout.header_reserved_size ==> r == Err::<Vec<u8>, PackError>(
            (PackError::ScriptTooLarge {
                script_size: encode_utf8(script@).len() as usize,
                reserved: layout.header_reserved_size,
            }),
        ),
        encode_utf8(script@).len() <= layout.header_reserved_size ==> (r matches Ok(v) && v@
            == packed_bytes(encode_utf8(script@), layout.header_reserved_size as nat, blob@, payload@)),
{
    let sb = script.as_bytes();
    if sb.len() > layout.header_reserved_size {
        return Err(PackError::ScriptTooLarge { script_size: sb.len(), reserved: layout.header_reserved_size });
    }
    let mut out: Vec<u8> = Vec::new();
    append_bytes(&mut out, sb);
    append_zeros(&mut out, layout.header_reserved_size - sb.len());
    append_bytes(&mut out, blob);
    append_bytes(&mut out, payload);
    assert(out@ =~= packed_bytes(sb@, layout.header_reserved_size as nat, blob@, payload@));
    Ok(out)
}

/// Packs an already compressed payload for `algo` (see `pack_result`).
pub fn pack_compressed(registry: &CodecRegistry, algo: CompressionAlgo, compressed: &[u8]) -> (r: Result<PackedImage, PackError>)
    ensures
        image_view(r) == pack_result(registry.decompressor_of(algo), algo, compressed@),
        r matches Ok(p) ==> {
            &&& p.layout.wf()
            &&& p.layout.header_reserved_size == HEADER_RESERVED_SIZE
            &&& p.layout.decompressor_size == blob_for(registry.decompressor_of(algo), algo)->Ok_0.len()
            &&& packed_payload(p) == compressed@
            &&& p.compressed_size == compressed@.len()
        },
{
    let none: Vec<u8> = Vec::new();
    let offered = registry.decompressor_bin(algo);
    let blob: &[u8] = if algo.needs_embedded_decompressor() {
        match offered {
            Some(b) => {
                if b.len() == 0 {
                    return Err(PackError::MissingDecompressor);
                }
                b.as_slice()
            },
            None => return Err(PackError::MissingDecompressor),
        }
    } else {
        assert(none@ =~= Seq::<u8>::empty());
        none.as_slice()
    };
    if blob.len() > usize::MAX - HEADER_RESERVED_SIZE {
        return Err(PackError::LayoutOverflow);
    }
    let layout = PackedLayout::plan(HEADER_RESERVED_SIZE, blob.len());
    let script = generate_dd_decompression_script(
        layout.decompressor_offset,
        layout.decompressor_size,
        layout.payload_offset,
        algo,
    );
    let image = assemble_packed_file(script.as_str(), &layout, blob, compressed)?;
    proof {
        lemma_payload_of_packed_file(algo, blob@, compressed@);
    }
    Ok(PackedImage { image, layout, compressed_size: compressed.len() })
}

/// Compresses `original` with `algo` and packs the result: the refusal of
/// `pack_refusal` if there is one, else a packed image of `original`.
pub fn pack_image(registry: &CodecRegistry, algo: CompressionAlgo, original: &[u8]) -> (r: Result<PackedImage, PackError>)
    ensures
        match pack_refusal(registry.decompressor_of(algo), algo) {
            Some(e) => r == Err::<PackedImage, PackError>(e),
            None => r matches Ok(p) && packed_as(p, registry.decompressor_of(algo), algo, original@),
        },
{
    let compressed = match algo.compress(original) {
        Ok(c) => c,
        Err(msg) => return Err(PackError::Codec(msg)),
    };
    let r = pack_compressed(registry, algo, compressed.as_slice());
    proof {
        if r is Ok {
            let blob = blob_for(registry.decompressor_of(algo), algo)->Ok_0;
            lemma_packed_file_locates(algo, blob, compressed@);
        }
    }
    r
}

/// A packing: the packed bytes, the sizes to report, and the file steps that
/// put the packed file in place.
pub struct PackPlan {
    pub packed: PackedImage,
    pub original_size: usize,
    pub steps: Vec<FileStep>,
}

/// Plans the packing of a file with metadata `info` and bytes `contents`:
/// the safety gate's error, else the outcome of `pack_image`, with on success
/// the steps of `pack_steps` for the file's mode.
pub fn pack(
    registry: &CodecRegistry,
    info: &FileInfo,
    contents: &[u8],
    algo: CompressionAlgo,
    keep_backup: bool,
) -> (r: Result<PackPlan, PackError>)
    ensures
        gate_verdict(*info, contents@) matches Err(e) ==> r == Err::<PackPlan, PackError>(
            PackError::Gate(e),
        ),
        gate_verdict(*info, contents@) is Ok ==> match pack_refusal(registry.decompressor_of(algo), algo) {
            Some(e) => r == Err::<PackPlan, PackError>(e),
            None => r matches Ok(p) && packed_as(p.packed, registry.decompressor_of(algo), algo, contents@),
        },
        r matches Ok(p) ==> p.original_size == contents@.len() && p.steps@ == pack_step_list(
            keep_backup,
            info.mode,
        ),
{
    match check_file(info, contents) {
        Err(e) => return Err(PackError::Gate(e)),
        Ok(()) => {},
    }
    let packed = pack_image(registry, algo, contents)?;
    Ok(PackPlan { packed, original_size: contents.len(), steps: pack_steps(keep_backup, info.mode) })
}

} // verus!
