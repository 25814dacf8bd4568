//! What packing and unpacking guarantee together.
use vstd::prelude::*;
use vstd::utf8::{encode_utf8, is_ascii_chars};
use crate::algo::{CompressionAlgo, lemma_detect_known_signatures};
use crate::bytes::{
    all_digits, contains, digits_value, lemma_first_match, lemma_first_match_is, line_value, newline, occurs_at,
    starts_with,
};
use crate::gate::signature_bytes;
use crate::layout::HEADER_RESERVED_SIZE;
use crate::pack::{blob_for, pack_refusal, pack_result, packed_file, stub_bytes, zeros};
use crate::steps::{FileStep, pack_step_list, unpack_step_list};
use crate::stub::{
    DATA_START_KEY, DD_BODY, DD_PREAMBLE, DD_SHEBANG, DD_TAIL, DECOMP_SIZE_KEY, LINE_END, SIGNATURE,
    dd_fields, dd_script, stub_command,
};
use crate::text::{ascii_bytes, dec_chars, lemma_ascii_encoding, lemma_dec_chars, lemma_encode_utf8_concat};
use crate::unpack::{
    PayloadLocation, UnpackError, data_key, decomp_key, header_fields, header_region, locate, payload_of,
};

verus! {

/// No occurrence of `needle` starts in `[from, to)` when, at each index
/// there, the first or the second byte differs.
proof fn lemma_no_match_by_two_bytes(hay: Seq<u8>, needle: Seq<u8>, from: int, to: int)
    requires
        2 <= needle.len(),
        to < hay.len(),
        forall|j: int| from <= j < to ==> #[trigger] hay[j] != needle[0] || hay[j + 1] != needle[1],
    ensures
        forall|j: int| from <= j < to ==> !occurs_at(hay, needle, j),
{
    assert forall|j: int| from <= j < to implies !occurs_at(hay, needle, j) by {
        if occurs_at(hay, needle, j) {
            assert(hay.subrange(j, j + needle.len())[0] == hay[j]);
            assert(hay.subrange(j, j + needle.len())[1] == hay[j + 1]);
        }
    }
}

/// A run of digits followed by a newline is read back as its value.
proof fn lemma_line_value_of(hay: Seq<u8>, start: int, digits: Seq<u8>)
    requires
        0 <= start,
        start + digits.len() < hay.len(),
        hay.subrange(start, start + digits.len()) == digits,
        1 <= digits.len(),
        all_digits(digits),
        digits_value(digits) <= usize::MAX,
        hay[start + digits.len()] == 10,
    ensures
        line_value(hay, start) == Some((digits_value(digits), start + digits.len())),
{
    let e = start + digits.len();
    assert forall|j: int| start <= j < e implies !occurs_at(hay, newline(), j) by {
        assert(hay[j] == hay.subrange(start, e)[j - start]);
        assert(hay.subrange(j, j + 1)[0] == hay[j]);
    }
    assert(hay.subrange(e, e + 1) =~= newline());
    lemma_first_match_is(hay, newline(), start, e);
}

proof fn lemma_ascii_concat(a: Seq<char>, b: Seq<char>)
    requires
        is_ascii_chars(a),
        is_ascii_chars(b),
    ensures
        is_ascii_chars(a + b),
        ascii_bytes(a + b) == ascii_bytes(a) + ascii_bytes(b),
{
    assert forall|i: int| 0 <= i < (a + b).len() implies '\0' <= #[trigger] (a + b)[i] <= '\u{7f}' by {
        if i < a.len() {
            assert((a + b)[i] == a[i]);
        } else {
            assert((a + b)[i] == b[i - a.len()]);
        }
    }
    assert(ascii_bytes(a + b) =~= ascii_bytes(a) + ascii_bytes(b));
}

/// The literal parts of a fixed-offset stub's opening lines, as bytes.
proof fn lemma_stub_literals()
    ensures
        is_ascii_chars(DD_SHEBANG@),
        is_ascii_chars(SIGNATURE@),
        is_ascii_chars(DD_PREAMBLE@),
        is_ascii_chars(DECOMP_SIZE_KEY@),
        is_ascii_chars(DATA_START_KEY@),
        is_ascii_chars(LINE_END@),
        DD_SHEBANG@.len() == 12,
        SIGNATURE@.len() == 15,
        DD_PREAMBLE@.len() == 127,
        DECOMP_SIZE_KEY@.len() == 13,
        DATA_START_KEY@.len() == 12,
        LINE_END@.len() == 1,
        forall|j: int| 0 <= j < 12 ==> ascii_bytes(DD_SHEBANG@)[j] != ascii_bytes(SIGNATURE@)[0],
        forall|j: int|
            0 <= j < 126 ==> #[trigger] ascii_bytes(DD_PREAMBLE@)[j] != 10 || ascii_bytes(DD_PREAMBLE@)[j + 1]
                != ascii_bytes(DECOMP_SIZE_KEY@)[1],
        ascii_bytes(DD_PREAMBLE@)[126] != 10,
        ascii_bytes(DECOMP_SIZE_KEY@)[0] == 10,
        ascii_bytes(DECOMP_SIZE_KEY@)[1] == 68,
        ascii_bytes(DATA_START_KEY@)[0] == 10,
        ascii_bytes(LINE_END@)[0] == 10,
{
    reveal_strlit("#!/bin/sh\n# ");
    reveal_strlit("TEMS-EXEPACK:v1");
    reveal_strlit(
        " - compressed by tems-exepack (dd method)\n# (c) Philippe TEMESI https://www.tems.be, 2026\nset -e\n\n# Fixed offsets\nSCRIPT_START=",
    );
    reveal_strlit("\nDECOMP_SIZE=");
    reveal_strlit("\nDATA_START=");
    reveal_strlit("\n");
}

/// The opening lines of a fixed-offset stub are ASCII, and their bytes are
/// the pieces they are made of, in order.
proof fn lemma_fields_bytes(a: nat, b: nat, c: nat)
    ensures
        is_ascii_chars(dd_fields(a, b, c)),
        ascii_bytes(dd_fields(a, b, c)) == ascii_bytes(DD_SHEBANG@) + ascii_bytes(SIGNATURE@)
            + ascii_bytes(DD_PREAMBLE@) + ascii_bytes(dec_chars(a)) + ascii_bytes(DECOMP_SIZE_KEY@)
            + ascii_bytes(dec_chars(b)) + ascii_bytes(DATA_START_KEY@) + ascii_bytes(dec_chars(c))
            + ascii_bytes(LINE_END@),
{
    lemma_stub_literals();
    lemma_dec_chars(a);
    lemma_dec_chars(b);
    lemma_dec_chars(c);
    let s1 = DD_SHEBANG@ + SIGNATURE@;
    lemma_ascii_concat(DD_SHEBANG@, SIGNATURE@);
    let s2 = s1 + DD_PREAMBLE@;
    lemma_ascii_concat(s1, DD_PREAMBLE@);
    let s3 = s2 + dec_chars(a);
    lemma_ascii_concat(s2, dec_chars(a));
    let s4 = s3 + DECOMP_SIZE_KEY@;
    lemma_ascii_concat(s3, DECOMP_SIZE_KEY@);
    let s5 = s4 + dec_chars(b);
    lemma_ascii_concat(s4, dec_chars(b));
    let s6 = s5 + DATA_START_KEY@;
    lemma_ascii_concat(s5, DATA_START_KEY@);
    let s7 = s6 + dec_chars(c);
    lemma_ascii_concat(s6, dec_chars(c));
    lemma_ascii_concat(s7, LINE_END@);
}

/// The header region of a packed file is read back as the decompressor size
/// and the payload offset the stub was rendered with.
proof fn lemma_header_fields_of(hreg: Seq<u8>, a: nat, b: nat, c: nat)
    requires
        b <= usize::MAX,
        1 <= c <= usize::MAX,
        ascii_bytes(dd_fields(a, b, c)).len() <= hreg.len(),
        hreg.subrange(0, ascii_bytes(dd_fields(a, b, c)).len() as int) == ascii_bytes(
            dd_fields(a, b, c),
        ),
    ensures
        header_fields(hreg) == Ok::<(nat, nat), UnpackError>((b, c)),
{
    lemma_stub_literals();
    lemma_fields_bytes(a, b, c);
    lemma_dec_chars(a);
    lemma_dec_chars(b);
    lemma_dec_chars(c);
    lemma_ascii_encoding(SIGNATURE@);
    lemma_ascii_encoding(DECOMP_SIZE_KEY@);
    lemma_ascii_encoding(DATA_START_KEY@);
    let sheb = ascii_bytes(DD_SHEBANG@);
    let sig = ascii_bytes(SIGNATURE@);
    let pre = ascii_bytes(DD_PREAMBLE@);
    let da = ascii_bytes(dec_chars(a));
    let k1 = ascii_bytes(DECOMP_SIZE_KEY@);
    let db = ascii_bytes(dec_chars(b));
    let k2 = ascii_bytes(DATA_START_KEY@);
    let dc = ascii_bytes(dec_chars(c));
    let nl = ascii_bytes(LINE_END@);
    let pb = ascii_bytes(dd_fields(a, b, c));
    assert(pb == sheb + sig + pre + da + k1 + db + k2 + dc + nl);
    let p_k1: int = 154 + da.len() as int;
    let p_v1: int = p_k1 + 13;
    let e1: int = p_v1 + db.len() as int;
    let p_v2: int = e1 + 12;
    let e2: int = p_v2 + dc.len() as int;
    assert(pb.len() == e2 + 1);
    assert forall|j: int| 0 <= j < pb.len() implies hreg[j] == pb[j] by {
        assert(hreg[j] == hreg.subrange(0, pb.len() as int)[j]);
    }
    // The signature, first found right after the shebang.
    assert(hreg.subrange(12, 27) =~= sig);
    assert forall|j: int| 0 <= j < 12 implies #[trigger] hreg[j] != sig[0] || hreg[j + 1] != sig[1] by {
        assert(hreg[j] == pb[j] && pb[j] == sheb[j]);
    }
    lemma_no_match_by_two_bytes(hreg, signature_bytes(), 0, 12);
    lemma_first_match_is(hreg, signature_bytes(), 0, 12);
    // The decompressor size line.
    assert(hreg.subrange(p_k1, p_k1 + 13) =~= k1);
    assert forall|j: int| 27 <= j < p_k1 implies #[trigger] hreg[j] != k1[0] || hreg[j + 1] != k1[1] by {
        assert(hreg[j] == pb[j]);
        assert(hreg[j + 1] == pb[j + 1]);
        if j < 154 {
            assert(pb[j] == pre[j - 27]);
            if j < 153 {
                assert(pb[j + 1] == pre[j - 26]);
            }
        } else {
            assert(pb[j] == da[j - 154]);
        }
    }
    lemma_no_match_by_two_bytes(hreg, decomp_key(), 27, p_k1);
    lemma_first_match_is(hreg, decomp_key(), 27, p_k1);
    assert(hreg.subrange(p_v1, e1) =~= db);
    assert(hreg[e1] == k2[0]);
    lemma_line_value_of(hreg, p_v1, db);
    // The payload offset line, right after it.
    assert(hreg.subrange(e1, e1 + 12) =~= k2);
    lemma_first_match_is(hreg, data_key(), e1, e1);
    assert(hreg.subrange(p_v2, e2) =~= dc);
    assert(hreg[e2] == nl[0]);
    lemma_line_value_of(hreg, p_v2, dc);
}

/// A packed file is read back as it was written: its header gives the
/// decompressor's size and the payload offset, and the payload that starts
/// there is recognised as the format the algorithm writes.
pub proof fn lemma_packed_file_locates(algo: CompressionAlgo, blob: Seq<u8>, payload: Seq<u8>)
    requires
        starts_with(payload, algo.magic()),
        HEADER_RESERVED_SIZE + blob.len() <= usize::MAX,
        stub_bytes(algo, blob).len() <= HEADER_RESERVED_SIZE,
    ensures
        locate(packed_file(algo, blob, payload)) == Ok::<PayloadLocation, UnpackError>(
            PayloadLocation {
                decompressor_size: blob.len() as usize,
                payload_offset: (HEADER_RESERVED_SIZE + blob.len()) as usize,
                algo: algo.format(),
            },
        ),
{
    let h = HEADER_RESERVED_SIZE as nat;
    let m = blob.len();
    let c = h + m;
    let f = dd_fields(h, m, c);
    let t = DD_BODY@ + stub_command(algo) + DD_TAIL@;
    assert(dd_script(h, m, c, algo) =~= f + t);
    lemma_encode_utf8_concat(f, t);
    lemma_fields_bytes(h, m, c);
    lemma_ascii_encoding(f);
    let stub = stub_bytes(algo, blob);
    let pb = ascii_bytes(f);
    assert(stub == pb + encode_utf8(t));
    let image = packed_file(algo, blob, payload);
    let pad = zeros((h - stub.len()) as nat);
    assert(image == stub + pad + blob + payload);
    assert(image.len() == c + payload.len());
    let hreg = header_region(image);
    assert(hreg =~= image.subrange(0, h as int));
    assert(hreg.subrange(0, pb.len() as int) =~= pb) by {
        assert forall|j: int| 0 <= j < pb.len() implies hreg[j] == pb[j] by {
            assert(image[j] == stub[j]);
            assert(stub[j] == pb[j]);
        }
    }
    lemma_header_fields_of(hreg, h, m, c);
    assert(image.subrange(c as int, image.len() as int) =~= payload);
    lemma_detect_known_signatures(algo, payload);
}

/// The payload of a packed file is the compressed payload it was made with.
pub proof fn lemma_payload_of_packed_file(algo: CompressionAlgo, blob: Seq<u8>, payload: Seq<u8>)
    requires
        stub_bytes(algo, blob).len() <= HEADER_RESERVED_SIZE,
    ensures
        packed_file(algo, blob, payload).subrange(
            HEADER_RESERVED_SIZE + blob.len(),
            packed_file(algo, blob, payload).len() as int,
        ) == payload,
{
    let image = packed_file(algo, blob, payload);
    let stub = stub_bytes(algo, blob);
    let pad = zeros((HEADER_RESERVED_SIZE - stub.len()) as nat);
    assert(image == stub + pad + blob + payload);
    assert(image.subrange(HEADER_RESERVED_SIZE + blob.len(), image.len() as int) =~= payload);
}

/// Packing then unpacking gives the original back: for every algorithm and
/// every compressed form of `original` (what `compress` returns), the packed
/// file, when packing can go ahead, is read back with that payload, which its
/// format's decoder accepts and decodes to `original`; and both the packed
/// file and the restored one are given the original's mode.
pub proof fn lemma_pack_unpack_round_trip(
    offered: Option<Seq<u8>>,
    algo: CompressionAlgo,
    original: Seq<u8>,
    payload: Seq<u8>,
    mode: u32,
    keep_original: bool,
    keep_packed: bool,
)
    requires
        pack_refusal(offered, algo) is None,
        algo.is_compression_of(payload, original),
    ensures
        ({
            let image = pack_result(offered, algo, payload)->Ok_0;
            &&& locate(image) is Ok
            &&& locate(image)->Ok_0.algo == algo.format()
            &&& payload_of(image, locate(image)->Ok_0) == payload
            &&& locate(image)->Ok_0.algo.decodable(payload_of(image, locate(image)->Ok_0))
            &&& locate(image)->Ok_0.algo.decompressed(payload_of(image, locate(image)->Ok_0))
                == original
        }),
        pack_step_list(keep_original, mode).last() == FileStep::RestoreMode(mode),
        unpack_step_list(keep_packed, mode).last() == FileStep::RestoreMode(mode),
{
    let blob = blob_for(offered, algo)->Ok_0;
    lemma_packed_file_locates(algo, blob, payload);
    lemma_payload_of_packed_file(algo, blob, payload);
}

/// A file whose header states a payload offset past its end is reported as
/// truncated.
pub proof fn lemma_short_file_is_truncated(data: Seq<u8>, size: nat, start: nat)
    requires
        header_fields(header_region(data)) == Ok::<(nat, nat), UnpackError>((size, start)),
        data.len() < start,
    ensures
        locate(data) == Err::<PayloadLocation, UnpackError>(UnpackError::Truncated),
{
}

/// A header region is not packed exactly when it lacks the signature; with the
/// signature, any field that is missing, not a decimal number, or (for the
/// payload offset) zero is reported as a corrupt header, and a header that
/// reads gives a payload offset that is not zero.
pub proof fn lemma_header_errors(h: Seq<u8>)
    ensures
        (header_fields(h) == Err::<(nat, nat), UnpackError>(UnpackError::NotPacked)) <==> !contains(
            h,
            signature_bytes(),
        ),
        header_fields(h) is Err ==> header_fields(h) == Err::<(nat, nat), UnpackError>(
            UnpackError::NotPacked,
        ) || header_fields(h) == Err::<(nat, nat), UnpackError>(UnpackError::CorruptHeader),
        header_fields(h) matches Ok((_, start)) ==> start > 0,
{
    lemma_first_match(h, signature_bytes(), 0);
}

} // verus!
