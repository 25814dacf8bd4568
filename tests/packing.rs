use tems_exepack::algo::CompressionAlgo;
use tems_exepack::gate::{FileInfo, FileKind, GateError};
use tems_exepack::layout::{PackedLayout, HEADER_RESERVED_SIZE};
use tems_exepack::pack::{assemble_packed_file, pack, pack_compressed, pack_image, PackError};
use tems_exepack::registry::CodecRegistry;
use tems_exepack::steps::{pack_steps, unpack_steps, FileStep};
use tems_exepack::unpack::{locate_payload, parse_header, unpack, unpack_image, PayloadLocation, UnpackError};

const ALL: [CompressionAlgo; 4] =
    [CompressionAlgo::Gzip, CompressionAlgo::Bzip2, CompressionAlgo::Xz, CompressionAlgo::TemsXz];

/// A synthetic executable: an ELF-like header, repetitive code and some noise.
fn synthetic_executable(len: usize) -> Vec<u8> {
    let mut v = vec![0x7f, b'E', b'L', b'F', 2, 1, 1, 0];
    let mut x: u32 = 12345;
    while v.len() < len {
        if v.len() % 64 < 48 {
            v.extend_from_slice(b"\x48\x89\xe5\x48\x83\xec\x10");
        } else {
            x = x.wrapping_mul(1103515245).wrapping_add(12345);
            v.push((x >> 16) as u8);
        }
    }
    v.truncate(len);
    v
}

fn registry() -> CodecRegistry {
    CodecRegistry::new(Some(b"#!/bin/sh\nexec xz -d -c\n".to_vec()))
}

fn exe_info() -> FileInfo {
    FileInfo { kind: FileKind::RegularFile, mode: 0o755 }
}

#[test]
fn end_to_end_highest_compression() {
    let original = synthetic_executable(10_000);
    assert_eq!(original.len(), 10_000);
    let reg = CodecRegistry::new(None);
    let plan = pack(&reg, &exe_info(), &original, CompressionAlgo::Xz, false).unwrap();
    let packed = &plan.packed;
    assert!(packed.compressed_size < original.len());
    assert_eq!(packed.image.len(), HEADER_RESERVED_SIZE + packed.layout.decompressor_size + packed.compressed_size);
    assert_eq!(packed.layout.decompressor_size, 0);
    assert_eq!(plan.original_size, 10_000);
    let restored = unpack(&packed.image, 0o755, false).unwrap();
    assert_eq!(restored.unpacked.data, original);
}

#[test]
fn round_trip_every_algorithm() {
    let original = synthetic_executable(7_777);
    let reg = registry();
    for algo in ALL {
        let plan = pack(&reg, &exe_info(), &original, algo, true).unwrap();
        let un = unpack(&plan.packed.image, 0o755, true).unwrap();
        assert_eq!(un.unpacked.data, original, "{:?}", algo);
        let expected = if algo == CompressionAlgo::TemsXz { CompressionAlgo::Xz } else { algo };
        assert_eq!(un.unpacked.location.algo, expected);
        assert_eq!(un.unpacked.location.payload_offset, plan.packed.layout.payload_offset);
        assert_eq!(plan.steps.last(), Some(&FileStep::RestoreMode(0o755)));
        assert_eq!(un.steps.last(), Some(&FileStep::RestoreMode(0o755)));
    }
}

#[test]
fn round_trip_empty_file() {
    let reg = CodecRegistry::new(None);
    let img = pack_image(&reg, CompressionAlgo::Gzip, &[]).unwrap();
    assert_eq!(unpack_image(&img.image).unwrap().data, Vec::<u8>::new());
}

#[test]
fn embedded_decompressor_sits_after_header() {
    let original = synthetic_executable(5_000);
    let blob = b"#!/bin/sh\nexec xz -d -c\n".to_vec();
    let reg = CodecRegistry::new(Some(blob.clone()));
    let img = pack_image(&reg, CompressionAlgo::TemsXz, &original).unwrap();
    assert_eq!(img.layout.decompressor_offset, 4096);
    assert_eq!(img.layout.decompressor_size, blob.len());
    assert_eq!(img.layout.payload_offset, 4096 + blob.len());
    assert_eq!(&img.image[4096..4096 + blob.len()], &blob[..]);
    let text = String::from_utf8_lossy(&img.image[..200]).to_string();
    assert!(text.contains(&format!("\nDECOMP_SIZE={}\nDATA_START={}\n", blob.len(), 4096 + blob.len())));
    assert_eq!(img.image.len(), 4096 + blob.len() + img.compressed_size);
    assert_eq!(
        locate_payload(&img.image),
        Ok(PayloadLocation { decompressor_size: blob.len(), payload_offset: 4096 + blob.len(), algo: CompressionAlgo::Xz })
    );
}

#[test]
fn header_is_zero_padded() {
    let img = pack_image(&CodecRegistry::new(None), CompressionAlgo::Bzip2, b"abc").unwrap();
    let script_end = img.image.iter().position(|b| *b == 0).unwrap();
    assert!(script_end > 100 && script_end < 4096);
    assert!(img.image[script_end..4096].iter().all(|b| *b == 0));
    assert_eq!(&img.image[4096..4099], b"BZh");
}

#[test]
fn temsxz_needs_a_decompressor() {
    let none = CodecRegistry::new(None);
    assert_eq!(pack_image(&none, CompressionAlgo::TemsXz, b"abc").err(), Some(PackError::MissingDecompressor));
    let empty = CodecRegistry::new(Some(Vec::new()));
    assert_eq!(pack_compressed(&empty, CompressionAlgo::TemsXz, b"x").err(), Some(PackError::MissingDecompressor));
    assert!(pack_compressed(&empty, CompressionAlgo::Xz, b"x").is_ok());
}

#[test]
fn oversized_stub_is_refused_before_anything_is_written() {
    let original = synthetic_executable(2_000);
    let before = original.clone();
    let compressed = CompressionAlgo::Gzip.compress(&original).unwrap();
    let layout = PackedLayout::plan(64, 0);
    let script = tems_exepack::stub::generate_dd_decompression_script(64, 0, 64, CompressionAlgo::Gzip);
    let r = assemble_packed_file(&script, &layout, &[], &compressed);
    assert_eq!(r, Err(PackError::ScriptTooLarge { script_size: script.len(), reserved: 64 }));
    assert_eq!(original, before);
}

#[test]
fn assemble_lays_out_parts() {
    let layout = PackedLayout::plan(8, 2);
    let r = assemble_packed_file("#!", &layout, &[7, 7], &[1, 2, 3]).unwrap();
    assert_eq!(r, vec![b'#', b'!', 0, 0, 0, 0, 0, 0, 7, 7, 1, 2, 3]);
    let exact = assemble_packed_file("12345678", &layout, &[7, 7], &[]).unwrap();
    assert_eq!(exact, b"12345678\x07\x07".to_vec());
}

#[test]
fn pack_reports_gate_errors() {
    let reg = CodecRegistry::new(None);
    let info = FileInfo { kind: FileKind::RegularFile, mode: 0o644 };
    assert_eq!(pack(&reg, &info, b"x", CompressionAlgo::Gzip, false).err(), Some(PackError::Gate(GateError::NotExecutable)));
    let packed = pack_image(&reg, CompressionAlgo::Gzip, b"program").unwrap();
    assert_eq!(
        pack(&reg, &exe_info(), &packed.image, CompressionAlgo::Gzip, false).err(),
        Some(PackError::Gate(GateError::AlreadyPacked))
    );
}

#[test]
fn file_steps_keep_original_until_rename() {
    assert_eq!(pack_steps(false, 0o755), vec![FileStep::WriteTemp, FileStep::RenameTempOverOriginal, FileStep::RestoreMode(0o755)]);
    assert_eq!(
        pack_steps(true, 0o700),
        vec![FileStep::WriteTemp, FileStep::CopyToBackup, FileStep::RenameTempOverOriginal, FileStep::RestoreMode(0o700)]
    );
    assert_eq!(unpack_steps(false, 0o755), vec![FileStep::RemoveOriginal, FileStep::WriteOriginal, FileStep::RestoreMode(0o755)]);
    assert_eq!(unpack_steps(true, 0o751), vec![FileStep::MoveOriginalAside, FileStep::WriteOriginal, FileStep::RestoreMode(0o751)]);
}

fn header_with(fields: &str, payload: &[u8], total_header: usize) -> Vec<u8> {
    let mut v = format!("#!/bin/sh\n# TEMS-EXEPACK:v1 - test\n{}", fields).into_bytes();
    assert!(v.len() <= total_header);
    v.resize(total_header, 0);
    v.extend_from_slice(payload);
    v
}

#[test]
fn unpack_rejects_unpacked_file() {
    assert_eq!(unpack_image(b"\x7fELF plain program").err(), Some(UnpackError::NotPacked));
    assert_eq!(unpack_image(b"").err(), Some(UnpackError::NotPacked));
}

#[test]
fn signature_past_header_region_is_not_seen() {
    let mut v = vec![b' '; 4096];
    v.extend_from_slice(b"TEMS-EXEPACK:v1\nDECOMP_SIZE=0\nDATA_START=1\n");
    assert_eq!(locate_payload(&v), Err(UnpackError::NotPacked));
}

#[test]
fn unpack_rejects_short_file() {
    let v = header_with("SCRIPT_START=128\nDECOMP_SIZE=0\nDATA_START=5000\n", &[0x1f, 0x8b], 128);
    assert_eq!(unpack_image(&v).err(), Some(UnpackError::Truncated));
    let packed = pack_image(&CodecRegistry::new(None), CompressionAlgo::Xz, b"some program").unwrap();
    let cut = &packed.image[..4000];
    assert_eq!(unpack_image(cut).err(), Some(UnpackError::Truncated));
}

#[test]
fn unpack_rejects_corrupt_fields() {
    let bad_number = header_with("SCRIPT_START=128\nDECOMP_SIZE=abc\nDATA_START=128\n", &[0x1f, 0x8b], 128);
    assert_eq!(unpack_image(&bad_number).err(), Some(UnpackError::CorruptHeader));
    let zero_offset = header_with("SCRIPT_START=128\nDECOMP_SIZE=0\nDATA_START=0\n", &[0x1f, 0x8b], 128);
    assert_eq!(unpack_image(&zero_offset).err(), Some(UnpackError::CorruptHeader));
    let missing = header_with("SCRIPT_START=128\nDECOMP_SIZE=0\n", &[0x1f, 0x8b], 128);
    assert_eq!(unpack_image(&missing).err(), Some(UnpackError::CorruptHeader));
    let empty_value = header_with("SCRIPT_START=128\nDECOMP_SIZE=\nDATA_START=128\n", &[0x1f, 0x8b], 128);
    assert_eq!(unpack_image(&empty_value).err(), Some(UnpackError::CorruptHeader));
    let huge = header_with("SCRIPT_START=128\nDECOMP_SIZE=0\nDATA_START=99999999999999999999999\n", &[], 128);
    assert_eq!(unpack_image(&huge).err(), Some(UnpackError::CorruptHeader));
}

#[test]
fn unpack_reads_fields_in_order() {
    let v = header_with("DATA_START=70\nDECOMP_SIZE=0\nDATA_START=128\n", &[0x1f, 0x8b, 0], 128);
    assert_eq!(parse_header(&v[..128]), Ok((0, 128)));
    let only_first = header_with("SCRIPT_START=128\nDECOMP_SIZE=3\nX\nDATA_START=128\n", &[], 128);
    assert_eq!(parse_header(&only_first), Ok((3, 128)));
}

#[test]
fn unpack_rejects_unknown_payload() {
    let v = header_with("SCRIPT_START=128\nDECOMP_SIZE=0\nDATA_START=128\n", b"PK\x03\x04zip", 128);
    assert_eq!(unpack_image(&v).err(), Some(UnpackError::UnknownFormat));
    let empty_payload = header_with("SCRIPT_START=128\nDECOMP_SIZE=0\nDATA_START=128\n", b"", 128);
    assert_eq!(unpack_image(&empty_payload).err(), Some(UnpackError::UnknownFormat));
}

#[test]
fn unpack_reports_codec_errors() {
    let v = header_with("SCRIPT_START=128\nDECOMP_SIZE=0\nDATA_START=128\n", &[0x1f, 0x8b, 9, 9, 9], 128);
    assert!(matches!(unpack_image(&v).err(), Some(UnpackError::Codec(_))));
}

#[test]
fn registry_offers_decompressor_only_for_temsxz() {
    let blob = vec![1u8, 2, 3];
    let reg = CodecRegistry::new(Some(blob.clone()));
    assert_eq!(reg.decompressor_bin(CompressionAlgo::TemsXz), Some(&blob));
    assert_eq!(reg.decompressor_bin(CompressionAlgo::Xz), None);
    assert_eq!(reg.decompressor_bin(CompressionAlgo::Gzip), None);
    assert_eq!(CodecRegistry::new(None).decompressor_bin(CompressionAlgo::TemsXz), None);
}

#[test]
fn pack_plan_with_backup() {
    let original = synthetic_executable(3_000);
    let plan = pack(&CodecRegistry::new(None), &FileInfo { kind: FileKind::RegularFile, mode: 0o750 }, &original, CompressionAlgo::Gzip, true)
        .unwrap();
    assert_eq!(
        plan.steps,
        vec![FileStep::WriteTemp, FileStep::CopyToBackup, FileStep::RenameTempOverOriginal, FileStep::RestoreMode(0o750)]
    );
    let un = unpack(&plan.packed.image, 0o750, false).unwrap();
    assert_eq!(un.steps, vec![FileStep::RemoveOriginal, FileStep::WriteOriginal, FileStep::RestoreMode(0o750)]);
    assert_eq!(un.unpacked.data, original);
}
