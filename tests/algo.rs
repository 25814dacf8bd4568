use tems_exepack::algo::CompressionAlgo;

#[test]
fn detect_gzip_signature() {
    assert_eq!(CompressionAlgo::from_magic(&[0x1f, 0x8b, 0x08, 0x00]), Some(CompressionAlgo::Gzip));
    assert_eq!(CompressionAlgo::from_magic(&[0x1f, 0x8b]), Some(CompressionAlgo::Gzip));
}

#[test]
fn detect_bzip2_signature() {
    assert_eq!(CompressionAlgo::from_magic(b"BZh91AY&SY"), Some(CompressionAlgo::Bzip2));
}

#[test]
fn detect_xz_signature() {
    assert_eq!(
        CompressionAlgo::from_magic(&[0xfd, 0x37, 0x7a, 0x58, 0x5a, 0x00, 0x00, 0x04]),
        Some(CompressionAlgo::Xz)
    );
}

#[test]
fn detect_nothing_in_empty_input() {
    assert_eq!(CompressionAlgo::from_magic(&[]), None);
}

#[test]
fn detect_nothing_in_unrelated_bytes() {
    assert_eq!(CompressionAlgo::from_magic(b"#!/bin/sh\n"), None);
    assert_eq!(CompressionAlgo::from_magic(&[0x7f, b'E', b'L', b'F']), None);
    assert_eq!(CompressionAlgo::from_magic(&[0x1f]), None);
    assert_eq!(CompressionAlgo::from_magic(b"BZ"), None);
    assert_eq!(CompressionAlgo::from_magic(&[0xfd, 0x37, 0x7a, 0x58, 0x5a]), None);
    assert_eq!(CompressionAlgo::from_magic(&[0xfd, 0x37, 0x7a, 0x58, 0x5a, 0x01]), None);
}

#[test]
fn flags_select_algorithms() {
    assert_eq!(CompressionAlgo::from_str("-gz"), Some(CompressionAlgo::Gzip));
    assert_eq!(CompressionAlgo::from_str("-bz2"), Some(CompressionAlgo::Bzip2));
    assert_eq!(CompressionAlgo::from_str("-xz"), Some(CompressionAlgo::Xz));
    assert_eq!(CompressionAlgo::from_str("-temsxz"), Some(CompressionAlgo::TemsXz));
    assert_eq!(CompressionAlgo::from_str("-zstd"), None);
    assert_eq!(CompressionAlgo::from_str("gz"), None);
    assert_eq!(CompressionAlgo::from_str(""), None);
}

#[test]
fn names_shown_to_users() {
    assert_eq!(CompressionAlgo::Gzip.to_str(), "gzip");
    assert_eq!(CompressionAlgo::Bzip2.to_str(), "bzip2");
    assert_eq!(CompressionAlgo::Xz.to_str(), "xz");
    assert_eq!(CompressionAlgo::TemsXz.to_str(), "temsxz (embedded)");
}

#[test]
fn only_temsxz_embeds_a_decompressor() {
    assert!(!CompressionAlgo::Gzip.needs_embedded_decompressor());
    assert!(!CompressionAlgo::Bzip2.needs_embedded_decompressor());
    assert!(!CompressionAlgo::Xz.needs_embedded_decompressor());
    assert!(CompressionAlgo::TemsXz.needs_embedded_decompressor());
}

fn sample() -> Vec<u8> {
    let mut v = Vec::new();
    for i in 0..3000u32 {
        v.extend_from_slice(format!("line {} of the sample\n", i % 97).as_bytes());
    }
    v
}

#[test]
fn compressed_output_opens_with_its_magic() {
    let data = sample();
    for algo in [CompressionAlgo::Gzip, CompressionAlgo::Bzip2, CompressionAlgo::Xz, CompressionAlgo::TemsXz] {
        let c = algo.compress(&data).unwrap();
        assert_ne!(c, data);
        assert!(c.len() < data.len());
        let expected = if algo == CompressionAlgo::TemsXz { CompressionAlgo::Xz } else { algo };
        assert_eq!(CompressionAlgo::from_magic(&c), Some(expected));
    }
}

#[test]
fn compress_of_empty_input_still_has_magic() {
    for algo in [CompressionAlgo::Gzip, CompressionAlgo::Bzip2, CompressionAlgo::Xz] {
        let c = algo.compress(&[]).unwrap();
        assert_eq!(CompressionAlgo::from_magic(&c), Some(algo));
        assert_eq!(algo.decompress(&c).unwrap(), Vec::<u8>::new());
    }
}

#[test]
fn decompress_reverses_compress() {
    let data = sample();
    for algo in [CompressionAlgo::Gzip, CompressionAlgo::Bzip2, CompressionAlgo::Xz, CompressionAlgo::TemsXz] {
        let c = algo.compress(&data).unwrap();
        assert_eq!(algo.decompress(&c).unwrap(), data);
    }
}

#[test]
fn decompress_rejects_garbage() {
    let junk = [0x1f, 0x8b, 1, 2, 3, 4, 5];
    assert!(CompressionAlgo::Gzip.decompress(&junk).is_err());
    assert!(CompressionAlgo::Bzip2.decompress(b"BZh9garbage").is_err());
    assert!(CompressionAlgo::Xz.decompress(&[0xfd, 0x37, 0x7a, 0x58, 0x5a, 0x00, 9, 9]).is_err());
}
