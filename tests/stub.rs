use tems_exepack::algo::CompressionAlgo;
use tems_exepack::stub::{generate_awk_decompression_script, generate_dd_decompression_script, SIGNATURE};

#[test]
fn dd_stub_states_its_offsets() {
    let s = generate_dd_decompression_script(4096, 500, 4596, CompressionAlgo::TemsXz);
    assert!(s.starts_with("#!/bin/sh\n# TEMS-EXEPACK:v1"));
    assert!(s.contains("\nSCRIPT_START=4096\nDECOMP_SIZE=500\nDATA_START=4596\n"));
    assert!(s.contains("DECOMP_CMD=\"$TMPDIR/decompress\"\nfi"));
    assert!(s.contains(SIGNATURE));
    assert!(s.ends_with("exec \"$TMPDIR/out\" \"$@\"\n"));
    assert!(s.is_ascii());
    assert!(s.len() < 4096);
}

#[test]
fn dd_stub_uses_system_decompressor() {
    let g = generate_dd_decompression_script(4096, 0, 4096, CompressionAlgo::Gzip);
    assert!(g.contains("\nDECOMP_SIZE=0\nDATA_START=4096\n"));
    assert!(g.contains("DECOMP_CMD=\"gzip\"\nfi"));
    let b = generate_dd_decompression_script(4096, 0, 4096, CompressionAlgo::Bzip2);
    assert!(b.contains("DECOMP_CMD=\"bzip2\"\nfi"));
    let x = generate_dd_decompression_script(4096, 0, 4096, CompressionAlgo::Xz);
    assert!(x.contains("DECOMP_CMD=\"xz\"\nfi"));
    assert!(x.contains("trap 'rm -rf \"$TMPDIR\"' EXIT INT TERM HUP"));
}

#[test]
fn awk_stub_per_algorithm() {
    let g = generate_awk_decompression_script(CompressionAlgo::Gzip);
    assert!(g.starts_with("#!/bin/sh\n# compressed by tems-exepack\n"));
    assert!(g.contains("gzip -d -c < \"$TMPDIR/compressed\""));
    assert!(g.ends_with("__DECOMPRESSOR__\n"));
    let b = generate_awk_decompression_script(CompressionAlgo::Bzip2);
    assert!(b.contains("bzip2 -d -c"));
    let x = generate_awk_decompression_script(CompressionAlgo::Xz);
    assert!(x.contains("xz -d -c"));
    let t = generate_awk_decompression_script(CompressionAlgo::TemsXz);
    assert!(t.contains("cat \"$TMPDIR/compressed\" | \"$TMPDIR/decompress\""));
    assert!(!t.contains("xz -d -c"));
}
