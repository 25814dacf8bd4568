use tems_exepack::gate::{check_file, has_setuid_or_setgid, is_compressed, FileInfo, FileKind, GateError};

fn regular(mode: u32) -> FileInfo {
    FileInfo { kind: FileKind::RegularFile, mode }
}

#[test]
fn gate_rejects_directory() {
    let info = FileInfo { kind: FileKind::Directory, mode: 0o755 };
    assert_eq!(check_file(&info, b""), Err(GateError::NotRegularFile));
    let dev = FileInfo { kind: FileKind::Other, mode: 0o755 };
    assert_eq!(check_file(&dev, b""), Err(GateError::NotRegularFile));
}

#[test]
fn gate_rejects_non_executable() {
    assert_eq!(check_file(&regular(0o644), b"\x7fELF"), Err(GateError::NotExecutable));
}

#[test]
fn gate_rejects_setuid_and_setgid() {
    assert_eq!(check_file(&regular(0o4755), b"\x7fELF"), Err(GateError::Privileged));
    assert_eq!(check_file(&regular(0o2755), b"\x7fELF"), Err(GateError::Privileged));
}

#[test]
fn gate_rejects_packed_file() {
    let contents = b"#!/bin/sh\n# TEMS-EXEPACK:v1 - compressed\n";
    assert_eq!(check_file(&regular(0o755), contents), Err(GateError::AlreadyPacked));
}

#[test]
fn gate_accepts_plain_executable() {
    assert_eq!(check_file(&regular(0o755), b"\x7fELF rest"), Ok(()));
    assert_eq!(check_file(&regular(0o100), b""), Ok(()));
    assert_eq!(check_file(&regular(0o001), b""), Ok(()));
}

#[test]
fn gate_checks_in_order() {
    let info = FileInfo { kind: FileKind::Directory, mode: 0o4644 };
    assert_eq!(check_file(&info, b"TEMS-EXEPACK:v1"), Err(GateError::NotRegularFile));
    assert_eq!(check_file(&regular(0o4644), b"TEMS-EXEPACK:v1"), Err(GateError::NotExecutable));
    assert_eq!(check_file(&regular(0o4755), b"TEMS-EXEPACK:v1"), Err(GateError::Privileged));
}

#[test]
fn mode_bits() {
    assert!(has_setuid_or_setgid(0o4000));
    assert!(has_setuid_or_setgid(0o2000));
    assert!(has_setuid_or_setgid(0o6755));
    assert!(!has_setuid_or_setgid(0o1755));
    assert!(!has_setuid_or_setgid(0o755));
}

#[test]
fn signature_search() {
    assert!(is_compressed(b"xxTEMS-EXEPACK:v1"));
    assert!(!is_compressed(b"TEMS-EXEPACK:v"));
    assert!(!is_compressed(b""));
}
