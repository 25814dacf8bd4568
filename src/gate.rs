//! The checks a file must pass before it is packed.
use vstd::prelude::*;
use vstd::utf8::encode_utf8;
use crate::bytes::{contains, contains_bytes};
use crate::stub::SIGNATURE;

verus! {

/// What the file system says a path is.
#[derive(Clone, Copy, Debug, PartialEq, Eq, Structural)]
pub enum FileKind {
    RegularFile,
    Directory,
    Other,
}

/// The metadata the checks before packing read: the kind of file and its Unix mode bits.
#[derive(Clone, Copy, Debug, PartialEq, Eq, Structural)]
pub struct FileInfo {
    pub kind: FileKind,
    pub mode: u32,
}

/// Why a file may not be packed.
#[derive(Clone, Copy, Debug, PartialEq, Eq, Structural)]
pub enum GateError {
    NotRegularFile,
    NotExecutable,
    /// The setuid or setgid bit is set.
    Privileged,
    /// The file already holds the packed-format signature.
    AlreadyPacked,
}

/// The bytes of the packed-format signature.
pub open spec fn signature_bytes() -> Seq<u8> {
    encode_utf8(SIGNATURE@)
}

pub open spec fn is_executable_mode(mode: u32) -> bool {
    mode & 0o111u32 != 0
}

pub open spec fn is_privileged_mode(mode: u32) -> bool {
    mode & 0o4000u32 != 0 || mode & 0o2000u32 != 0
}

/// The outcome of the checks before packing, taken in order, the first failure kept.
pub open spec fn gate_verdict(info: FileInfo, contents: Seq<u8>) -> Result<(), GateError> {
    if info.kind != FileKind::RegularFile {
        Err(GateError::NotRegularFile)
    } else if !is_executable_mode(info.mode) {
        Err(GateError::NotExecutable)
    } else if is_privileged_mode(info.mode) {
        Err(GateError::Privileged)
    } else if contains(contents, signature_bytes()) {
        Err(GateError::AlreadyPacked)
    } else {
        Ok(())
    }
}

/// Whether `contents` holds the packed-format signature anywhere.
pub fn is_compressed(contents: &[u8]) -> (r: bool)
    ensures
        r == contains(contents@, signature_bytes()),
{
    contains_bytes(contents, SIGNATURE.as_bytes())
}

/// Whether the mode has the setuid or the setgid bit.
pub fn has_setuid_or_setgid(mode: u32) -> (r: bool)
    ensures
        r == is_privileged_mode(mode),
{
    (mode & 0o4000) != 0 || (mode & 0o2000) != 0
}

/// Checks, in order, that the file is a regular file, is executable by
/// someone, has neither setuid nor setgid, and is not packed already.
pub fn check_file(info: &FileInfo, contents: &[u8]) -> (r: Result<(), GateError>)
    ensures
        r == gate_verdict(*info, contents@),
{
    if info.kind != FileKind::RegularFile {
        return Err(GateError::NotRegularFile);
    }
    if info.mode & 0o111 == 0 {
        return Err(GateError::NotExecutable);
    }
    if has_setuid_or_setgid(info.mode) {
        return Err(GateError::Privileged);
    }
    if is_compressed(contents) {
        return Err(GateError::AlreadyPacked);
    }
    Ok(())
}

} // verus!
