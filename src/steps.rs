//! The file-system steps that put a packed or unpacked file in place, in order.
use vstd::prelude::*;

verus! {

/// One file-system step on the path being processed, or on a sibling of it.
#[derive(Clone, Copy, Debug, PartialEq, Eq, Structural)]
pub enum FileStep {
    /// Write the new contents to a temporary sibling and sync it.
    WriteTemp,
    /// Copy the original to its `.orig` sibling.
    CopyToBackup,
    /// Rename the temporary sibling over the original path.
    RenameTempOverOriginal,
    /// Rename the file at the path to its `.compressed` sibling.
    MoveOriginalAside,
    /// Delete the file at the path.
    RemoveOriginal,
    /// Write the new contents at the path.
    WriteOriginal,
    /// Set the mode bits of the file at the path.
    RestoreMode(u32),
}

/// Whether the step changes what the original path holds.
pub open spec fn alters_original(s: FileStep) -> bool {
    match s {
        FileStep::WriteTemp | FileStep::CopyToBackup => false,
        _ => true,
    }
}

/// The steps of packing: the new file is written aside, the backup taken if
/// asked, and only then is the original replaced, by one rename, and given
/// back its mode.
pub open spec fn pack_step_list(keep_backup: bool, mode: u32) -> Seq<FileStep> {
    if keep_backup {
        seq![
            FileStep::WriteTemp,
            FileStep::CopyToBackup,
            FileStep::RenameTempOverOriginal,
            FileStep::RestoreMode(mode),
        ]
    } else {
        seq![FileStep::WriteTemp, FileStep::RenameTempOverOriginal, FileStep::RestoreMode(mode)]
    }
}

/// The steps of unpacking: the packed file is moved aside (or deleted), the
/// restored bytes written at the path, and the mode set back.
pub open spec fn unpack_step_list(keep_backup: bool, mode: u32) -> Seq<FileStep> {
    if keep_backup {
        seq![FileStep::MoveOriginalAside, FileStep::WriteOriginal, FileStep::RestoreMode(mode)]
    } else {
        seq![FileStep::RemoveOriginal, FileStep::WriteOriginal, FileStep::RestoreMode(mode)]
    }
}

/// The steps of packing a file whose mode is `mode`. No step before the
/// rename changes the original path, and the rename is followed only by
/// restoring the mode.
pub fn pack_steps(keep_backup: bool, mode: u32) -> (r: Vec<FileStep>)
    ensures
        r@ == pack_step_list(keep_backup, mode),
        r@.len() >= 2,
        r@[r@.len() - 2] == FileStep::RenameTempOverOriginal,
        r@[r@.len() - 1] == FileStep::RestoreMode(mode),
        forall|i: int| 0 <= i < r@.len() - 2 ==> !alters_original(#[trigger] r@[i]),
{
    let mut r: Vec<FileStep> = Vec::new();
    r.push(FileStep::WriteTemp);
    if keep_backup {
        r.push(FileStep::CopyToBackup);
    }
    r.push(FileStep::RenameTempOverOriginal);
    r.push(FileStep::RestoreMode(mode));
    assert(r@ =~= pack_step_list(keep_backup, mode));
    r
}

/// The steps of unpacking a file whose mode is `mode`; the last one gives
/// the restored file that mode.
pub fn unpack_steps(keep_backup: bool, mode: u32) -> (r: Vec<FileStep>)
    ensures
        r@ == unpack_step_list(keep_backup, mode),
        r@.last() == FileStep::RestoreMode(mode),
{
    let mut r: Vec<FileStep> = Vec::new();
    if keep_backup {
        r.push(FileStep::MoveOriginalAside);
    } else {
        r.push(FileStep::RemoveOriginal);
    }
    r.push(FileStep::WriteOriginal);
    r.push(FileStep::RestoreMode(mode));
    assert(r@ =~= unpack_step_list(keep_backup, mode));
    r
}

} // verus!
