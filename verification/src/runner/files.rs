//! Making the files of a launch plan.

use vstd::prelude::*;
use crate::context::TmpFile;

verus! {

/// One step of making a file.
#[derive(Clone, Copy, Debug, PartialEq, Eq, Structural)]
pub enum FileStep {
    /// Remove what is at the path. That nothing is there is no failure.
    Remove,
    /// Create the file, empty.
    Create,
    /// Give the file to the user and the group.
    Chown { uid: u32, gid: u32 },
    /// Set the permission bits of the file.
    Chmod { mode: u32 },
}

/// The steps that make a file anew: whatever is at its path goes first,
/// then the file is created, then it gets its owner and its permission
/// bits.
pub open spec fn spec_file_steps(file: TmpFile) -> Seq<FileStep> {
    seq![
        FileStep::Remove,
        FileStep::Create,
        FileStep::Chown { uid: file.uid, gid: file.gid },
        FileStep::Chmod { mode: file.mode },
    ]
}

/// The steps that make a file anew, in the order in which they are to be
/// performed.
pub fn file_steps(file: &TmpFile) -> (steps: Vec<FileStep>)
    ensures
        steps@ == spec_file_steps(*file),
{
    let mut steps: Vec<FileStep> = Vec::new();
    steps.push(FileStep::Remove);
    steps.push(FileStep::Create);
    steps.push(FileStep::Chown { uid: file.uid, gid: file.gid });
    steps.push(FileStep::Chmod { mode: file.mode });
    assert(steps@ =~= spec_file_steps(*file));
    steps
}

/// Whether making the file has failed when the step fails. Only removing
/// may fail: every other step is needed.
pub fn is_fatal(step: FileStep) -> (fatal: bool)
    ensures
        fatal == !(step is Remove),
{
    match step {
        FileStep::Remove => false,
        _ => true,
    }
}

} // verus!
