//! Setting the CPU frequency governor with `cpupower`.

use vstd::prelude::*;
use crate::runner::util::{CommandLine, CommandModel, command};

verus! {

/// The command that sets the CPU frequency governor.
pub open spec fn governor_command(governor: Seq<char>) -> CommandModel {
    CommandModel { program: "cpupower"@, args: seq!["frequency-set"@, "-g"@, governor] }
}

/// The command that sets the CPU frequency governor.
pub fn set_governor(governor: &str) -> (cmd: CommandLine)
    ensures
        cmd@ == governor_command(governor@),
{
    let cmd = command("cpupower", vec!["frequency-set", "-g", governor]);
    assert(cmd@.args =~= seq!["frequency-set"@, "-g"@, governor@]);
    cmd
}

} // verus!
