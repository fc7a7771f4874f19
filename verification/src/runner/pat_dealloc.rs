//! Clearing PAT entries with `pat-dealloc`.

use vstd::prelude::*;
use crate::runner::util::{CommandLine, CommandModel, command};

verus! {

/// The command that clears the PAT entries of the memory regions of the
/// PCI device at `pci_address`.
pub open spec fn clear_command(pci_address: Seq<char>) -> CommandModel {
    CommandModel {
        program: "pat-dealloc"@,
        args: seq!["pci"@, "--load"@, "--address"@, pci_address],
    }
}

/// The command that clears the PAT entries of the memory regions of the
/// PCI device at `pci_address`.
pub fn clear_pat(pci_address: &str) -> (cmd: CommandLine)
    ensures
        cmd@ == clear_command(pci_address@),
{
    let cmd = command("pat-dealloc", vec!["pci", "--load", "--address", pci_address]);
    assert(cmd@.args =~= seq!["pci"@, "--load"@, "--address"@, pci_address@]);
    cmd
}

} // verus!
