//! Binding and unbinding PCI devices with `virsh`.

use vstd::prelude::*;
use crate::runner::util::{CommandLine, CommandModel, command};
use crate::text::{join2, replace_chars, replaced};

verus! {

/// The name under which `virsh` knows the PCI device at `address`.
pub open spec fn spec_convert_pci_address(address: Seq<char>) -> Seq<char> {
    "pci_"@ + replaced(address, '.', ':', "_"@)
}

/// The command that applies `verb` to the PCI device at `address`.
pub open spec fn virsh_command(verb: Seq<char>, address: Seq<char>) -> CommandModel {
    CommandModel { program: "virsh"@, args: seq![verb, spec_convert_pci_address(address)] }
}

/// The command that unbinds the PCI device at `address` from the host.
pub fn unbind_pci(address: &str) -> (cmd: CommandLine)
    ensures
        cmd@ == virsh_command("nodedev-detach"@, address@),
{
    run_cmd("nodedev-detach", address)
}

/// The command that binds the PCI device at `address` to the host again.
pub fn rebind_pci(address: &str) -> (cmd: CommandLine)
    ensures
        cmd@ == virsh_command("nodedev-reattach"@, address@),
{
    run_cmd("nodedev-reattach", address)
}

/// The `virsh` command that applies `verb` to the PCI device at
/// `pci_address`.
pub fn run_cmd(verb: &str, pci_address: &str) -> (cmd: CommandLine)
    ensures
        cmd@ == virsh_command(verb@, pci_address@),
{
    let pci_address = convert_pci_address(pci_address);
    let cmd = command("virsh", vec![verb, pci_address.as_str()]);
    assert(cmd@.args =~= seq![verb@, pci_address@]);
    cmd
}

/// The name under which `virsh` knows the PCI device at `address`: the
/// address behind `pci_`, with an underscore for every dot and colon.
pub fn convert_pci_address(address: &str) -> (name: String)
    ensures
        name@ == spec_convert_pci_address(address@),
{
    let replaced = replace_chars(address, '.', ':', "_");
    join2("pci_", replaced.as_str())
}

} // verus!
