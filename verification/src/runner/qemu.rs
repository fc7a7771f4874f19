//! The command line of the hypervisor.

use vstd::prelude::*;
use crate::context::{Context, opt_view};
use crate::runner::util::{CommandLine, CommandModel, append_all, command};
use crate::text::views;

verus! {

/// The command that starts the hypervisor with the arguments `args`:
/// directly, or through `taskset` where the hypervisor is pinned to CPUs.
pub open spec fn qemu_command(affinity: Option<Seq<char>>, args: Seq<Seq<char>>) -> CommandModel {
    match affinity {
        None => CommandModel { program: "qemu-system-x86_64"@, args },
        Some(list) => CommandModel {
            program: "taskset"@,
            args: seq!["--cpu-list"@, list, "qemu-system-x86_64"@] + args,
        },
    }
}

/// The command that starts the hypervisor of the plan. Its environment is
/// that of the plan.
pub fn get_command(context: &Context) -> (cmd: CommandLine)
    ensures
        cmd@ == qemu_command(opt_view(context.cpu_affinity), views(context.args@)),
{
    let mut cmd = match &context.cpu_affinity {
        None => command("qemu-system-x86_64", Vec::new()),
        Some(affinity) => command(
            "taskset",
            vec!["--cpu-list", affinity.as_str(), "qemu-system-x86_64"],
        ),
    };
    let ghost head = cmd@.args;
    assert(head =~= match opt_view(context.cpu_affinity) {
        None => Seq::<Seq<char>>::empty(),
        Some(list) => seq!["--cpu-list"@, list, "qemu-system-x86_64"@],
    });
    append_all(&mut cmd.args, context.args.as_slice());
    assert(cmd@.args =~= qemu_command(opt_view(context.cpu_affinity), views(context.args@)).args);
    cmd
}

} // verus!
