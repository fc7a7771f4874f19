//! Loading and unloading drivers with `modprobe`.

use vstd::prelude::*;
use vstd::string::*;
use crate::runner::util::{CommandLine, CommandModel, append_all};
use crate::text::{lemma_views_empty, lemma_views_push, views};

verus! {

/// The command that loads the drivers as one batch.
pub open spec fn load_command(drivers: Seq<Seq<char>>) -> CommandModel {
    CommandModel { program: "modprobe"@, args: drivers }
}

/// The command that unloads the drivers as one batch.
pub open spec fn unload_command(drivers: Seq<Seq<char>>) -> CommandModel {
    CommandModel { program: "modprobe"@, args: seq!["-r"@] + drivers }
}

/// The command that loads the drivers as one batch.
pub fn load(drivers: &[String]) -> (cmd: CommandLine)
    ensures
        cmd@ == load_command(views(drivers@)),
{
    let cmd = run_cmd(None, drivers);
    assert(cmd@.args =~= views(drivers@));
    cmd
}

/// The command that unloads the drivers as one batch.
pub fn unload(drivers: &[String]) -> (cmd: CommandLine)
    ensures
        cmd@ == unload_command(views(drivers@)),
{
    run_cmd(Some("-r"), drivers)
}

/// The `modprobe` command for the drivers, with `arg` before them where
/// one is given.
pub fn run_cmd(arg: Option<&str>, drivers: &[String]) -> (cmd: CommandLine)
    ensures
        cmd@.program == "modprobe"@,
        cmd@.args == (match arg {
            Some(a) => seq![a@],
            None => Seq::empty(),
        }) + views(drivers@),
{
    let mut args: Vec<String> = Vec::new();
    proof {
        lemma_views_empty();
    }
    if let Some(arg) = arg {
        let s = String::from_str(arg);
        proof {
            lemma_views_push(args@, s);
        }
        args.push(s);
    }
    let ghost head = views(args@);
    assert(head =~= match arg {
        Some(a) => seq![a@],
        None => Seq::empty(),
    });
    append_all(&mut args, drivers);
    CommandLine { program: String::from_str("modprobe"), args }
}

} // verus!
