//! The device lifecycle: which tool has to run next in order to hand the
//! devices of a launch plan to the guest and to take them back.
//!
//! A [`Run`] makes no call itself. Its caller asks for the next
//! [`Action`], performs it, and reports whether it succeeded; the run then
//! names the action after that, or none when it is over. What the run has
//! asked for so far is its [`Run::trace`].

use vstd::prelude::*;
use crate::context::{Context, opt_view};
use crate::runner::stages::{
    Stage, action_valid, attached, enter_attach_pat, enter_detach, enter_detach_pat, enter_files,
    enter_rebind, enter_undo, enter_unbind, lemma_pending, lemma_step, next_stage, pending,
    stage_wf, then_action, trace_of,
};
use crate::runner::util::{CommandLine, CommandModel};
use crate::text::views;

pub mod cpupower;
pub mod files;
pub mod laws;
pub mod modprobe;
pub mod pat_dealloc;
pub mod qemu;
pub mod stages;
pub mod util;
pub mod virsh;

verus! {

/// One request to the caller of a run. A number is a position in the list
/// of the launch plan that the action is about.
#[derive(Clone, Copy, Debug, PartialEq, Eq, Structural)]
pub enum Action {
    /// Set the CPU frequency governor.
    SetGovernor,
    /// Remove the file if it is there, create it, and set its owner and
    /// its permission bits.
    CreateTmpFile(usize),
    /// Keep the interrupt signal from ending this process; the hypervisor
    /// still receives it.
    IgnoreSigint,
    /// Unload the declared drivers as one batch.
    UnloadDrivers,
    /// Load the declared drivers as one batch.
    LoadDrivers,
    /// Unbind the PCI device from the host.
    UnbindPci(usize),
    /// Bind the PCI device to the host again.
    RebindPci(usize),
    /// Clear the PAT entries of the PCI device.
    ClearPat(usize),
    /// Start the hypervisor and wait until it exits.
    RunQemu,
}

/// What a run is for.
#[derive(Clone, Copy, Debug, PartialEq, Eq, Structural)]
pub enum Mode {
    /// Release the devices, run the guest, and take the devices back
    /// unless that is skipped.
    Full { skip_attach: bool },
    /// Release the devices only.
    DetachOnly,
    /// Take the devices back only.
    AttachOnly,
}

/// How the devices came back.
#[derive(Clone, Copy, Debug, PartialEq, Eq, Structural)]
pub enum Reattach {
    /// They were left with the guest on request.
    Skipped,
    /// Every device was bound and the drivers were loaded.
    Clean,
    /// At least one device or the drivers could not be restored.
    HadError,
}

/// How a run ended.
#[derive(Clone, Copy, Debug, PartialEq, Eq, Structural)]
pub enum Outcome {
    /// The governor could not be set; nothing else was touched.
    GovernorFailed,
    /// The file at this position could not be made; no device was touched.
    TmpFileFailed(usize),
    /// The drivers could not be unloaded; loading them was tried again.
    UnloadFailed,
    /// The device at this position could not be unbound; those before it
    /// were bound again and the drivers loaded.
    UnbindFailed(usize),
    /// The devices are released.
    Detached,
    /// The guest has run. Whether it ran well and how the devices came
    /// back are two separate answers.
    Finished { guest_ok: bool, reattach: Reattach },
    /// The devices were taken back; `clean` unless something failed.
    Reattached { clean: bool },
}

impl Outcome {
    /// Whether the run as a whole counts as a success. A guest that
    /// failed does not make the run fail.
    pub open spec fn spec_success(self) -> bool {
        match self {
            Outcome::Detached => true,
            Outcome::Finished { guest_ok, reattach } => reattach != Reattach::HadError,
            Outcome::Reattached { clean } => clean,
            _ => false,
        }
    }

    /// Whether the run as a whole counts as a success. A guest that
    /// failed does not make the run fail.
    pub fn success(&self) -> (ok: bool)
        ensures
            ok == self.spec_success(),
    {
        match self {
            Outcome::Detached => true,
            Outcome::Finished { guest_ok, reattach } => match reattach {
                Reattach::HadError => false,
                _ => true,
            },
            Outcome::Reattached { clean } => *clean,
            _ => false,
        }
    }
}

/// The sizes of a launch plan, which are all that the order of the
/// actions depends on.
#[derive(Clone, Copy, Debug, PartialEq, Eq, Structural)]
pub struct Shape {
    /// Whether a governor is to be set.
    pub governor: bool,
    /// The number of files to create.
    pub files: usize,
    /// Whether any driver is declared.
    pub drivers: bool,
    /// The number of PCI devices.
    pub pci: usize,
    /// The number of PAT addresses.
    pub pat: usize,
}

/// The sizes of a launch plan.
pub open spec fn spec_shape_of(ctx: Context) -> Shape {
    Shape {
        governor: ctx.cpu_governor is Some,
        files: ctx.tmp_files@.len() as usize,
        drivers: ctx.unload_drivers is Some && ctx.unload_drivers->Some_0@.len() > 0,
        pci: ctx.pci@.len() as usize,
        pat: ctx.pat_dealloc@.len() as usize,
    }
}

/// The sizes of a launch plan.
pub fn shape_of(ctx: &Context) -> (shape: Shape)
    ensures
        shape == spec_shape_of(*ctx),
{
    let drivers = match &ctx.unload_drivers {
        Some(drivers) => drivers.len() > 0,
        None => false,
    };
    Shape {
        governor: ctx.cpu_governor.is_some(),
        files: ctx.tmp_files.len(),
        drivers,
        pci: ctx.pci.len(),
        pat: ctx.pat_dealloc.len(),
    }
}

/// One run over a launch plan of the given sizes.
pub struct Run {
    pub shape: Shape,
    pub mode: Mode,
    pub stage: Stage,
}

impl Run {
    /// The run can be in the stage it is in.
    pub open spec fn wf(&self) -> bool {
        stage_wf(self.shape, self.mode, self.stage)
    }

    /// The actions that the run has asked for so far, in order.
    pub open spec fn trace(&self) -> Seq<Action> {
        trace_of(self.shape, self.mode, self.stage)
    }

    /// A run that has not asked for anything yet.
    pub fn new(shape: Shape, mode: Mode) -> (run: Run)
        ensures
            run.wf(),
            run.shape == shape,
            run.mode == mode,
            run.stage == Stage::Idle,
            run.trace() == Seq::<Action>::empty(),
    {
        Run { shape, mode, stage: Stage::Idle }
    }

    /// The outcome of the run, once it is over.
    pub fn outcome(&self) -> (outcome: Option<Outcome>)
        ensures
            outcome == (match self.stage {
                Stage::Done(o) => Some(o),
                _ => None,
            }),
    {
        match self.stage {
            Stage::Done(o) => Some(o),
            _ => None,
        }
    }

    fn files_from(&self, i: usize) -> (stage: Stage)
        requires
            i <= self.shape.files,
        ensures
            stage == enter_files(self.shape, i as int),
    {
        if i < self.shape.files {
            Stage::TmpFile(i)
        } else {
            Stage::Signal
        }
    }

    fn detach_pat_from(&self, i: usize) -> (stage: Stage)
        ensures
            stage == enter_detach_pat(self.shape, self.mode, i as int),
    {
        if i < self.shape.pat {
            Stage::DetachPat(i)
        } else {
            match self.mode {
                Mode::Full { skip_attach } => Stage::Running,
                _ => Stage::Done(Outcome::Detached),
            }
        }
    }

    fn unbind_from(&self, i: usize) -> (stage: Stage)
        ensures
            stage == enter_unbind(self.shape, self.mode, i as int),
    {
        if i < self.shape.pci {
            Stage::Unbind(i)
        } else {
            self.detach_pat_from(0)
        }
    }

    fn detach(&self) -> (stage: Stage)
        ensures
            stage == enter_detach(self.shape, self.mode),
    {
        if self.shape.drivers {
            Stage::Unload
        } else {
            self.unbind_from(0)
        }
    }

    fn undo_from(&self, failed: usize, next: usize) -> (stage: Stage)
        ensures
            stage == enter_undo(self.shape, failed, next as int),
    {
        if next < failed {
            Stage::UndoUnbind { failed, next }
        } else if self.shape.drivers {
            Stage::UndoReload { failed }
        } else {
            Stage::Done(Outcome::UnbindFailed(failed))
        }
    }

    fn attached(&self, had_error: bool, guest_ok: bool) -> (outcome: Outcome)
        ensures
            outcome == attached(self.mode, had_error, guest_ok),
    {
        match self.mode {
            Mode::Full { skip_attach } => Outcome::Finished {
                guest_ok,
                reattach: if had_error {
                    Reattach::HadError
                } else {
                    Reattach::Clean
                },
            },
            _ => Outcome::Reattached { clean: !had_error },
        }
    }

    fn rebind_from(&self, i: usize, had_error: bool, guest_ok: bool) -> (stage: Stage)
        ensures
            stage == enter_rebind(self.shape, self.mode, i as int, had_error, guest_ok),
    {
        if i < self.shape.pci {
            Stage::Rebind { next: i, had_error, guest_ok }
        } else if self.shape.drivers {
            Stage::Reload { had_error, guest_ok }
        } else {
            Stage::Done(self.attached(had_error, guest_ok))
        }
    }

    fn attach_pat_from(&self, i: usize, guest_ok: bool) -> (stage: Stage)
        ensures
            stage == enter_attach_pat(self.shape, self.mode, i as int, guest_ok),
    {
        if i < self.shape.pat {
            Stage::AttachPat { next: i, guest_ok }
        } else {
            self.rebind_from(0, false, guest_ok)
        }
    }

    fn next(&self, ok: bool) -> (stage: Stage)
        requires
            self.wf(),
        ensures
            stage == next_stage(self.shape, self.mode, self.stage, ok),
    {
        match self.stage {
            Stage::Idle => match self.mode {
                Mode::Full { skip_attach } => if self.shape.governor {
                    Stage::Governor
                } else {
                    self.files_from(0)
                },
                Mode::DetachOnly => self.detach(),
                Mode::AttachOnly => self.attach_pat_from(0, true),
            },
            Stage::Governor => if ok {
                self.files_from(0)
            } else {
                Stage::Done(Outcome::GovernorFailed)
            },
            Stage::TmpFile(i) => if ok {
                self.files_from(i + 1)
            } else {
                Stage::Done(Outcome::TmpFileFailed(i))
            },
            Stage::Signal => self.detach(),
            Stage::Unload => if ok {
                self.unbind_from(0)
            } else {
                Stage::UndoUnload
            },
            Stage::UndoUnload => Stage::Done(Outcome::UnloadFailed),
            Stage::Unbind(i) => if ok {
                self.unbind_from(i + 1)
            } else {
                self.undo_from(i, 0)
            },
            Stage::UndoUnbind { failed, next } => self.undo_from(failed, next + 1),
            Stage::UndoReload { failed } => Stage::Done(Outcome::UnbindFailed(failed)),
            Stage::DetachPat(i) => self.detach_pat_from(i + 1),
            Stage::Running => match self.mode {
                Mode::Full { skip_attach } => if skip_attach {
                    Stage::Done(Outcome::Finished { guest_ok: ok, reattach: Reattach::Skipped })
                } else {
                    self.attach_pat_from(0, ok)
                },
                _ => Stage::Done(Outcome::Detached),
            },
            Stage::AttachPat { next, guest_ok } => self.attach_pat_from(next + 1, guest_ok),
            Stage::Rebind { next, had_error, guest_ok } => self.rebind_from(
                next + 1,
                had_error || !ok,
                guest_ok,
            ),
            Stage::Reload { had_error, guest_ok } => Stage::Done(
                self.attached(had_error || !ok, guest_ok),
            ),
            Stage::Done(outcome) => Stage::Done(outcome),
        }
    }

    /// The action that the run waits on; none before the first step and
    /// when the run is over.
    pub fn waits_on(&self) -> (action: Option<Action>)
        ensures
            action == pending(self.stage),
    {
        match self.stage {
            Stage::Idle => None,
            Stage::Governor => Some(Action::SetGovernor),
            Stage::TmpFile(i) => Some(Action::CreateTmpFile(i)),
            Stage::Signal => Some(Action::IgnoreSigint),
            Stage::Unload => Some(Action::UnloadDrivers),
            Stage::UndoUnload => Some(Action::LoadDrivers),
            Stage::Unbind(i) => Some(Action::UnbindPci(i)),
            Stage::UndoUnbind { failed, next } => Some(Action::RebindPci(next)),
            Stage::UndoReload { failed } => Some(Action::LoadDrivers),
            Stage::DetachPat(i) => Some(Action::ClearPat(i)),
            Stage::Running => Some(Action::RunQemu),
            Stage::AttachPat { next, guest_ok } => Some(Action::ClearPat(next)),
            Stage::Rebind { next, had_error, guest_ok } => Some(Action::RebindPci(next)),
            Stage::Reload { had_error, guest_ok } => Some(Action::LoadDrivers),
            Stage::Done(_) => None,
        }
    }

    /// Takes the result of the action that the run waits on (`ok` means
    /// nothing on the first call) and names the action to perform next,
    /// or none when the run is over.
    pub fn advance(&mut self, ok: bool) -> (action: Option<Action>)
        requires
            old(self).wf(),
        ensures
            final(self).wf(),
            final(self).shape == old(self).shape,
            final(self).mode == old(self).mode,
            final(self).stage == next_stage(old(self).shape, old(self).mode, old(self).stage, ok),
            action == pending(final(self).stage),
            action is None <==> final(self).stage is Done,
            action is Some ==> action_valid(old(self).shape, action->Some_0),
            final(self).trace() == then_action(old(self).trace(), action),
    {
        let next = self.next(ok);
        proof {
            lemma_step(self.shape, self.mode, self.stage, ok);
            lemma_pending(self.shape, self.mode, self.stage, ok);
        }
        self.stage = next;
        self.waits_on()
    }
}

impl Shape {
    /// Whether a plan of these sizes has what the action is about.
    pub fn admits(&self, action: Action) -> (ok: bool)
        ensures
            ok == action_valid(*self, action),
    {
        match action {
            Action::SetGovernor => self.governor,
            Action::CreateTmpFile(i) => i < self.files,
            Action::IgnoreSigint => true,
            Action::UnloadDrivers => self.drivers,
            Action::LoadDrivers => self.drivers,
            Action::UnbindPci(i) => i < self.pci,
            Action::RebindPci(i) => i < self.pci,
            Action::ClearPat(i) => i < self.pat,
            Action::RunQemu => true,
        }
    }
}

/// The command that performs the action on the plan; none for the two
/// actions that are no call of a tool.
pub open spec fn tool_command(ctx: Context, action: Action) -> Option<CommandModel> {
    match action {
        Action::SetGovernor => Some(cpupower::governor_command(ctx.cpu_governor->Some_0@)),
        Action::CreateTmpFile(_) => None,
        Action::IgnoreSigint => None,
        Action::UnloadDrivers => Some(
            modprobe::unload_command(views(ctx.unload_drivers->Some_0@)),
        ),
        Action::LoadDrivers => Some(modprobe::load_command(views(ctx.unload_drivers->Some_0@))),
        Action::UnbindPci(i) => Some(virsh::virsh_command("nodedev-detach"@, ctx.pci@[i as int]@)),
        Action::RebindPci(i) => Some(
            virsh::virsh_command("nodedev-reattach"@, ctx.pci@[i as int]@),
        ),
        Action::ClearPat(i) => Some(pat_dealloc::clear_command(ctx.pat_dealloc@[i as int]@)),
        Action::RunQemu => Some(
            qemu::qemu_command(opt_view(ctx.cpu_affinity), views(ctx.args@)),
        ),
    }
}

/// The command that performs the action on the plan; none for making a
/// file and for the signal setup, which are no call of a tool.
pub fn command_for(ctx: &Context, action: Action) -> (cmd: Option<CommandLine>)
    requires
        action_valid(spec_shape_of(*ctx), action),
    ensures
        cmd is Some <==> tool_command(*ctx, action) is Some,
        cmd is Some ==> cmd->Some_0@ == tool_command(*ctx, action)->Some_0,
{
    match action {
        Action::SetGovernor => match &ctx.cpu_governor {
            Some(governor) => Some(cpupower::set_governor(governor.as_str())),
            None => None,
        },
        Action::CreateTmpFile(_) => None,
        Action::IgnoreSigint => None,
        Action::UnloadDrivers => match &ctx.unload_drivers {
            Some(drivers) => Some(modprobe::unload(drivers.as_slice())),
            None => None,
        },
        Action::LoadDrivers => match &ctx.unload_drivers {
            Some(drivers) => Some(modprobe::load(drivers.as_slice())),
            None => None,
        },
        Action::UnbindPci(i) => Some(virsh::unbind_pci(ctx.pci[i].as_str())),
        Action::RebindPci(i) => Some(virsh::rebind_pci(ctx.pci[i].as_str())),
        Action::ClearPat(i) => Some(pat_dealloc::clear_pat(ctx.pat_dealloc[i].as_str())),
        Action::RunQemu => Some(qemu::get_command(ctx)),
    }
}

/// The commands that clear the PAT entries of the given addresses, one
/// per address and in their order. Each is to be tried whether or not the
/// others succeed.
pub fn pat_dealloc(addresses: &[String]) -> (cmds: Vec<CommandLine>)
    ensures
        cmds@.len() == addresses@.len(),
        forall|i: int|
            0 <= i < addresses@.len() ==> (#[trigger] cmds@[i])@ == pat_dealloc::clear_command(
                addresses@[i]@,
            ),
{
    let mut cmds: Vec<CommandLine> = Vec::new();
    let mut i: usize = 0;
    while i < addresses.len()
        invariant
            i <= addresses.len(),
            cmds@.len() == i,
            forall|j: int|
                0 <= j < i ==> (#[trigger] cmds@[j])@ == pat_dealloc::clear_command(
                    addresses@[j]@,
                ),
        decreases addresses.len() - i,
    {
        cmds.push(pat_dealloc::clear_pat(addresses[i].as_str()));
        i += 1;
    }
    cmds
}

/// A full run over the plan: release the devices, run the guest, and take
/// the devices back unless `skip_attach` is set.
pub fn run(context: &Context, skip_attach: bool) -> (r: Run)
    ensures
        r.wf(),
        r.shape == spec_shape_of(*context),
        r.mode == (Mode::Full { skip_attach }),
        r.stage == Stage::Idle,
        r.trace() == Seq::<Action>::empty(),
{
    Run::new(shape_of(context), Mode::Full { skip_attach })
}

/// A run that only releases the devices of the plan.
pub fn detach_devices(context: &Context) -> (r: Run)
    ensures
        r.wf(),
        r.shape == spec_shape_of(*context),
        r.mode == Mode::DetachOnly,
        r.stage == Stage::Idle,
        r.trace() == Seq::<Action>::empty(),
{
    Run::new(shape_of(context), Mode::DetachOnly)
}

/// A run that only takes the devices of the plan back.
pub fn reattach_devices(context: &Context) -> (r: Run)
    ensures
        r.wf(),
        r.shape == spec_shape_of(*context),
        r.mode == Mode::AttachOnly,
        r.stage == Stage::Idle,
        r.trace() == Seq::<Action>::empty(),
{
    Run::new(shape_of(context), Mode::AttachOnly)
}

} // verus!
