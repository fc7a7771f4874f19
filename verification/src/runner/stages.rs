//! The stages of a run: which stage follows which, and what a run has
//! asked for when it is in a stage.

use vstd::prelude::*;
use crate::runner::{Action, Mode, Outcome, Reattach, Shape};

verus! {

/// Where a run stands: the action it has asked for and waits on, with
/// what it has to remember of the actions before.
#[derive(Clone, Copy, Debug, PartialEq, Eq, Structural)]
pub enum Stage {
    /// Nothing was asked for yet.
    Idle,
    /// Setting the governor.
    Governor,
    /// Making the file at this position.
    TmpFile(usize),
    /// Setting up the interrupt signal.
    Signal,
    /// Unloading the drivers.
    Unload,
    /// Loading the drivers after unloading them failed.
    UndoUnload,
    /// Unbinding the device at this position.
    Unbind(usize),
    /// Binding device `next` again after unbinding device `failed` failed.
    UndoUnbind { failed: usize, next: usize },
    /// Loading the drivers after unbinding device `failed` failed.
    UndoReload { failed: usize },
    /// Clearing the PAT entries at this position, the devices being
    /// released.
    DetachPat(usize),
    /// The guest runs.
    Running,
    /// Clearing the PAT entries at position `next`, before the devices are
    /// bound again.
    AttachPat { next: usize, guest_ok: bool },
    /// Binding device `next` again; `had_error` if a device before it
    /// could not be bound.
    Rebind { next: usize, had_error: bool, guest_ok: bool },
    /// Loading the drivers; `had_error` if a device could not be bound.
    Reload { had_error: bool, guest_ok: bool },
    /// The run is over.
    Done(Outcome),
}

/// The requests for the first `n` files.
pub open spec fn files_part(n: int) -> Seq<Action> {
    Seq::new(n as nat, |i: int| Action::CreateTmpFile(i as usize))
}

/// The requests to unbind the first `n` devices.
pub open spec fn unbinds(n: int) -> Seq<Action> {
    Seq::new(n as nat, |i: int| Action::UnbindPci(i as usize))
}

/// The requests to bind the first `n` devices again.
pub open spec fn rebinds(n: int) -> Seq<Action> {
    Seq::new(n as nat, |i: int| Action::RebindPci(i as usize))
}

/// The requests to clear the PAT entries of the first `n` addresses.
pub open spec fn pats(n: int) -> Seq<Action> {
    Seq::new(n as nat, |i: int| Action::ClearPat(i as usize))
}

impl Shape {
    /// The request for the governor, if one is to be set.
    pub open spec fn governor_part(self) -> Seq<Action> {
        if self.governor {
            seq![Action::SetGovernor]
        } else {
            Seq::empty()
        }
    }

    /// The request to unload the drivers, if any is declared.
    pub open spec fn unload_part(self) -> Seq<Action> {
        if self.drivers {
            seq![Action::UnloadDrivers]
        } else {
            Seq::empty()
        }
    }

    /// The request to load the drivers, if any is declared.
    pub open spec fn reload_part(self) -> Seq<Action> {
        if self.drivers {
            seq![Action::LoadDrivers]
        } else {
            Seq::empty()
        }
    }

    /// What precedes the hand-off of the devices: governor, files and
    /// signal in a full run, nothing otherwise.
    pub open spec fn prelude(self, mode: Mode) -> Seq<Action> {
        if mode is Full {
            self.governor_part() + files_part(self.files as int) + seq![Action::IgnoreSigint]
        } else {
            Seq::empty()
        }
    }

    /// Everything up to the point where the devices are released.
    pub open spec fn detached(self, mode: Mode) -> Seq<Action> {
        self.prelude(mode) + self.unload_part() + unbinds(self.pci as int) + pats(self.pat as int)
    }

    /// What precedes taking the devices back: the whole hand-off and the
    /// guest in a full run, nothing otherwise.
    pub open spec fn before_attach(self, mode: Mode) -> Seq<Action> {
        if mode is Full {
            self.detached(mode) + seq![Action::RunQemu]
        } else {
            Seq::empty()
        }
    }

    /// Taking the devices back, in full: clear the PAT entries, bind
    /// every device, load the drivers.
    pub open spec fn attach_part(self) -> Seq<Action> {
        pats(self.pat as int) + rebinds(self.pci as int) + self.reload_part()
    }

    /// Undoing the hand-off after device `failed` could not be unbound:
    /// bind every device before it, load the drivers.
    pub open spec fn rollback_part(self, failed: int) -> Seq<Action> {
        rebinds(failed) + self.reload_part()
    }
}

/// The action that a stage waits on.
pub open spec fn pending(stage: Stage) -> Option<Action> {
    match stage {
        Stage::Idle => None,
        Stage::Governor => Some(Action::SetGovernor),
        Stage::TmpFile(i) => Some(Action::CreateTmpFile(i)),
        Stage::Signal => Some(Action::IgnoreSigint),
        Stage::Unload => Some(Action::UnloadDrivers),
        Stage::UndoUnload => Some(Action::LoadDrivers),
        Stage::Unbind(i) => Some(Action::UnbindPci(i)),
        Stage::UndoUnbind { failed, next } => Some(Action::RebindPci(next)),
        Stage::UndoReload { failed } => Some(Action::LoadDrivers),
        Stage::DetachPat(i) => Some(Action::ClearPat(i)),
        Stage::Running => Some(Action::RunQemu),
        Stage::AttachPat { next, guest_ok } => Some(Action::ClearPat(next)),
        Stage::Rebind { next, had_error, guest_ok } => Some(Action::RebindPci(next)),
        Stage::Reload { had_error, guest_ok } => Some(Action::LoadDrivers),
        Stage::Done(_) => None,
    }
}

/// The stage that creates file `i`, or the one after the last file.
pub open spec fn enter_files(shape: Shape, i: int) -> Stage {
    if i < shape.files {
        Stage::TmpFile(i as usize)
    } else {
        Stage::Signal
    }
}

/// The first stage of the hand-off.
pub open spec fn enter_detach(shape: Shape, mode: Mode) -> Stage {
    if shape.drivers {
        Stage::Unload
    } else {
        enter_unbind(shape, mode, 0)
    }
}

/// The stage that unbinds device `i`, or the one after the last device.
pub open spec fn enter_unbind(shape: Shape, mode: Mode, i: int) -> Stage {
    if i < shape.pci {
        Stage::Unbind(i as usize)
    } else {
        enter_detach_pat(shape, mode, 0)
    }
}

/// The stage that clears PAT address `i` after the hand-off, or the one
/// after the last address.
pub open spec fn enter_detach_pat(shape: Shape, mode: Mode, i: int) -> Stage {
    if i < shape.pat {
        Stage::DetachPat(i as usize)
    } else if mode is Full {
        Stage::Running
    } else {
        Stage::Done(Outcome::Detached)
    }
}

/// The stage that binds device `next` again after device `failed` could
/// not be unbound, or the one after the last device before `failed`.
pub open spec fn enter_undo(shape: Shape, failed: usize, next: int) -> Stage {
    if next < failed {
        Stage::UndoUnbind { failed, next: next as usize }
    } else if shape.drivers {
        Stage::UndoReload { failed }
    } else {
        Stage::Done(Outcome::UnbindFailed(failed))
    }
}

/// The stage that clears PAT address `i` before the devices are bound
/// again, or the one after the last address.
pub open spec fn enter_attach_pat(shape: Shape, mode: Mode, i: int, guest_ok: bool) -> Stage {
    if i < shape.pat {
        Stage::AttachPat { next: i as usize, guest_ok }
    } else {
        enter_rebind(shape, mode, 0, false, guest_ok)
    }
}

/// The stage that binds device `i` again, or the one after the last
/// device.
pub open spec fn enter_rebind(shape: Shape, mode: Mode, i: int, had_error: bool, guest_ok: bool) -> Stage {
    if i < shape.pci {
        Stage::Rebind { next: i as usize, had_error, guest_ok }
    } else if shape.drivers {
        Stage::Reload { had_error, guest_ok }
    } else {
        Stage::Done(attached(mode, had_error, guest_ok))
    }
}

/// The outcome of a run that took the devices back.
pub open spec fn attached(mode: Mode, had_error: bool, guest_ok: bool) -> Outcome {
    if mode is Full {
        Outcome::Finished {
            guest_ok,
            reattach: if had_error {
                Reattach::HadError
            } else {
                Reattach::Clean
            },
        }
    } else {
        Outcome::Reattached { clean: !had_error }
    }
}

/// The stage that follows `stage` once its action has succeeded (`ok`) or
/// failed. Only the governor, a file, unloading and unbinding end the run
/// when they fail; the guest and everything that restores the host are
/// followed by the next step either way.
pub open spec fn next_stage(shape: Shape, mode: Mode, stage: Stage, ok: bool) -> Stage {
    match stage {
        Stage::Idle => match mode {
            Mode::Full { skip_attach } => if shape.governor {
                Stage::Governor
            } else {
                enter_files(shape, 0)
            },
            Mode::DetachOnly => enter_detach(shape, mode),
            Mode::AttachOnly => enter_attach_pat(shape, mode, 0, true),
        },
        Stage::Governor => if ok {
            enter_files(shape, 0)
        } else {
            Stage::Done(Outcome::GovernorFailed)
        },
        Stage::TmpFile(i) => if ok {
            enter_files(shape, i + 1)
        } else {
            Stage::Done(Outcome::TmpFileFailed(i))
        },
        Stage::Signal => enter_detach(shape, mode),
        Stage::Unload => if ok {
            enter_unbind(shape, mode, 0)
        } else {
            Stage::UndoUnload
        },
        Stage::UndoUnload => Stage::Done(Outcome::UnloadFailed),
        Stage::Unbind(i) => if ok {
            enter_unbind(shape, mode, i + 1)
        } else {
            enter_undo(shape, i, 0)
        },
        Stage::UndoUnbind { failed, next } => enter_undo(shape, failed, next + 1),
        Stage::UndoReload { failed } => Stage::Done(Outcome::UnbindFailed(failed)),
        Stage::DetachPat(i) => enter_detach_pat(shape, mode, i + 1),
        Stage::Running => match mode {
            Mode::Full { skip_attach } => if skip_attach {
                Stage::Done(Outcome::Finished { guest_ok: ok, reattach: Reattach::Skipped })
            } else {
                enter_attach_pat(shape, mode, 0, ok)
            },
            _ => Stage::Done(Outcome::Detached),
        },
        Stage::AttachPat { next, guest_ok } => enter_attach_pat(shape, mode, next + 1, guest_ok),
        Stage::Rebind { next, had_error, guest_ok } => enter_rebind(
            shape,
            mode,
            next + 1,
            had_error || !ok,
            guest_ok,
        ),
        Stage::Reload { had_error, guest_ok } => Stage::Done(
            attached(mode, had_error || !ok, guest_ok),
        ),
        Stage::Done(outcome) => Stage::Done(outcome),
    }
}

/// Whether a run of the given mode over a plan of the given sizes can be
/// in `stage`.
pub open spec fn stage_wf(shape: Shape, mode: Mode, stage: Stage) -> bool {
    match stage {
        Stage::Idle => true,
        Stage::Governor => mode is Full && shape.governor,
        Stage::TmpFile(i) => mode is Full && i < shape.files,
        Stage::Signal => mode is Full,
        Stage::Unload => !(mode is AttachOnly) && shape.drivers,
        Stage::UndoUnload => !(mode is AttachOnly) && shape.drivers,
        Stage::Unbind(i) => !(mode is AttachOnly) && i < shape.pci,
        Stage::UndoUnbind { failed, next } => !(mode is AttachOnly) && next < failed < shape.pci,
        Stage::UndoReload { failed } => !(mode is AttachOnly) && failed < shape.pci && shape.drivers,
        Stage::DetachPat(i) => !(mode is AttachOnly) && i < shape.pat,
        Stage::Running => mode is Full,
        Stage::AttachPat { next, guest_ok } => attaches(mode) && next < shape.pat,
        Stage::Rebind { next, had_error, guest_ok } => attaches(mode) && next < shape.pci,
        Stage::Reload { had_error, guest_ok } => attaches(mode) && shape.drivers,
        Stage::Done(outcome) => match outcome {
            Outcome::GovernorFailed => mode is Full && shape.governor,
            Outcome::TmpFileFailed(i) => mode is Full && i < shape.files,
            Outcome::UnloadFailed => !(mode is AttachOnly) && shape.drivers,
            Outcome::UnbindFailed(k) => !(mode is AttachOnly) && k < shape.pci,
            Outcome::Detached => mode is DetachOnly,
            Outcome::Finished { guest_ok, reattach } => mode is Full && (reattach is Skipped
                <==> mode == Mode::Full { skip_attach: true }),
            Outcome::Reattached { clean } => mode is AttachOnly,
        },
    }
}

/// Whether a run of the given mode takes the devices back.
pub open spec fn attaches(mode: Mode) -> bool {
    mode == (Mode::Full { skip_attach: false }) || mode is AttachOnly
}

/// The actions that a run has asked for when it is in `stage`, in the
/// order in which it asked for them; the last one is the action that the
/// stage waits on.
pub open spec fn trace_of(shape: Shape, mode: Mode, stage: Stage) -> Seq<Action> {
    let handoff = shape.prelude(mode) + shape.unload_part();
    match stage {
        Stage::Idle => Seq::empty(),
        Stage::Governor => shape.governor_part(),
        Stage::TmpFile(i) => shape.governor_part() + files_part(i + 1),
        Stage::Signal => shape.prelude(mode),
        Stage::Unload => handoff,
        Stage::UndoUnload => handoff + seq![Action::LoadDrivers],
        Stage::Unbind(i) => handoff + unbinds(i + 1),
        Stage::UndoUnbind { failed, next } => handoff + unbinds(failed + 1) + rebinds(next + 1),
        Stage::UndoReload { failed } => handoff + unbinds(failed + 1) + shape.rollback_part(
            failed as int,
        ),
        Stage::DetachPat(i) => handoff + unbinds(shape.pci as int) + pats(i + 1),
        Stage::Running => shape.before_attach(mode),
        Stage::AttachPat { next, guest_ok } => shape.before_attach(mode) + pats(next + 1),
        Stage::Rebind { next, had_error, guest_ok } => shape.before_attach(mode) + pats(
            shape.pat as int,
        ) + rebinds(next + 1),
        Stage::Reload { had_error, guest_ok } => shape.before_attach(mode) + shape.attach_part(),
        Stage::Done(outcome) => match outcome {
            Outcome::GovernorFailed => shape.governor_part(),
            Outcome::TmpFileFailed(i) => shape.governor_part() + files_part(i + 1),
            Outcome::UnloadFailed => handoff + seq![Action::LoadDrivers],
            Outcome::UnbindFailed(k) => handoff + unbinds(k + 1) + shape.rollback_part(k as int),
            Outcome::Detached => shape.detached(mode),
            Outcome::Finished { guest_ok, reattach } => if reattach is Skipped {
                shape.before_attach(mode)
            } else {
                shape.before_attach(mode) + shape.attach_part()
            },
            Outcome::Reattached { clean } => shape.attach_part(),
        },
    }
}

/// `trace` with `action` behind it, where there is one.
pub open spec fn then_action(trace: Seq<Action>, action: Option<Action>) -> Seq<Action> {
    match action {
        Some(a) => trace.push(a),
        None => trace,
    }
}

proof fn lemma_ranges(n: int)
    requires
        0 <= n < usize::MAX,
    ensures
        files_part(n + 1) == files_part(n).push(Action::CreateTmpFile(n as usize)),
        unbinds(n + 1) == unbinds(n).push(Action::UnbindPci(n as usize)),
        rebinds(n + 1) == rebinds(n).push(Action::RebindPci(n as usize)),
        pats(n + 1) == pats(n).push(Action::ClearPat(n as usize)),
        files_part(0) == Seq::<Action>::empty(),
        unbinds(0) == Seq::<Action>::empty(),
        rebinds(0) == Seq::<Action>::empty(),
        pats(0) == Seq::<Action>::empty(),
{
    assert(files_part(n + 1) =~= files_part(n).push(Action::CreateTmpFile(n as usize)));
    assert(unbinds(n + 1) =~= unbinds(n).push(Action::UnbindPci(n as usize)));
    assert(rebinds(n + 1) =~= rebinds(n).push(Action::RebindPci(n as usize)));
    assert(pats(n + 1) =~= pats(n).push(Action::ClearPat(n as usize)));
    assert(files_part(0) =~= Seq::<Action>::empty());
    assert(unbinds(0) =~= Seq::<Action>::empty());
    assert(rebinds(0) =~= Seq::<Action>::empty());
    assert(pats(0) =~= Seq::<Action>::empty());
}

proof fn lemma_enter_files(shape: Shape, mode: Mode, i: int, before: Seq<Action>)
    requires
        mode is Full,
        0 <= i <= shape.files,
        before == shape.governor_part() + files_part(i),
    ensures
        stage_wf(shape, mode, enter_files(shape, i)),
        trace_of(shape, mode, enter_files(shape, i)) == then_action(
            before,
            pending(enter_files(shape, i)),
        ),
{
    lemma_ranges(if i < shape.files { i } else { 0 });
    let next = enter_files(shape, i);
    assert(trace_of(shape, mode, next) =~= then_action(before, pending(next)));
}

proof fn lemma_enter_detach_pat(shape: Shape, mode: Mode, i: int, before: Seq<Action>)
    requires
        !(mode is AttachOnly),
        0 <= i <= shape.pat,
        before == shape.prelude(mode) + shape.unload_part() + unbinds(shape.pci as int) + pats(i),
    ensures
        stage_wf(shape, mode, enter_detach_pat(shape, mode, i)),
        trace_of(shape, mode, enter_detach_pat(shape, mode, i)) == then_action(
            before,
            pending(enter_detach_pat(shape, mode, i)),
        ),
{
    lemma_ranges(if i < shape.pat { i } else { 0 });
    let next = enter_detach_pat(shape, mode, i);
    assert(trace_of(shape, mode, next) =~= then_action(before, pending(next)));
}

proof fn lemma_enter_unbind(shape: Shape, mode: Mode, i: int, before: Seq<Action>)
    requires
        !(mode is AttachOnly),
        0 <= i <= shape.pci,
        before == shape.prelude(mode) + shape.unload_part() + unbinds(i),
    ensures
        stage_wf(shape, mode, enter_unbind(shape, mode, i)),
        trace_of(shape, mode, enter_unbind(shape, mode, i)) == then_action(
            before,
            pending(enter_unbind(shape, mode, i)),
        ),
{
    lemma_ranges(if i < shape.pci { i } else { 0 });
    if i < shape.pci {
        let next = enter_unbind(shape, mode, i);
        assert(trace_of(shape, mode, next) =~= then_action(before, pending(next)));
    } else {
        assert(before + pats(0) =~= before);
        lemma_enter_detach_pat(shape, mode, 0, before);
    }
}

proof fn lemma_enter_detach(shape: Shape, mode: Mode, before: Seq<Action>)
    requires
        !(mode is AttachOnly),
        before == shape.prelude(mode),
    ensures
        stage_wf(shape, mode, enter_detach(shape, mode)),
        trace_of(shape, mode, enter_detach(shape, mode)) == then_action(
            before,
            pending(enter_detach(shape, mode)),
        ),
{
    lemma_ranges(0);
    if shape.drivers {
        let next = enter_detach(shape, mode);
        assert(trace_of(shape, mode, next) =~= then_action(before, pending(next)));
    } else {
        assert(before + shape.unload_part() + unbinds(0) =~= before);
        lemma_enter_unbind(shape, mode, 0, before);
    }
}

proof fn lemma_enter_undo(shape: Shape, mode: Mode, failed: usize, next: int, before: Seq<Action>)
    requires
        !(mode is AttachOnly),
        0 <= next <= failed < shape.pci,
        before == shape.prelude(mode) + shape.unload_part() + unbinds(failed + 1) + rebinds(next),
    ensures
        stage_wf(shape, mode, enter_undo(shape, failed, next)),
        trace_of(shape, mode, enter_undo(shape, failed, next)) == then_action(
            before,
            pending(enter_undo(shape, failed, next)),
        ),
{
    lemma_ranges(if next < failed { next } else { 0 });
    let stage = enter_undo(shape, failed, next);
    assert(trace_of(shape, mode, stage) =~= then_action(before, pending(stage)));
}

proof fn lemma_enter_rebind(
    shape: Shape,
    mode: Mode,
    i: int,
    had_error: bool,
    guest_ok: bool,
    before: Seq<Action>,
)
    requires
        attaches(mode),
        0 <= i <= shape.pci,
        before == shape.before_attach(mode) + pats(shape.pat as int) + rebinds(i),
    ensures
        stage_wf(shape, mode, enter_rebind(shape, mode, i, had_error, guest_ok)),
        trace_of(shape, mode, enter_rebind(shape, mode, i, had_error, guest_ok)) == then_action(
            before,
            pending(enter_rebind(shape, mode, i, had_error, guest_ok)),
        ),
{
    lemma_ranges(if i < shape.pci { i } else { 0 });
    let stage = enter_rebind(shape, mode, i, had_error, guest_ok);
    assert(trace_of(shape, mode, stage) =~= then_action(before, pending(stage)));
}

proof fn lemma_enter_attach_pat(shape: Shape, mode: Mode, i: int, guest_ok: bool, before: Seq<Action>)
    requires
        attaches(mode),
        0 <= i <= shape.pat,
        before == shape.before_attach(mode) + pats(i),
    ensures
        stage_wf(shape, mode, enter_attach_pat(shape, mode, i, guest_ok)),
        trace_of(shape, mode, enter_attach_pat(shape, mode, i, guest_ok)) == then_action(
            before,
            pending(enter_attach_pat(shape, mode, i, guest_ok)),
        ),
{
    lemma_ranges(if i < shape.pat { i } else { 0 });
    if i < shape.pat {
        let stage = enter_attach_pat(shape, mode, i, guest_ok);
        assert(trace_of(shape, mode, stage) =~= then_action(before, pending(stage)));
    } else {
        assert(before + rebinds(0) =~= before);
        lemma_enter_rebind(shape, mode, 0, false, guest_ok, before);
    }
}

/// Every step of a run leads to a stage the run can be in, and adds to
/// the trace exactly the action that the new stage waits on.
pub proof fn lemma_step(shape: Shape, mode: Mode, stage: Stage, ok: bool)
    requires
        stage_wf(shape, mode, stage),
    ensures
        stage_wf(shape, mode, next_stage(shape, mode, stage, ok)),
        trace_of(shape, mode, next_stage(shape, mode, stage, ok)) == then_action(
            trace_of(shape, mode, stage),
            pending(next_stage(shape, mode, stage, ok)),
        ),
{
    let before = trace_of(shape, mode, stage);
    let next = next_stage(shape, mode, stage, ok);
    lemma_ranges(0);
    match stage {
        Stage::Idle => {
            match mode {
                Mode::Full { skip_attach } => {
                    if shape.governor {
                        assert(trace_of(shape, mode, next) =~= then_action(before, pending(next)));
                    } else {
                        assert(shape.governor_part() + files_part(0) =~= before);
                        lemma_enter_files(shape, mode, 0, before);
                    }
                },
                Mode::DetachOnly => {
                    lemma_enter_detach(shape, mode, before);
                },
                Mode::AttachOnly => {
                    assert(shape.before_attach(mode) + pats(0) =~= before);
                    lemma_enter_attach_pat(shape, mode, 0, true, before);
                },
            }
        },
        Stage::Governor => {
            if ok {
                assert(shape.governor_part() + files_part(0) =~= before);
                lemma_enter_files(shape, mode, 0, before);
            }
        },
        Stage::TmpFile(i) => {
            if ok {
                lemma_enter_files(shape, mode, i + 1, before);
            }
        },
        Stage::Signal => {
            lemma_enter_detach(shape, mode, before);
        },
        Stage::Unload => {
            if ok {
                assert(before + unbinds(0) =~= before);
                lemma_enter_unbind(shape, mode, 0, before);
            } else {
                assert(trace_of(shape, mode, next) =~= then_action(before, pending(next)));
            }
        },
        Stage::UndoUnload => {},
        Stage::Unbind(i) => {
            if ok {
                lemma_enter_unbind(shape, mode, i + 1, before);
            } else {
                assert(before + rebinds(0) =~= before);
                lemma_enter_undo(shape, mode, i, 0, before);
            }
        },
        Stage::UndoUnbind { failed, next: n } => {
            lemma_enter_undo(shape, mode, failed, n + 1, before);
        },
        Stage::UndoReload { failed } => {},
        Stage::DetachPat(i) => {
            lemma_enter_detach_pat(shape, mode, i + 1, before);
        },
        Stage::Running => {
            match mode {
                Mode::Full { skip_attach } => {
                    if !skip_attach {
                        assert(before + pats(0) =~= before);
                        lemma_enter_attach_pat(shape, mode, 0, ok, before);
                    }
                },
                _ => {},
            }
        },
        Stage::AttachPat { next: n, guest_ok } => {
            lemma_enter_attach_pat(shape, mode, n + 1, guest_ok, before);
        },
        Stage::Rebind { next: n, had_error, guest_ok } => {
            lemma_enter_rebind(shape, mode, n + 1, had_error || !ok, guest_ok, before);
        },
        Stage::Reload { had_error, guest_ok } => {},
        Stage::Done(outcome) => {},
    }
}

/// Whether the plan has what the action is about.
pub open spec fn action_valid(shape: Shape, action: Action) -> bool {
    match action {
        Action::SetGovernor => shape.governor,
        Action::CreateTmpFile(i) => i < shape.files,
        Action::IgnoreSigint => true,
        Action::UnloadDrivers => shape.drivers,
        Action::LoadDrivers => shape.drivers,
        Action::UnbindPci(i) => i < shape.pci,
        Action::RebindPci(i) => i < shape.pci,
        Action::ClearPat(i) => i < shape.pat,
        Action::RunQemu => true,
    }
}

proof fn lemma_pending_valid(shape: Shape, mode: Mode, stage: Stage)
    requires
        stage_wf(shape, mode, stage),
    ensures
        pending(stage) is Some ==> action_valid(shape, pending(stage)->Some_0),
        pending(stage) is None <==> stage is Done || stage is Idle,
{
}

proof fn lemma_never_idle_again(shape: Shape, mode: Mode, stage: Stage, ok: bool)
    ensures
        !(next_stage(shape, mode, stage, ok) is Idle),
{
}

/// The action that a stage waits on after a step is one that the plan
/// has, and there is none exactly when the run is over.
pub proof fn lemma_pending(shape: Shape, mode: Mode, stage: Stage, ok: bool)
    requires
        stage_wf(shape, mode, stage),
        stage_wf(shape, mode, next_stage(shape, mode, stage, ok)),
    ensures
        pending(next_stage(shape, mode, stage, ok)) is Some ==> action_valid(
            shape,
            pending(next_stage(shape, mode, stage, ok))->Some_0,
        ),
        pending(next_stage(shape, mode, stage, ok)) is None <==> next_stage(
            shape,
            mode,
            stage,
            ok,
        ) is Done,
{
    lemma_pending_valid(shape, mode, next_stage(shape, mode, stage, ok));
    lemma_never_idle_again(shape, mode, stage, ok);
}

} // verus!
