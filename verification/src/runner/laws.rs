//! What holds of every run, whatever the tools answer.

use vstd::prelude::*;
use crate::runner::{Action, Mode, Outcome, Reattach, Run, Shape};
use crate::runner::stages::{
    Stage, attached, enter_attach_pat, enter_rebind, enter_undo, files_part, next_stage, pats,
    rebinds, stage_wf, trace_of, unbinds,
};

verus! {

/// The stage that a run reaches from `stage` when its next actions have
/// the given results, in order.
pub open spec fn after(shape: Shape, mode: Mode, stage: Stage, results: Seq<bool>) -> Stage
    decreases results.len(),
{
    if results.len() == 0 {
        stage
    } else {
        after(shape, mode, next_stage(shape, mode, stage, results[0]), results.skip(1))
    }
}

/// Whether every result is a success.
pub open spec fn all_ok(results: Seq<bool>) -> bool
    decreases results.len(),
{
    results.len() == 0 || (results[0] && all_ok(results.skip(1)))
}

/// The number of answers that loading the drivers takes: one where any
/// driver is declared, none otherwise.
pub open spec fn reload_steps(shape: Shape) -> int {
    if shape.drivers {
        1
    } else {
        0
    }
}

proof fn lemma_undo_settles(shape: Shape, mode: Mode, failed: usize, next: int, results: Seq<bool>)
    requires
        0 <= next <= failed < shape.pci,
        results.len() == failed - next + reload_steps(shape),
    ensures
        after(shape, mode, enter_undo(shape, failed, next), results) == Stage::Done(
            Outcome::UnbindFailed(failed),
        ),
    decreases results.len(),
{
    let stage = enter_undo(shape, failed, next);
    if next < failed {
        lemma_undo_settles(shape, mode, failed, next + 1, results.skip(1));
    } else if shape.drivers {
        assert(results.skip(1).len() == 0);
        let end = next_stage(shape, mode, stage, results[0]);
        assert(after(shape, mode, end, results.skip(1)) == end);
    }
}

/// When a device cannot be unbound, every device before it is bound
/// again: each once and in the declared order, whether or not binding the
/// others succeeds. Then the drivers are loaded, and the run has failed
/// without ever starting the guest.
pub proof fn lemma_failed_unbind_is_rolled_back(
    shape: Shape,
    mode: Mode,
    k: usize,
    results: Seq<bool>,
)
    requires
        stage_wf(shape, mode, Stage::Unbind(k)),
        results.len() == k + reload_steps(shape),
    ensures
        after(shape, mode, next_stage(shape, mode, Stage::Unbind(k), false), results)
            == Stage::Done(Outcome::UnbindFailed(k)),
        trace_of(shape, mode, Stage::Done(Outcome::UnbindFailed(k))) == trace_of(
            shape,
            mode,
            Stage::Unbind(k),
        ) + rebinds(k as int) + shape.reload_part(),
        rebinds(k as int).len() == k,
        forall|i: int| 0 <= i < k ==> rebinds(k as int)[i] == Action::RebindPci(i as usize),
        forall|i: usize|
            !(#[trigger] trace_of(shape, mode, Stage::Unbind(k)).contains(Action::RebindPci(i))),
        !Outcome::UnbindFailed(k).spec_success(),
        !trace_of(shape, mode, Stage::Done(Outcome::UnbindFailed(k))).contains(Action::RunQemu),
{
    assert forall|i: usize|
        !(#[trigger] trace_of(shape, mode, Stage::Unbind(k)).contains(Action::RebindPci(i))) by {
        let x = Action::RebindPci(i);
        let g = shape.governor_part();
        let f = files_part(shape.files as int);
        let s = seq![Action::IgnoreSigint];
        lemma_contains_concat(g, f, x);
        lemma_contains_concat(g + f, s, x);
        lemma_contains_concat(shape.prelude(mode), shape.unload_part(), x);
        lemma_contains_concat(shape.prelude(mode) + shape.unload_part(), unbinds(k + 1), x);
    }
    lemma_undo_settles(shape, mode, k, 0, results);
    let base = trace_of(shape, mode, Stage::Unbind(k));
    let end = trace_of(shape, mode, Stage::Done(Outcome::UnbindFailed(k)));
    assert(end =~= base + rebinds(k as int) + shape.reload_part());
    lemma_no_guest_before_detach(shape, mode);
    lemma_contains_concat(base, rebinds(k as int), Action::RunQemu);
    lemma_contains_concat(base + rebinds(k as int), shape.reload_part(), Action::RunQemu);
    lemma_contains_concat(shape.prelude(mode) + shape.unload_part(), unbinds(k + 1), Action::RunQemu);
}

/// An element of a concatenation is an element of one of its parts.
pub proof fn lemma_contains_concat<T>(a: Seq<T>, b: Seq<T>, x: T)
    ensures
        (a + b).contains(x) <==> a.contains(x) || b.contains(x),
{
    if (a + b).contains(x) {
        let i = choose|i: int| 0 <= i < (a + b).len() && (a + b)[i] == x;
        if i < a.len() {
            assert(a[i] == x);
        } else {
            assert(b[i - a.len()] == x);
        }
    }
    if a.contains(x) {
        let i = choose|i: int| 0 <= i < a.len() && a[i] == x;
        assert((a + b)[i] == x);
    }
    if b.contains(x) {
        let i = choose|i: int| 0 <= i < b.len() && b[i] == x;
        assert((a + b)[a.len() + i] == x);
    }
}

proof fn lemma_no_guest_before_detach(shape: Shape, mode: Mode)
    ensures
        !(shape.prelude(mode) + shape.unload_part()).contains(Action::RunQemu),
        !shape.prelude(mode).contains(Action::RunQemu),
        !shape.prelude(mode).contains(Action::UnloadDrivers),
        !shape.prelude(mode).contains(Action::LoadDrivers),
{
    let g = shape.governor_part();
    let f = files_part(shape.files as int);
    let s = seq![Action::IgnoreSigint];
    lemma_contains_concat(g, f, Action::RunQemu);
    lemma_contains_concat(g + f, s, Action::RunQemu);
    lemma_contains_concat(g, f, Action::UnloadDrivers);
    lemma_contains_concat(g + f, s, Action::UnloadDrivers);
    lemma_contains_concat(g, f, Action::LoadDrivers);
    lemma_contains_concat(g + f, s, Action::LoadDrivers);
    lemma_contains_concat(shape.prelude(mode), shape.unload_part(), Action::RunQemu);
}

/// Where no driver, no PCI device and no PAT address is declared,
/// releasing the devices and taking them back both succeed at once,
/// without asking for any tool; in a full run the guest follows the
/// signal setup directly.
pub proof fn lemma_nothing_declared_is_no_op(shape: Shape, ok: bool, skip_attach: bool)
    requires
        !shape.drivers,
        shape.pci == 0,
        shape.pat == 0,
    ensures
        next_stage(shape, Mode::DetachOnly, Stage::Idle, ok) == Stage::Done(Outcome::Detached),
        next_stage(shape, Mode::AttachOnly, Stage::Idle, ok) == Stage::Done(
            Outcome::Reattached { clean: true },
        ),
        Outcome::Detached.spec_success(),
        (Outcome::Reattached { clean: true }).spec_success(),
        trace_of(shape, Mode::DetachOnly, Stage::Done(Outcome::Detached)) == Seq::<Action>::empty(),
        trace_of(shape, Mode::AttachOnly, Stage::Done(Outcome::Reattached { clean: true }))
            == Seq::<Action>::empty(),
        next_stage(shape, Mode::Full { skip_attach }, Stage::Signal, ok) == Stage::Running,
        next_stage(shape, Mode::Full { skip_attach: false }, Stage::Running, ok) == Stage::Done(
            Outcome::Finished { guest_ok: ok, reattach: Reattach::Clean },
        ),
{
    assert(trace_of(shape, Mode::DetachOnly, Stage::Done(Outcome::Detached)) =~= Seq::<
        Action,
    >::empty());
    assert(trace_of(shape, Mode::AttachOnly, Stage::Done(Outcome::Reattached { clean: true }))
        =~= Seq::<Action>::empty());
}

proof fn lemma_plain(x: Action, n: int)
    requires
        x is UnloadDrivers || x is LoadDrivers || x is RunQemu,
    ensures
        !files_part(n).contains(x),
        !unbinds(n).contains(x),
        !rebinds(n).contains(x),
        !pats(n).contains(x),
{
}

/// In a full run that does not skip taking the devices back, loading the
/// drivers is asked for if and only if unloading them was asked for,
/// however the run ends.
pub proof fn lemma_reload_iff_unload(run: Run)
    requires
        run.wf(),
        run.mode == (Mode::Full { skip_attach: false }),
        run.stage is Done,
    ensures
        run.trace().contains(Action::LoadDrivers) <==> run.trace().contains(Action::UnloadDrivers),
{
    let shape = run.shape;
    let mode = run.mode;
    let un = Action::UnloadDrivers;
    let lo = Action::LoadDrivers;
    let p = shape.prelude(mode);
    let handoff = p + shape.unload_part();
    lemma_no_guest_before_detach(shape, mode);
    lemma_contains_concat(p, shape.unload_part(), un);
    lemma_contains_concat(p, shape.unload_part(), lo);
    if shape.drivers {
        assert(shape.unload_part()[0] == un);
        assert(shape.reload_part()[0] == lo);
    }
    assert(handoff.contains(un) == shape.drivers);
    assert(!handoff.contains(lo));
    match run.stage->Done_0 {
        Outcome::GovernorFailed => {
            assert(!shape.governor_part().contains(un));
            assert(!shape.governor_part().contains(lo));
        },
        Outcome::TmpFileFailed(i) => {
            lemma_plain(un, i + 1);
            lemma_plain(lo, i + 1);
            lemma_contains_concat(shape.governor_part(), files_part(i + 1), un);
            lemma_contains_concat(shape.governor_part(), files_part(i + 1), lo);
        },
        Outcome::UnloadFailed => {
            lemma_contains_concat(handoff, seq![lo], un);
            lemma_contains_concat(handoff, seq![lo], lo);
            assert(seq![lo][0] == lo);
        },
        Outcome::UnbindFailed(k) => {
            lemma_plain(un, k + 1);
            lemma_plain(lo, k + 1);
            lemma_plain(un, k as int);
            lemma_plain(lo, k as int);
            let roll = shape.rollback_part(k as int);
            lemma_contains_concat(rebinds(k as int), shape.reload_part(), un);
            lemma_contains_concat(rebinds(k as int), shape.reload_part(), lo);
            lemma_contains_concat(handoff, unbinds(k + 1), un);
            lemma_contains_concat(handoff, unbinds(k + 1), lo);
            lemma_contains_concat(handoff + unbinds(k + 1), roll, un);
            lemma_contains_concat(handoff + unbinds(k + 1), roll, lo);
        },
        Outcome::Finished { guest_ok, reattach } => {
            lemma_finished_trace(shape, mode, un);
            lemma_finished_trace(shape, mode, lo);
        },
        _ => {},
    }
}

proof fn lemma_finished_trace(shape: Shape, mode: Mode, x: Action)
    requires
        mode is Full,
        x is UnloadDrivers || x is LoadDrivers,
    ensures
        (shape.before_attach(mode) + shape.attach_part()).contains(x) <==> shape.drivers,
{
    let p = shape.prelude(mode);
    let un = shape.unload_part();
    let ub = unbinds(shape.pci as int);
    let pt = pats(shape.pat as int);
    let rb = rebinds(shape.pci as int);
    let re = shape.reload_part();
    let q = seq![Action::RunQemu];
    lemma_no_guest_before_detach(shape, mode);
    lemma_plain(x, shape.pci as int);
    lemma_plain(x, shape.pat as int);
    if shape.drivers {
        assert(un[0] == Action::UnloadDrivers);
        assert(re[0] == Action::LoadDrivers);
    }
    lemma_contains_concat(p, un, x);
    lemma_contains_concat(p + un, ub, x);
    lemma_contains_concat(p + un + ub, pt, x);
    lemma_contains_concat(p + un + ub + pt, q, x);
    lemma_contains_concat(pt, rb, x);
    lemma_contains_concat(pt + rb, re, x);
    lemma_contains_concat(shape.before_attach(mode), shape.attach_part(), x);
}

proof fn lemma_rebind_settles(
    shape: Shape,
    mode: Mode,
    i: int,
    had_error: bool,
    guest_ok: bool,
    results: Seq<bool>,
)
    requires
        0 <= i <= shape.pci,
        results.len() == shape.pci - i + reload_steps(shape),
    ensures
        after(shape, mode, enter_rebind(shape, mode, i, had_error, guest_ok), results)
            == Stage::Done(attached(mode, had_error || !all_ok(results), guest_ok)),
    decreases results.len(),
{
    let stage = enter_rebind(shape, mode, i, had_error, guest_ok);
    if i < shape.pci {
        lemma_rebind_settles(shape, mode, i + 1, had_error || !results[0], guest_ok, results.skip(1));
    } else if shape.drivers {
        assert(results.skip(1).len() == 0);
        assert(all_ok(results.skip(1)));
        let end = next_stage(shape, mode, stage, results[0]);
        assert(after(shape, mode, end, results.skip(1)) == end);
    }
}

proof fn lemma_attach_settles(
    shape: Shape,
    mode: Mode,
    i: int,
    guest_ok: bool,
    results: Seq<bool>,
)
    requires
        0 <= i <= shape.pat,
        results.len() == shape.pat - i + shape.pci + reload_steps(shape),
    ensures
        after(shape, mode, enter_attach_pat(shape, mode, i, guest_ok), results) == Stage::Done(
            attached(
                mode,
                !all_ok(results.skip(shape.pat - i)),
                guest_ok,
            ),
        ),
    decreases results.len(),
{
    if i < shape.pat {
        lemma_attach_settles(shape, mode, i + 1, guest_ok, results.skip(1));
        assert(results.skip(1).skip(shape.pat - (i + 1)) =~= results.skip(shape.pat - i));
    } else {
        assert(results.skip(0) =~= results);
        lemma_rebind_settles(shape, mode, 0, false, guest_ok, results);
    }
}

/// Once the guest was started in a full run that does not skip it, the
/// devices are taken back in full, whether the guest ran well or not and
/// whatever fails on the way: the PAT entries are cleared, every device
/// is bound and the drivers are loaded. The outcome names the guest's
/// result and that of taking the devices back separately; the latter is
/// clean exactly when every binding and the loading succeeded.
pub proof fn lemma_reattach_after_guest(shape: Shape, guest_ok: bool, results: Seq<bool>)
    requires
        results.len() == shape.pat + shape.pci + reload_steps(shape),
    ensures
        after(
            shape,
            Mode::Full { skip_attach: false },
            next_stage(shape, Mode::Full { skip_attach: false }, Stage::Running, guest_ok),
            results,
        ) == Stage::Done(
            Outcome::Finished {
                guest_ok,
                reattach: if all_ok(results.skip(shape.pat as int)) {
                    Reattach::Clean
                } else {
                    Reattach::HadError
                },
            },
        ),
        trace_of(
            shape,
            Mode::Full { skip_attach: false },
            Stage::Done(Outcome::Finished { guest_ok, reattach: Reattach::Clean }),
        ) == trace_of(shape, Mode::Full { skip_attach: false }, Stage::Running) + pats(
            shape.pat as int,
        ) + rebinds(shape.pci as int) + shape.reload_part(),
        trace_of(
            shape,
            Mode::Full { skip_attach: false },
            Stage::Done(Outcome::Finished { guest_ok, reattach: Reattach::HadError }),
        ) == trace_of(shape, Mode::Full { skip_attach: false }, Stage::Running) + pats(
            shape.pat as int,
        ) + rebinds(shape.pci as int) + shape.reload_part(),
{
    let mode = Mode::Full { skip_attach: false };
    lemma_attach_settles(shape, mode, 0, guest_ok, results);
    let tail = trace_of(shape, mode, Stage::Running) + pats(shape.pat as int) + rebinds(
        shape.pci as int,
    ) + shape.reload_part();
    assert(trace_of(
        shape,
        mode,
        Stage::Done(Outcome::Finished { guest_ok, reattach: Reattach::Clean }),
    ) =~= tail);
    assert(trace_of(
        shape,
        mode,
        Stage::Done(Outcome::Finished { guest_ok, reattach: Reattach::HadError }),
    ) =~= tail);
}

} // verus!
