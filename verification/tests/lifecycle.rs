use vm_launch::context::builder::ContextBuilder;
use vm_launch::context::Context;
use vm_launch::runner::stages::Stage;
use vm_launch::runner::{
    command_for, detach_devices, pat_dealloc, reattach_devices, run, shape_of, Action, Mode,
    Outcome, Reattach, Run, Shape,
};

fn plan(devices: &[&str], drivers: Option<Vec<&str>>, pat: &[&str], governor: bool, glass: bool) -> Context {
    let mut b = ContextBuilder::new();
    for d in devices {
        b.pci_device(d);
    }
    if let Some(drivers) = drivers {
        b.unloaded_drivers(drivers);
    }
    for p in pat {
        b.pat_dealloc(p);
    }
    if governor {
        b.cpu_governor("performance");
    }
    if glass {
        b.looking_glass(1000, 1000);
    }
    b.build()
}

/// Performs the run; an action fails if it is in `fails`.
fn drive(run: &mut Run, fails: &[Action]) -> Vec<Action> {
    let mut issued = Vec::new();
    let mut ok = true;
    let mut steps = 0;
    loop {
        steps += 1;
        assert!(steps < 1000);
        match run.advance(ok) {
            Some(action) => {
                ok = !fails.contains(&action);
                issued.push(action);
            }
            None => break,
        }
    }
    issued
}

fn lines(ctx: &Context, actions: &[Action]) -> Vec<String> {
    actions
        .iter()
        .filter_map(|a| command_for(ctx, *a))
        .map(|c| format!("{} {}", c.program, c.args.join(" ")))
        .collect()
}

#[test]
fn rebind_failure_on_second_device_is_reported_and_both_are_rebound() {
    let ctx = plan(&["0000:01:00.0", "0000:01:00.1"], None, &[], false, false);
    let mut r = run(&ctx, false);
    let issued = drive(&mut r, &[Action::RebindPci(1)]);
    assert_eq!(
        issued,
        vec![
            Action::IgnoreSigint,
            Action::UnbindPci(0),
            Action::UnbindPci(1),
            Action::RunQemu,
            Action::RebindPci(0),
            Action::RebindPci(1),
        ]
    );
    let outcome = r.outcome().unwrap();
    assert_eq!(outcome, Outcome::Finished { guest_ok: true, reattach: Reattach::HadError });
    assert!(!outcome.success());
    assert_eq!(
        lines(&ctx, &issued[4..]),
        vec!["virsh nodedev-reattach pci_0000_01_00_0", "virsh nodedev-reattach pci_0000_01_00_1"]
    );
}

#[test]
fn single_driver_is_unloaded_before_and_reloaded_once_after() {
    let ctx = plan(&[], Some(vec!["nvidia"]), &[], false, false);
    let mut r = run(&ctx, false);
    let issued = drive(&mut r, &[]);
    assert_eq!(
        issued,
        vec![Action::IgnoreSigint, Action::UnloadDrivers, Action::RunQemu, Action::LoadDrivers]
    );
    assert_eq!(
        lines(&ctx, &issued),
        vec!["modprobe -r nvidia", "qemu-system-x86_64 -nodefaults -enable-kvm -mon chardev=char0,mode=readline -chardev stdio,id=char0,mux=on -m 4G -vga none -display none -nic none", "modprobe nvidia"]
    );
    assert_eq!(
        r.outcome(),
        Some(Outcome::Finished { guest_ok: true, reattach: Reattach::Clean })
    );
    assert!(r.outcome().unwrap().success());
}

#[test]
fn failed_unbind_rebinds_earlier_devices_in_order() {
    let ctx = plan(&["a", "b", "c", "d"], Some(vec!["drv"]), &["a"], true, true);
    let mut r = run(&ctx, false);
    let issued = drive(&mut r, &[Action::UnbindPci(2), Action::RebindPci(0)]);
    assert_eq!(
        issued,
        vec![
            Action::SetGovernor,
            Action::CreateTmpFile(0),
            Action::IgnoreSigint,
            Action::UnloadDrivers,
            Action::UnbindPci(0),
            Action::UnbindPci(1),
            Action::UnbindPci(2),
            Action::RebindPci(0),
            Action::RebindPci(1),
            Action::LoadDrivers,
        ]
    );
    assert_eq!(r.outcome(), Some(Outcome::UnbindFailed(2)));
    assert!(!r.outcome().unwrap().success());
}

#[test]
fn failed_unbind_of_first_device_still_reloads_drivers() {
    let ctx = plan(&["a", "b"], Some(vec!["drv"]), &[], false, false);
    let mut r = detach_devices(&ctx);
    let issued = drive(&mut r, &[Action::UnbindPci(0)]);
    assert_eq!(issued, vec![Action::UnloadDrivers, Action::UnbindPci(0), Action::LoadDrivers]);
    assert_eq!(r.outcome(), Some(Outcome::UnbindFailed(0)));
}

#[test]
fn failed_unload_is_undone_and_no_device_is_touched() {
    let ctx = plan(&["a", "b"], Some(vec!["drv"]), &["a"], false, false);
    let mut r = run(&ctx, false);
    let issued = drive(&mut r, &[Action::UnloadDrivers]);
    assert_eq!(issued, vec![Action::IgnoreSigint, Action::UnloadDrivers, Action::LoadDrivers]);
    assert_eq!(r.outcome(), Some(Outcome::UnloadFailed));
    assert!(!r.outcome().unwrap().success());
}

#[test]
fn governor_failure_ends_the_run_before_anything_else() {
    let ctx = plan(&["a"], Some(vec!["drv"]), &[], true, true);
    let mut r = run(&ctx, false);
    let issued = drive(&mut r, &[Action::SetGovernor]);
    assert_eq!(issued, vec![Action::SetGovernor]);
    assert_eq!(r.outcome(), Some(Outcome::GovernorFailed));
    assert_eq!(lines(&ctx, &issued), vec!["cpupower frequency-set -g performance"]);
}

#[test]
fn file_failure_ends_the_run_before_detach() {
    let ctx = plan(&["a"], Some(vec!["drv"]), &[], true, true);
    let mut r = run(&ctx, false);
    let issued = drive(&mut r, &[Action::CreateTmpFile(0)]);
    assert_eq!(issued, vec![Action::SetGovernor, Action::CreateTmpFile(0)]);
    assert_eq!(r.outcome(), Some(Outcome::TmpFileFailed(0)));
    assert!(!r.outcome().unwrap().success());
}

#[test]
fn signal_setup_failure_is_not_fatal() {
    let ctx = plan(&[], None, &[], false, false);
    let mut r = run(&ctx, false);
    let issued = drive(&mut r, &[Action::IgnoreSigint]);
    assert_eq!(issued, vec![Action::IgnoreSigint, Action::RunQemu]);
    assert!(r.outcome().unwrap().success());
}

#[test]
fn guest_failure_does_not_prevent_reattach() {
    let ctx = plan(&["a", "b"], Some(vec!["drv"]), &["a"], false, false);
    let mut r = run(&ctx, false);
    let issued = drive(&mut r, &[Action::RunQemu]);
    assert_eq!(
        issued,
        vec![
            Action::IgnoreSigint,
            Action::UnloadDrivers,
            Action::UnbindPci(0),
            Action::UnbindPci(1),
            Action::ClearPat(0),
            Action::RunQemu,
            Action::ClearPat(0),
            Action::RebindPci(0),
            Action::RebindPci(1),
            Action::LoadDrivers,
        ]
    );
    let outcome = r.outcome().unwrap();
    assert_eq!(outcome, Outcome::Finished { guest_ok: false, reattach: Reattach::Clean });
    assert!(outcome.success());
}

#[test]
fn skip_attach_leaves_devices_with_the_guest() {
    let ctx = plan(&["a"], Some(vec!["drv"]), &["a"], false, false);
    let mut r = run(&ctx, true);
    let issued = drive(&mut r, &[]);
    assert_eq!(
        issued,
        vec![
            Action::IgnoreSigint,
            Action::UnloadDrivers,
            Action::UnbindPci(0),
            Action::ClearPat(0),
            Action::RunQemu,
        ]
    );
    assert_eq!(
        r.outcome(),
        Some(Outcome::Finished { guest_ok: true, reattach: Reattach::Skipped })
    );
}

#[test]
fn pat_clear_failures_are_ignored() {
    let ctx = plan(&["a"], None, &["x", "y"], false, false);
    let mut r = run(&ctx, false);
    let issued = drive(&mut r, &[Action::ClearPat(0), Action::ClearPat(1)]);
    assert_eq!(
        issued,
        vec![
            Action::IgnoreSigint,
            Action::UnbindPci(0),
            Action::ClearPat(0),
            Action::ClearPat(1),
            Action::RunQemu,
            Action::ClearPat(0),
            Action::ClearPat(1),
            Action::RebindPci(0),
        ]
    );
    assert_eq!(
        r.outcome(),
        Some(Outcome::Finished { guest_ok: true, reattach: Reattach::Clean })
    );
}

#[test]
fn reload_failure_makes_reattach_unclean() {
    let ctx = plan(&["a"], Some(vec!["drv"]), &[], false, false);
    let mut r = reattach_devices(&ctx);
    let issued = drive(&mut r, &[Action::LoadDrivers]);
    assert_eq!(issued, vec![Action::RebindPci(0), Action::LoadDrivers]);
    assert_eq!(r.outcome(), Some(Outcome::Reattached { clean: false }));
    assert!(!r.outcome().unwrap().success());
}

#[test]
fn nothing_declared_means_no_tool_is_called() {
    let ctx = plan(&[], None, &[], false, false);
    let mut d = detach_devices(&ctx);
    assert_eq!(drive(&mut d, &[]), vec![]);
    assert_eq!(d.outcome(), Some(Outcome::Detached));
    assert!(d.outcome().unwrap().success());
    let mut a = reattach_devices(&ctx);
    assert_eq!(drive(&mut a, &[]), vec![]);
    assert_eq!(a.outcome(), Some(Outcome::Reattached { clean: true }));

    let empty_drivers = plan(&[], Some(vec![]), &[], false, false);
    let mut d = detach_devices(&empty_drivers);
    assert_eq!(drive(&mut d, &[]), vec![]);
    assert_eq!(d.outcome(), Some(Outcome::Detached));
}

#[test]
fn detach_and_attach_alone() {
    let ctx = plan(&["0000:01:00.0"], Some(vec!["nvidia_drm", "nvidia"]), &["0000:01:00.0"], true, true);
    let mut d = detach_devices(&ctx);
    let issued = drive(&mut d, &[]);
    assert_eq!(issued, vec![Action::UnloadDrivers, Action::UnbindPci(0), Action::ClearPat(0)]);
    assert_eq!(
        lines(&ctx, &issued),
        vec![
            "modprobe -r nvidia_drm nvidia",
            "virsh nodedev-detach pci_0000_01_00_0",
            "pat-dealloc pci --load --address 0000:01:00.0",
        ]
    );
    let mut a = reattach_devices(&ctx);
    let issued = drive(&mut a, &[]);
    assert_eq!(issued, vec![Action::ClearPat(0), Action::RebindPci(0), Action::LoadDrivers]);
    assert_eq!(a.outcome(), Some(Outcome::Reattached { clean: true }));
}

#[test]
fn reload_is_asked_for_exactly_when_unload_was() {
    for drivers in [None, Some(vec!["drv"])] {
        for fail in [None, Some(Action::UnloadDrivers), Some(Action::UnbindPci(0)), Some(Action::UnbindPci(1)), Some(Action::RunQemu), Some(Action::RebindPci(0))] {
            let ctx = plan(&["a", "b"], drivers.clone(), &["a"], false, false);
            let mut r = run(&ctx, false);
            let fails: Vec<Action> = fail.into_iter().collect();
            let issued = drive(&mut r, &fails);
            let unloads = issued.iter().filter(|a| **a == Action::UnloadDrivers).count();
            let loads = issued.iter().filter(|a| **a == Action::LoadDrivers).count();
            assert_eq!(unloads, loads);
            assert_eq!(unloads, if drivers.is_some() { 1 } else { 0 });
        }
    }
}

#[test]
fn run_starts_idle_with_the_shape_of_the_plan() {
    let ctx = plan(&["a", "b"], Some(vec!["drv"]), &["a"], true, true);
    let shape = shape_of(&ctx);
    assert_eq!(shape, Shape { governor: true, files: 1, drivers: true, pci: 2, pat: 1 });
    let r = run(&ctx, true);
    assert_eq!(r.stage, Stage::Idle);
    assert_eq!(r.mode, Mode::Full { skip_attach: true });
    assert_eq!(r.waits_on(), None);
    assert_eq!(r.outcome(), None);
    let r = Run::new(shape, Mode::DetachOnly);
    assert_eq!(r.shape, shape);
}

#[test]
fn pat_dealloc_gives_one_command_per_address() {
    let cmds = pat_dealloc(&["0000:01:00.0".to_string(), "0000:05:00.0".to_string()]);
    assert_eq!(cmds.len(), 2);
    assert_eq!(cmds[0].program, "pat-dealloc");
    assert_eq!(cmds[0].args, vec!["pci", "--load", "--address", "0000:01:00.0"]);
    assert_eq!(cmds[1].args, vec!["pci", "--load", "--address", "0000:05:00.0"]);
    assert!(pat_dealloc(&[]).is_empty());
}

#[test]
fn stale_file_is_removed_before_the_file_is_created() {
    let ctx = plan(&[], None, &[], false, true);
    let file = &ctx.tmp_files[0];
    assert_eq!(file.path, "/dev/shm/looking-glass");
    let steps = vm_launch::runner::files::file_steps(file);
    assert_eq!(
        steps,
        vec![
            vm_launch::runner::files::FileStep::Remove,
            vm_launch::runner::files::FileStep::Create,
            vm_launch::runner::files::FileStep::Chown { uid: 1000, gid: 1000 },
            vm_launch::runner::files::FileStep::Chmod { mode: 0o644 },
        ]
    );
    assert!(!vm_launch::runner::files::is_fatal(steps[0]));
    assert!(vm_launch::runner::files::is_fatal(steps[1]));
    assert!(vm_launch::runner::files::is_fatal(steps[2]));
    assert!(vm_launch::runner::files::is_fatal(steps[3]));
}
