use vm_launch::context::builder::ContextBuilder;
use vm_launch::runner::util::{
    append_all, command, run_command, trim, CommandLine, ToolOutput,
};
use vm_launch::runner::{cpupower, modprobe, pat_dealloc, qemu, virsh};

fn strs(v: &[&str]) -> Vec<String> {
    v.iter().map(|s| s.to_string()).collect()
}

#[test]
fn pci_address_is_converted_for_virsh() {
    assert_eq!(virsh::convert_pci_address("0000:01:00.0"), "pci_0000_01_00_0");
    assert_eq!(virsh::convert_pci_address("0000:05:00.1"), "pci_0000_05_00_1");
    assert_eq!(virsh::convert_pci_address(""), "pci_");
    assert_eq!(virsh::convert_pci_address("abc"), "pci_abc");
}

#[test]
fn virsh_commands() {
    let c = virsh::unbind_pci("0000:01:00.0");
    assert_eq!(c.program, "virsh");
    assert_eq!(c.args, strs(&["nodedev-detach", "pci_0000_01_00_0"]));
    let c = virsh::rebind_pci("0000:01:00.1");
    assert_eq!(c.program, "virsh");
    assert_eq!(c.args, strs(&["nodedev-reattach", "pci_0000_01_00_1"]));
}

#[test]
fn modprobe_commands() {
    let drivers = strs(&["nvidia_drm", "nvidia"]);
    let c = modprobe::unload(&drivers);
    assert_eq!(c.program, "modprobe");
    assert_eq!(c.args, strs(&["-r", "nvidia_drm", "nvidia"]));
    let c = modprobe::load(&drivers);
    assert_eq!(c.program, "modprobe");
    assert_eq!(c.args, drivers);
    let c = modprobe::run_cmd(Some("-n"), &[]);
    assert_eq!(c.args, strs(&["-n"]));
}

#[test]
fn governor_and_pat_commands() {
    let c = cpupower::set_governor("performance");
    assert_eq!(c.program, "cpupower");
    assert_eq!(c.args, strs(&["frequency-set", "-g", "performance"]));
    let c = pat_dealloc::clear_pat("0000:01:00.0");
    assert_eq!(c.program, "pat-dealloc");
    assert_eq!(c.args, strs(&["pci", "--load", "--address", "0000:01:00.0"]));
}

#[test]
fn hypervisor_command_with_and_without_affinity() {
    let mut b = ContextBuilder::new();
    b.ram("8G");
    let ctx = b.build();
    let c = qemu::get_command(&ctx);
    assert_eq!(c.program, "qemu-system-x86_64");
    assert_eq!(c.args, ctx.args);

    let mut b = ContextBuilder::new();
    b.ram("8G").cpu_affinity("0-1,8-9");
    let ctx = b.build();
    let c = qemu::get_command(&ctx);
    assert_eq!(c.program, "taskset");
    assert_eq!(&c.args[..3], &strs(&["--cpu-list", "0-1,8-9", "qemu-system-x86_64"])[..]);
    assert_eq!(&c.args[3..], &ctx.args[..]);
}

#[test]
fn tool_failure_reason_holds_trimmed_stderr() {
    let cmd = command("virsh", vec!["nodedev-detach", "pci_0000_01_00_0"]);
    let ok = ToolOutput { success: true, stderr: Some("warning\n".to_string()) };
    assert_eq!(run_command(&cmd, &ok), Ok(()));
    let failed = ToolOutput { success: false, stderr: Some("  error: device busy \n\n".to_string()) };
    assert_eq!(
        run_command(&cmd, &failed),
        Err("virsh invocation failure: error: device busy".to_string())
    );
    let garbled = ToolOutput { success: false, stderr: None };
    assert_eq!(
        run_command(&cmd, &garbled),
        Err("virsh invocation failure: <conversion errror: stderr was not valid utf8>".to_string())
    );
}

#[test]
fn append_all_copies_in_order() {
    let mut dst = strs(&["a"]);
    append_all(&mut dst, &strs(&["b", "c"]));
    assert_eq!(dst, strs(&["a", "b", "c"]));
    let c: CommandLine = command("x", vec![]);
    assert_eq!(c.program, "x");
    assert!(c.args.is_empty());
}

#[test]
fn trim_removes_white_space_at_both_ends_only() {
    assert_eq!(trim(""), "");
    assert_eq!(trim("   "), "");
    assert_eq!(trim("a"), "a");
    assert_eq!(trim(" a b "), "a b");
    assert_eq!(trim("\t\r\n a\u{a0}b \u{3000}\u{2003}\u{85}"), "a\u{a0}b");
    assert_eq!(trim("\u{200b}x\u{200b}"), "\u{200b}x\u{200b}");
    for text in ["", " ", "x", "  x  y \n", "\u{1680}x\u{2028}\u{2029}\u{202f}\u{205f}", "\u{b}\u{c}x\u{1c}"] {
        assert_eq!(trim(text), text.trim());
    }
}
