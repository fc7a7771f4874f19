use vm_launch::cli::{Cpu, Graphics, Options, Profile};
use vm_launch::config::configure;
use vm_launch::context::builder::ContextBuilder;
use vm_launch::context::sections::{add_usb_device, file_mode};
use vm_launch::context::smbios::{HostBios, HostTables, SmBiosMap};
use vm_launch::context::{AudioDirection, IntelHdaType, SmBiosType, UsbDevice, Vga};
use vm_launch::text::{decimal, lower_hex, replace_chars};
use vm_launch::util::{ArgWriter, EnvWriter, TmpFileWriter};

fn strs(v: &[&str]) -> Vec<String> {
    v.iter().map(|s| s.to_string()).collect()
}

fn position(args: &[String], needle: &str) -> usize {
    args.iter().position(|a| a == needle).unwrap()
}

#[test]
fn default_builder_gives_minimal_plan() {
    let ctx = ContextBuilder::new().build();
    assert_eq!(
        ctx.args,
        strs(&[
            "-nodefaults",
            "-enable-kvm",
            "-mon",
            "chardev=char0,mode=readline",
            "-chardev",
            "stdio,id=char0,mux=on",
            "-m",
            "4G",
            "-vga",
            "none",
            "-display",
            "none",
            "-nic",
            "none",
        ])
    );
    assert!(ctx.env.is_empty());
    assert!(ctx.pci.is_empty());
    assert!(ctx.pat_dealloc.is_empty());
    assert!(ctx.unload_drivers.is_none());
    assert!(ctx.tmp_files.is_empty());
    assert!(ctx.cpu_affinity.is_none());
    assert!(ctx.cpu_governor.is_none());
}

#[test]
fn sections_follow_the_fixed_order() {
    let mut b = ContextBuilder::new();
    // set in an order that differs from the order of the sections
    b.spice_agent();
    b.spice_kvm();
    b.looking_glass(1000, 1001);
    b.usb_device(0x046d, 0xc52b);
    b.raw_disk("/dev/sda");
    b.pci_device("0000:01:00.0");
    b.user_networking();
    b.intel_hda_ich9(IntelHdaType::Micro);
    b.pipewire("/run/user/1000");
    b.window();
    b.vga(Vga::Virtio);
    b.smbios(SmBiosType::OemStrings, vec![("value".to_string(), "a,b".to_string())]);
    b.ovmf_bios("/usr/share/edk2/x64/OVMF.4m.fd");
    b.ram("16G");
    b.smp("cores=4");
    b.cpu("host");
    let ctx = b.build();
    assert_eq!(
        ctx.args,
        strs(&[
            "-nodefaults",
            "-enable-kvm",
            "-mon",
            "chardev=char0,mode=readline",
            "-chardev",
            "stdio,id=char0,mux=on",
            "-cpu",
            "host",
            "-smp",
            "cores=4",
            "-m",
            "16G",
            "-L",
            "/usr/share/edk2/x64",
            "-bios",
            "/usr/share/edk2/x64/OVMF.4m.fd",
            "-smbios",
            "type=11,value=a,,b",
            "-vga",
            "virtio",
            "-display",
            "gtk",
            "-audiodev",
            "pipewire,id=snd",
            "-device",
            "ich9-intel-hda",
            "-device",
            "hda-micro,audiodev=snd,mixer=off",
            "-nic",
            "model=e1000",
            "-device",
            "vfio-pci,host=0000:01:00.0",
            "-drive",
            "file=/dev/sda,format=raw,media=disk",
            "-usb",
            "-device",
            "usb-host,vendorid=0x46d,productid=0xc52b",
            "-device",
            "ivshmem-plain,memdev=ivshmem,bus=pci.0",
            "-object",
            "memory-backend-file,id=ivshmem,share=on,mem-path=/dev/shm/looking-glass,size=32M",
            "-spice",
            "port=5900,disable-ticketing=on",
            "-device",
            "virtio-keyboard-pci",
            "-device",
            "virtio-mouse-pci",
            "-device",
            "virtio-serial-pci",
            "-chardev",
            "spicevmc,id=vdagent,name=vdagent",
            "-device",
            "virtserialport,chardev=vdagent,name=com.redhat.spice.0",
        ])
    );
    assert_eq!(
        ctx.env,
        vec![
            ("PIPEWIRE_RUNTIME_DIR".to_string(), "/run/user/1000".to_string()),
            ("PIPEWIRE_LATENCY".to_string(), "512/48000".to_string()),
        ]
    );
}

#[test]
fn order_of_setters_does_not_matter() {
    let mut a = ContextBuilder::new();
    a.ram("8G").vga(Vga::Qxl).spice_audio().usb_audio().cpu("host");
    let mut b = ContextBuilder::new();
    b.cpu("host").usb_audio().spice_audio().vga(Vga::Qxl).ram("8G");
    let x = a.build();
    let y = b.build();
    assert_eq!(x.args, y.args);
    assert_eq!(x.env, y.env);
    assert!(position(&x.args, "-audiodev") < position(&x.args, "qemu-xhci"));
    assert!(position(&x.args, "-m") < position(&x.args, "-vga"));
}

#[test]
fn last_scalar_setting_wins() {
    let mut b = ContextBuilder::new();
    b.ram("8G").ram("20G").vga(Vga::Standard).vga(Vga::Qxl);
    let ctx = b.build();
    let m = position(&ctx.args, "-m");
    assert_eq!(ctx.args[m + 1], "20G");
    assert_eq!(ctx.args.iter().filter(|a| *a == "-m").count(), 1);
    let v = position(&ctx.args, "-vga");
    assert_eq!(ctx.args[v + 1], "qxl");
}

#[test]
fn list_facets_keep_call_order() {
    let mut b = ContextBuilder::new();
    b.pci_device("0000:05:00.0").pci_device("0000:01:00.0");
    b.virtio_disk("/dev/b").raw_disk("/dev/a");
    b.usb_tablet().usb_device(1, 0xffff);
    b.pat_dealloc("0000:01:00.0").pat_dealloc("0000:05:00.0");
    let ctx = b.build();
    assert_eq!(ctx.pci, strs(&["0000:05:00.0", "0000:01:00.0"]));
    assert_eq!(ctx.pat_dealloc, strs(&["0000:01:00.0", "0000:05:00.0"]));
    let tail: Vec<String> = ctx.args[ctx.args.len() - 13..].to_vec();
    assert_eq!(
        tail,
        strs(&[
            "-device",
            "vfio-pci,host=0000:05:00.0",
            "-device",
            "vfio-pci,host=0000:01:00.0",
            "-drive",
            "file=/dev/b,format=raw,if=virtio",
            "-drive",
            "file=/dev/a,format=raw,media=disk",
            "-usb",
            "-device",
            "usb-tablet",
            "-device",
            "usb-host,vendorid=0x1,productid=0xffff",
        ])
    );
}

#[test]
fn building_twice_gives_identical_plans() {
    let make = || {
        let mut b = ContextBuilder::new();
        b.cpu("host").pipewire("/run/user/1000").intel_hda(IntelHdaType::Duplex);
        b.smbios_auto(HostTables::unavailable());
        b.looking_glass(1000, 1000).pci_device("0000:01:00.0");
        b.unloaded_drivers(vec!["nvidia"]);
        b
    };
    let x = make().build();
    let y = make().build();
    assert_eq!(x.args, y.args);
    assert_eq!(x.env, y.env);
    assert_eq!(x.pci, y.pci);
    assert_eq!(x.unload_drivers, y.unload_drivers);
}

#[test]
fn audio_backend_and_frontend_are_independent() {
    let mut only_front = ContextBuilder::new();
    only_front.intel_hda(IntelHdaType::Output);
    let ctx = only_front.build();
    assert!(!ctx.args.contains(&"-audiodev".to_string()));
    let i = position(&ctx.args, "intel-hda");
    assert_eq!(ctx.args[i + 2], "hda-output,audiodev=snd,mixer=off");

    let mut only_back = ContextBuilder::new();
    only_back.spice_audio();
    let ctx = only_back.build();
    let i = position(&ctx.args, "-audiodev");
    assert_eq!(ctx.args[i + 1], "spice,id=snd");
    assert!(ctx.env.is_empty());
}

#[test]
fn looking_glass_requests_its_file_and_device_together() {
    let mut b = ContextBuilder::new();
    b.looking_glass(1000, 985);
    let ctx = b.build();
    assert_eq!(ctx.tmp_files.len(), 1);
    let f = &ctx.tmp_files[0];
    assert_eq!(f.path, "/dev/shm/looking-glass");
    assert_eq!(f.uid, 1000);
    assert_eq!(f.gid, 985);
    assert_eq!(f.mode, 0o644);
    let i = position(&ctx.args, "ivshmem-plain,memdev=ivshmem,bus=pci.0");
    assert_eq!(ctx.args[i - 1], "-device");
    assert_eq!(ctx.args[i + 1], "-object");
    assert_eq!(
        ctx.args[i + 2],
        "memory-backend-file,id=ivshmem,share=on,mem-path=/dev/shm/looking-glass,size=32M"
    );

    let none = ContextBuilder::new().build();
    assert!(none.tmp_files.is_empty());
    assert!(!none.args.contains(&"-object".to_string()));
}

#[test]
fn file_mode_keeps_permission_bits_only() {
    assert_eq!(file_mode(0o644), 0o644);
    assert_eq!(file_mode(0o100644), 0o644);
    assert_eq!(file_mode(0o7777), 0o7777);
    assert_eq!(file_mode(0o170000), 0);
}

#[test]
fn firmware_without_directory_cannot_be_built() {
    let mut b = ContextBuilder::new();
    b.ovmf_bios("/");
    assert!(!b.is_buildable());
    assert!(b.try_build().is_none());

    let mut b = ContextBuilder::new();
    b.ovmf_bios("");
    assert!(b.try_build().is_none());

    let mut b = ContextBuilder::new();
    b.ovmf_bios("OVMF.fd");
    let ctx = b.try_build().unwrap();
    let i = position(&ctx.args, "-L");
    assert_eq!(ctx.args[i + 1], "");
    assert_eq!(ctx.args[i + 3], "OVMF.fd");

    let mut b = ContextBuilder::new();
    b.ovmf_bios("/firmware/OVMF.fd");
    assert!(b.is_buildable());
    let ctx = b.try_build().unwrap();
    let i = position(&ctx.args, "-L");
    assert_eq!(ctx.args[i + 1], "/firmware");
    assert_eq!(ctx.args[i + 2], "-bios");
    assert_eq!(ctx.args[i + 3], "/firmware/OVMF.fd");
}

#[test]
fn smbios_defaults_without_host_tables() {
    let mut b = ContextBuilder::new();
    b.smbios_auto(HostTables::unavailable());
    let ctx = b.build();
    let lines: Vec<String> = ctx
        .args
        .iter()
        .enumerate()
        .filter(|(i, _)| *i > 0 && ctx.args[*i - 1] == "-smbios")
        .map(|(_, a)| a.clone())
        .collect();
    assert_eq!(
        lines,
        strs(&[
            "type=0,version=F31o,vendor=American Megatrends International,, LLC.,uefi=on,release=5.17,date=12/03/2020",
            "type=1,version=-CF,sku=Default string,product=X570 AORUS ULTRA,manufacturer=Gigabyte Technology Co.,, Ltd.,uuid=3137f3a5-8fa3-41a4-87f5-aadd00ab066f,serial=Default string,family=X570 MB",
            "type=2,asset=Default string,version=Default string,product=X570 AORUS ULTRA,location=Default string,manufacturer=Gigabyte Technology Co.,, Ltd.,serial=Default string",
            "type=3,asset=Default string,version=Default string,sku=Default string,manufacturer=Default string,serial=Default string",
            "type=4,asset=Unknown,version=AMD Ryzen 9 5950X 16-Core Processor,part=Zen,manufacturer=Advanced Micro Devices,, Inc.,serial=Unknown,sock_pfx=AM4",
            "type=11,value=Default string",
            "type=17,bank=Bank 0,asset=Not Specified,part=OV_8GR1,manufacturer=OEM_VENDOR,speed=3200,serial=OEM33162,loc_pfx=DIMM 0",
        ])
    );
}

#[test]
fn smbios_takes_host_fields_and_overrides() {
    let host = HostTables {
        bios: Some(HostBios {
            version: Some("1.2".to_string()),
            vendor: None,
            release_major: Some(2),
            release_minor: None,
            date: Some("01/01/2024".to_string()),
        }),
        system: None,
        baseboard: None,
        processor: None,
        memory_device: None,
    };
    let mut b = ContextBuilder::new();
    b.smbios_auto(host);
    b.smbios(
        SmBiosType::BiosInformation,
        vec![
            ("vendor".to_string(), "ACME".to_string()),
            ("extra".to_string(), "x".to_string()),
        ],
    );
    let ctx = b.build();
    let i = position(&ctx.args, "-smbios");
    assert_eq!(
        ctx.args[i + 1],
        "type=0,version=1.2,vendor=ACME,uefi=on,release=2.17,date=01/01/2024,extra=x"
    );
}

#[test]
fn smbios_map_sets_fields_in_place() {
    let mut m = SmBiosMap::new();
    m.add_field(SmBiosType::MemoryDevice, "speed", "3200");
    m.add_field(SmBiosType::MemoryDevice, "bank", "0");
    m.add_field(SmBiosType::MemoryDevice, "speed", "2400");
    assert_eq!(
        m.memory_device,
        Some(vec![
            ("speed".to_string(), "2400".to_string()),
            ("bank".to_string(), "0".to_string()),
        ])
    );
    assert!(m.bios.is_none());
    m.add_fields(SmBiosType::BiosInformation, vec![]);
    assert_eq!(m.bios, Some(vec![]));
}

#[test]
fn usb_device_ids_are_written_in_hex() {
    let mut w = ArgWriter::new();
    add_usb_device(&mut w, &UsbDevice::HostVidPid { vendor: 0, product: 0xabcd });
    add_usb_device(&mut w, &UsbDevice::Device("usb-kbd".to_string()));
    assert_eq!(
        w.get_args(),
        strs(&["-device", "usb-host,vendorid=0x0,productid=0xabcd", "-device", "usb-kbd"])
    );
}

#[test]
fn numbers_are_formatted_without_padding() {
    assert_eq!(decimal(0), "0");
    assert_eq!(decimal(17), "17");
    assert_eq!(decimal(255), "255");
    assert_eq!(decimal(4294967295), "4294967295");
    assert_eq!(lower_hex(0), "0");
    assert_eq!(lower_hex(0x46d), "46d");
    assert_eq!(lower_hex(0xffff), "ffff");
    assert_eq!(lower_hex(16), "10");
}

#[test]
fn characters_are_replaced_one_by_one() {
    assert_eq!(replace_chars("a,b,,c", ',', ',', ",,"), "a,,b,,,,c");
    assert_eq!(replace_chars("", '.', ':', "_"), "");
    assert_eq!(replace_chars("0000:01:00.0", '.', ':', "_"), "0000_01_00_0");
    assert_eq!(replace_chars("äö.ü", '.', ':', "_"), "äö_ü");
}

#[test]
fn device_names_of_codecs() {
    assert_eq!(IntelHdaType::Output.device_name(), "hda-output");
    assert_eq!(IntelHdaType::Duplex.device_name(), "hda-duplex");
    assert_eq!(IntelHdaType::Micro.device_name(), "hda-micro");
    assert_eq!(AudioDirection::Output.device_name(), "hda-output");
    assert_eq!(AudioDirection::Duplex.device_name(), "hda-duplex");
    assert_eq!(SmBiosType::OemStrings.number(), 11);
    assert_eq!(SmBiosType::MemoryDevice.number(), 17);
    assert_eq!(SmBiosType::BiosInformation.number(), 0);
}

#[test]
fn writers_collect_in_order() {
    let mut w = ArgWriter::new();
    w.add("a").add_many(vec!["b", "c"]).add("d");
    assert_eq!(w.get_args(), strs(&["a", "b", "c", "d"]));

    let mut e = EnvWriter::new();
    assert!(!e.contains_key("A"));
    e.add("A", "1").add("B", "2");
    assert!(e.contains_key("A"));
    assert!(e.contains_key("B"));
    assert!(!e.contains_key("C"));
    assert_eq!(
        e.get_envs(),
        vec![("A".to_string(), "1".to_string()), ("B".to_string(), "2".to_string())]
    );

    let mut t = TmpFileWriter::new();
    t.add("/tmp/x", 1, 2, 0o600);
    let files = t.get_tmp_files();
    assert_eq!(files.len(), 1);
    assert_eq!(files[0].path, "/tmp/x");
    assert_eq!((files[0].uid, files[0].gid, files[0].mode), (1, 2, 0o600));
}

#[test]
fn configure_selects_the_passthrough_game_machine() {
    let mut b = ContextBuilder::new();
    let options = Options {
        profile: Profile::Game,
        cpu: Cpu::Full,
        graphics: Graphics::Passthrough,
        window: false,
    };
    configure(&mut b, &options, HostTables::unavailable());
    let ctx = b.build();
    assert_eq!(ctx.pci, strs(&["0000:01:00.0", "0000:01:00.1", "0000:05:00.0"]));
    assert_eq!(
        ctx.unload_drivers,
        Some(strs(&["nvidia_drm", "nvidia_uvm", "nvidia_modeset", "nvidia"]))
    );
    assert_eq!(ctx.cpu_affinity, Some("0-5,8-13".to_string()));
    assert_eq!(ctx.cpu_governor, Some("performance".to_string()));
    let m = position(&ctx.args, "-m");
    assert_eq!(ctx.args[m + 1], "20G");
    let v = position(&ctx.args, "-vga");
    assert_eq!(ctx.args[v + 1], "none");
    assert!(ctx.args.contains(&"file=/dev/disk/by-id/wwn-0x5002538d411f8d4e,format=raw,if=virtio".to_string()));
    assert!(ctx.args.contains(&"hda-output,audiodev=snd,mixer=off".to_string()));
    assert!(!ctx.args.contains(&"-usb".to_string()));
    assert_eq!(ctx.tmp_files.len(), 1);
}

#[test]
fn configure_selects_the_virtual_work_machine() {
    let mut b = ContextBuilder::new();
    let options = Options {
        profile: Profile::Work,
        cpu: Cpu::Slim,
        graphics: Graphics::Virtual,
        window: true,
    };
    configure(&mut b, &options, HostTables::unavailable());
    let ctx = b.build();
    assert!(ctx.pci.is_empty());
    assert!(ctx.unload_drivers.is_none());
    assert_eq!(ctx.cpu_affinity, Some("0-1,8-9".to_string()));
    let m = position(&ctx.args, "-m");
    assert_eq!(ctx.args[m + 1], "8G");
    let v = position(&ctx.args, "-vga");
    assert_eq!(ctx.args[v + 1], "qxl");
    let d = position(&ctx.args, "-display");
    assert_eq!(ctx.args[d + 1], "gtk");
    let u = position(&ctx.args, "-usb");
    assert_eq!(ctx.args[u + 2], "usb-tablet");
    assert!(ctx.args.contains(&"hda-duplex,audiodev=snd,mixer=off".to_string()));
    assert!(ctx.args.contains(&"file=/dev/disk/by-id/wwn-0x5002538e4114386e,format=raw,if=virtio".to_string()));
}
