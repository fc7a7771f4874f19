//! The machines that the command line can select.

use vstd::prelude::*;
use crate::cli::{Cpu, Graphics, Options, Profile};
use crate::context::{Context, AudioBackendModel, AudioFrontend, IntelHdaType, LookingGlass, Networking,
    Spice, SpiceAgent, UsbDeviceModel, DiskModel, Vga, Window};
use crate::context::builder::{BuilderModel, ContextBuilder};
use crate::context::smbios::{HostTables, populated};
use crate::text::str_views;

verus! {

pub const PCI_GPU: &'static str = "0000:01:00.0";

pub const PCI_GPU_AUDIO: &'static str = "0000:01:00.1";

pub const PCI_USB: &'static str = "0000:05:00.0";

/// The drivers of the graphics card, in the order in which they are
/// unloaded.
pub open spec fn gpu_drivers() -> Seq<Seq<char>> {
    seq!["nvidia_drm"@, "nvidia_uvm"@, "nvidia_modeset"@, "nvidia"@]
}

/// What every machine of this host has.
pub open spec fn with_base(m: BuilderModel, host: HostTables) -> BuilderModel {
    BuilderModel {
        cpu: Some(
            "host,topoext,kvm=off,hv_frequencies,hv_time,hv_relaxed,hv_vapic,hv_spinlocks=0x1fff,hv_vendor_id=thisisnotavm"@,
        ),
        cpu_governor: Some("performance"@),
        bios_type: Some("/usr/share/edk2/x64/OVMF.4m.fd"@),
        smbios: populated(m.smbios, host),
        audio_backend: AudioBackendModel::Spice,
        networking: Networking::VirtioUser,
        looking_glass: LookingGlass::Yes(1000, 1000),
        spice: Spice::Yes,
        spice_agent: SpiceAgent::Yes,
        ..m
    }
}

/// With a window, the machine also gets a tablet as pointing device.
pub open spec fn with_window(m: BuilderModel, window: bool) -> BuilderModel {
    if window {
        BuilderModel {
            window: Window::Gtk,
            usb: m.usb.push(UsbDeviceModel::Device("usb-tablet"@)),
            ..m
        }
    } else {
        m
    }
}

/// Memory, cores and the CPUs of the host that run them.
pub open spec fn with_cpu(m: BuilderModel, cpu: Cpu) -> BuilderModel {
    match cpu {
        Cpu::Full => BuilderModel {
            ram: "20G"@,
            smp: Some("sockets=1,cores=6,threads=2"@),
            cpu_affinity: Some("0-5,8-13"@),
            ..m
        },
        Cpu::Slim => BuilderModel {
            ram: "8G"@,
            smp: Some("sockets=1,cores=2,threads=2"@),
            cpu_affinity: Some("0-1,8-9"@),
            ..m
        },
    }
}

/// An emulated adapter, or the graphics card of the host with its sound
/// function and its drivers.
pub open spec fn with_graphics(m: BuilderModel, graphics: Graphics) -> BuilderModel {
    match graphics {
        Graphics::Virtual => BuilderModel { vga: Vga::Qxl, ..m },
        Graphics::Passthrough => BuilderModel {
            pci: m.pci.push(PCI_GPU@).push(PCI_GPU_AUDIO@),
            unload_drivers: Some(gpu_drivers()),
            ..m
        },
    }
}

/// The disk and the sound card of the profile; for games also the USB
/// controller of the host.
pub open spec fn with_profile(m: BuilderModel, profile: Profile) -> BuilderModel {
    match profile {
        Profile::Game => BuilderModel {
            disks: m.disks.push(DiskModel::Virtio("/dev/disk/by-id/wwn-0x5002538d411f8d4e"@)),
            audio_frontend: AudioFrontend::IntelHda(IntelHdaType::Output),
            pci: m.pci.push(PCI_USB@),
            ..m
        },
        Profile::Work => BuilderModel {
            disks: m.disks.push(DiskModel::Virtio("/dev/disk/by-id/wwn-0x5002538e4114386e"@)),
            audio_frontend: AudioFrontend::IntelHda(IntelHdaType::Duplex),
            ..m
        },
    }
}

/// The machine that the options select, on top of the configuration `m`
/// and with the identity records of `host`.
pub open spec fn configured(m: BuilderModel, cli: Options, host: HostTables) -> BuilderModel {
    with_profile(
        with_graphics(with_cpu(with_window(with_base(m, host), cli.window), cli.cpu), cli.graphics),
        cli.profile,
    )
}

fn configure_base(config: &mut ContextBuilder, host: HostTables)
    ensures
        final(config)@ == with_base(old(config)@, host),
{
    config.cpu(
        "host,topoext,kvm=off,hv_frequencies,hv_time,hv_relaxed,hv_vapic,hv_spinlocks=0x1fff,hv_vendor_id=thisisnotavm",
    ).cpu_governor("performance").ovmf_bios("/usr/share/edk2/x64/OVMF.4m.fd").smbios_auto(host);
    config.spice_audio().vfio_user_networking().looking_glass(1000, 1000).spice_kvm().spice_agent();
}

fn configure_window(config: &mut ContextBuilder, window: bool)
    ensures
        final(config)@ == with_window(old(config)@, window),
{
    if window {
        config.window().usb_tablet();
    }
}

fn configure_cpu(config: &mut ContextBuilder, cpu: Cpu)
    ensures
        final(config)@ == with_cpu(old(config)@, cpu),
{
    match cpu {
        Cpu::Full => config.ram("20G").smp("sockets=1,cores=6,threads=2").cpu_affinity("0-5,8-13"),
        Cpu::Slim => config.ram("8G").smp("sockets=1,cores=2,threads=2").cpu_affinity("0-1,8-9"),
    };
}

fn configure_graphics(config: &mut ContextBuilder, graphics: Graphics)
    ensures
        final(config)@ == with_graphics(old(config)@, graphics),
{
    match graphics {
        Graphics::Virtual => {
            config.vga(Vga::Qxl);
        },
        Graphics::Passthrough => {
            let drivers = vec!["nvidia_drm", "nvidia_uvm", "nvidia_modeset", "nvidia"];
            assert(str_views(drivers@) =~= gpu_drivers());
            config.pci_device(PCI_GPU).pci_device(PCI_GPU_AUDIO).unloaded_drivers(drivers);
        },
    };
}

fn configure_profile(config: &mut ContextBuilder, profile: Profile)
    ensures
        final(config)@ == with_profile(old(config)@, profile),
{
    match profile {
        Profile::Game => {
            config.virtio_disk("/dev/disk/by-id/wwn-0x5002538d411f8d4e").intel_hda(
                IntelHdaType::Output,
            ).pci_device(PCI_USB);
        },
        Profile::Work => {
            config.virtio_disk("/dev/disk/by-id/wwn-0x5002538e4114386e").intel_hda(
                IntelHdaType::Duplex,
            );
        },
    };
}

/// Sets on the builder the machine that the options select, with the
/// identity records of `host`.
pub fn configure(config: &mut ContextBuilder, cli: &Options, host: HostTables)
    ensures
        final(config)@ == configured(old(config)@, *cli, host),
{
    configure_base(config, host);
    configure_window(config, cli.window);
    configure_cpu(config, cli.cpu);
    configure_graphics(config, cli.graphics);
    configure_profile(config, cli.profile);
}

/// The launch plan of the machine that the options select, or nothing
/// where its firmware image does not lie in a directory.
pub fn get_context(config: &Options, host: HostTables) -> (plan: Option<Context>)
    ensures
        plan is Some <==> configured(BuilderModel::initial(), *config, host).buildable(),
        plan is Some ==> plan->Some_0@ == configured(BuilderModel::initial(), *config, host).plan()
            && plan->Some_0.wf(),
{
    let mut builder = ContextBuilder::new();
    configure(&mut builder, config, host);
    builder.try_build()
}

} // verus!
