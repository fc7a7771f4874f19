//! The builder that records the facets of a machine and compiles them
//! into a launch plan.

use vstd::prelude::*;
use vstd::string::*;
use crate::context::{
    AudioDirection, AudioBackend, AudioBackendModel, AudioFrontend, BiosType, Context, Disk, DiskModel,
    IntelHdaType, LookingGlass, Networking, Pair, SmBiosType, Spice, SpiceAgent, TmpFileModel,
    UsbDevice, UsbDeviceModel, Vga, Window, file_views, opt_view,
};
use crate::context::sections::{
    add_audio_backend, add_audio_frontend, add_bios, add_defaults, add_disks, add_looking_glass,
    add_monitor, add_networking, add_pci, add_smbios, add_spice, add_spice_agent, add_system,
    add_usb, add_vga, add_window, audio_backend_args, audio_backend_env, audio_frontend_args,
    bios_args, bios_ok, defaults_args, disk_views, disks_args, firmware_in_directory,
    looking_glass_args, looking_glass_files, monitor_args, networking_args, pci_args, smbios_args,
    spice_agent_args, spice_args, system_args, usb_args, usb_views, vga_args, window_args,
};
use crate::context::smbios::{HostTables, SmBiosMap, SmBiosModel, populate_auto, populated};
use crate::text::{lemma_views_empty, lemma_views_push, str_views, views};
use crate::util::{ArgWriter, EnvWriter, TmpFileWriter, env_keys, views_of_pairs};

verus! {

/// The contents of an optional list of strings.
pub open spec fn opt_views(o: Option<Vec<String>>) -> Option<Seq<Seq<char>>> {
    match o {
        Some(v) => Some(views(v@)),
        None => None,
    }
}

/// Records the facets of one machine. A facet with one value keeps the
/// value that was set last; disks, PCI devices, PAT addresses and USB
/// devices are lists that grow with every call.
pub struct ContextBuilder {
    pub cpu: Option<String>,
    pub smp: Option<String>,
    pub ram: String,
    pub bios_type: BiosType,
    pub smbios: SmBiosMap,
    pub vga: Vga,
    pub window: Window,
    pub audio_backend: AudioBackend,
    pub audio_frontend: AudioFrontend,
    pub networking: Networking,
    pub looking_glass: LookingGlass,
    pub spice: Spice,
    pub spice_agent: SpiceAgent,
    pub disks: Vec<Disk>,
    pub pci: Vec<String>,
    pub pat_dealloc: Vec<String>,
    pub unload_drivers: Option<Vec<String>>,
    pub usb: Vec<UsbDevice>,
    pub cpu_affinity: Option<String>,
    pub cpu_governor: Option<String>,
}

/// The contents of a [`ContextBuilder`]: the configuration of a machine.
pub struct BuilderModel {
    pub cpu: Option<Seq<char>>,
    pub smp: Option<Seq<char>>,
    pub ram: Seq<char>,
    pub bios_type: Option<Seq<char>>,
    pub smbios: SmBiosModel,
    pub vga: Vga,
    pub window: Window,
    pub audio_backend: AudioBackendModel,
    pub audio_frontend: AudioFrontend,
    pub networking: Networking,
    pub looking_glass: LookingGlass,
    pub spice: Spice,
    pub spice_agent: SpiceAgent,
    pub disks: Seq<DiskModel>,
    pub pci: Seq<Seq<char>>,
    pub pat_dealloc: Seq<Seq<char>>,
    pub unload_drivers: Option<Seq<Seq<char>>>,
    pub usb: Seq<UsbDeviceModel>,
    pub cpu_affinity: Option<Seq<char>>,
    pub cpu_governor: Option<Seq<char>>,
}

/// The contents of a launch plan.
pub struct ContextModel {
    pub env: Seq<Pair>,
    pub args: Seq<Seq<char>>,
    pub pci: Seq<Seq<char>>,
    pub pat_dealloc: Seq<Seq<char>>,
    pub unload_drivers: Option<Seq<Seq<char>>>,
    pub tmp_files: Seq<TmpFileModel>,
    pub cpu_affinity: Option<Seq<char>>,
    pub cpu_governor: Option<Seq<char>>,
}

impl View for Context {
    type V = ContextModel;

    open spec fn view(&self) -> ContextModel {
        ContextModel {
            env: views_of_pairs(self.env@),
            args: views(self.args@),
            pci: views(self.pci@),
            pat_dealloc: views(self.pat_dealloc@),
            unload_drivers: opt_views(self.unload_drivers),
            tmp_files: file_views(self.tmp_files@),
            cpu_affinity: opt_view(self.cpu_affinity),
            cpu_governor: opt_view(self.cpu_governor),
        }
    }
}

impl Context {
    /// No variable of the environment is set twice.
    pub open spec fn wf(&self) -> bool {
        env_keys(self.env@).no_duplicates()
    }
}

/// One call of a setter of the builder, as a value.
pub enum Setting {
    Cpu(Seq<char>),
    CpuAffinity(Seq<char>),
    CpuGovernor(Seq<char>),
    Smp(Seq<char>),
    Ram(Seq<char>),
    OvmfBios(Seq<char>),
    Smbios(SmBiosType, Seq<Pair>),
    Disk(DiskModel),
    AudioBackend(AudioBackendModel),
    AudioFrontend(AudioFrontend),
    Networking(Networking),
    Usb(UsbDeviceModel),
    PciDevice(Seq<char>),
    PatDealloc(Seq<char>),
    UnloadedDrivers(Seq<Seq<char>>),
    Vga(Vga),
    Window(Window),
    LookingGlass(LookingGlass),
    Spice(Spice),
    SpiceAgent(SpiceAgent),
}

/// The facets of a configuration.
pub enum Facet {
    Cpu,
    CpuAffinity,
    CpuGovernor,
    Smp,
    Ram,
    Bios,
    Smbios,
    Disks,
    AudioBackend,
    AudioFrontend,
    Networking,
    Usb,
    Pci,
    PatDealloc,
    UnloadedDrivers,
    Vga,
    Window,
    LookingGlass,
    Spice,
    SpiceAgent,
}

impl Setting {
    /// The facet that the setting changes.
    pub open spec fn facet(self) -> Facet {
        match self {
            Setting::Cpu(_) => Facet::Cpu,
            Setting::CpuAffinity(_) => Facet::CpuAffinity,
            Setting::CpuGovernor(_) => Facet::CpuGovernor,
            Setting::Smp(_) => Facet::Smp,
            Setting::Ram(_) => Facet::Ram,
            Setting::OvmfBios(_) => Facet::Bios,
            Setting::Smbios(_, _) => Facet::Smbios,
            Setting::Disk(_) => Facet::Disks,
            Setting::AudioBackend(_) => Facet::AudioBackend,
            Setting::AudioFrontend(_) => Facet::AudioFrontend,
            Setting::Networking(_) => Facet::Networking,
            Setting::Usb(_) => Facet::Usb,
            Setting::PciDevice(_) => Facet::Pci,
            Setting::PatDealloc(_) => Facet::PatDealloc,
            Setting::UnloadedDrivers(_) => Facet::UnloadedDrivers,
            Setting::Vga(_) => Facet::Vga,
            Setting::Window(_) => Facet::Window,
            Setting::LookingGlass(_) => Facet::LookingGlass,
            Setting::Spice(_) => Facet::Spice,
            Setting::SpiceAgent(_) => Facet::SpiceAgent,
        }
    }
}

impl Facet {
    /// Whether the facet is a list, to which every setting adds.
    pub open spec fn is_list(self) -> bool {
        self is Disks || self is Usb || self is Pci || self is PatDealloc || self is Smbios
    }
}

impl BuilderModel {
    /// The configuration before any setter was called.
    pub open spec fn initial() -> BuilderModel {
        BuilderModel {
            cpu: None,
            smp: None,
            ram: "4G"@,
            bios_type: None,
            smbios: SmBiosModel::empty(),
            vga: Vga::Off,
            window: Window::Off,
            audio_backend: AudioBackendModel::Off,
            audio_frontend: AudioFrontend::Off,
            networking: Networking::Off,
            looking_glass: LookingGlass::No,
            spice: Spice::No,
            spice_agent: SpiceAgent::No,
            disks: Seq::empty(),
            pci: Seq::empty(),
            pat_dealloc: Seq::empty(),
            unload_drivers: None,
            usb: Seq::empty(),
            cpu_affinity: None,
            cpu_governor: None,
        }
    }

    /// The configuration after one more setting: the facet of the setting
    /// takes the new value, or grows by it where it is a list, and every
    /// other facet stays as it is.
    pub open spec fn apply(self, s: Setting) -> BuilderModel {
        BuilderModel {
            cpu: if let Setting::Cpu(v) = s { Some(v) } else { self.cpu },
            smp: if let Setting::Smp(v) = s { Some(v) } else { self.smp },
            ram: if let Setting::Ram(v) = s { v } else { self.ram },
            bios_type: if let Setting::OvmfBios(v) = s { Some(v) } else { self.bios_type },
            smbios: if let Setting::Smbios(kind, pairs) = s {
                self.smbios.add_fields(kind, pairs)
            } else {
                self.smbios
            },
            vga: if let Setting::Vga(v) = s { v } else { self.vga },
            window: if let Setting::Window(v) = s { v } else { self.window },
            audio_backend: if let Setting::AudioBackend(v) = s { v } else { self.audio_backend },
            audio_frontend: if let Setting::AudioFrontend(v) = s { v } else { self.audio_frontend },
            networking: if let Setting::Networking(v) = s { v } else { self.networking },
            looking_glass: if let Setting::LookingGlass(v) = s { v } else { self.looking_glass },
            spice: if let Setting::Spice(v) = s { v } else { self.spice },
            spice_agent: if let Setting::SpiceAgent(v) = s { v } else { self.spice_agent },
            disks: if let Setting::Disk(v) = s { self.disks.push(v) } else { self.disks },
            pci: if let Setting::PciDevice(v) = s { self.pci.push(v) } else { self.pci },
            pat_dealloc: if let Setting::PatDealloc(v) = s {
                self.pat_dealloc.push(v)
            } else {
                self.pat_dealloc
            },
            unload_drivers: if let Setting::UnloadedDrivers(v) = s {
                Some(v)
            } else {
                self.unload_drivers
            },
            usb: if let Setting::Usb(v) = s { self.usb.push(v) } else { self.usb },
            cpu_affinity: if let Setting::CpuAffinity(v) = s { Some(v) } else { self.cpu_affinity },
            cpu_governor: if let Setting::CpuGovernor(v) = s { Some(v) } else { self.cpu_governor },
        }
    }

    /// The argument vector of the plan. The sections follow each other
    /// in one fixed order, whatever the order in which the facets were set:
    /// a later section may name a device or a bus of an earlier one.
    pub open spec fn args(self) -> Seq<Seq<char>> {
        defaults_args() + monitor_args() + system_args(self.cpu, self.smp, self.ram) + bios_args(
            self.bios_type,
        ) + smbios_args(self.smbios) + vga_args(self.vga) + window_args(self.window)
            + audio_backend_args(self.audio_backend) + audio_frontend_args(self.audio_frontend)
            + networking_args(self.networking) + pci_args(self.pci) + disks_args(self.disks)
            + usb_args(self.usb) + looking_glass_args(self.looking_glass) + spice_args(self.spice)
            + spice_agent_args(self.spice_agent)
    }

    /// The launch plan of the configuration.
    pub open spec fn plan(self) -> ContextModel {
        ContextModel {
            env: audio_backend_env(self.audio_backend),
            args: self.args(),
            pci: self.pci,
            pat_dealloc: self.pat_dealloc,
            unload_drivers: self.unload_drivers,
            tmp_files: looking_glass_files(self.looking_glass),
            cpu_affinity: self.cpu_affinity,
            cpu_governor: self.cpu_governor,
        }
    }

    /// Whether the configuration can be compiled: the firmware image, if
    /// one is set, lies in a directory.
    pub open spec fn buildable(self) -> bool {
        bios_ok(self.bios_type)
    }
}

impl View for ContextBuilder {
    type V = BuilderModel;

    open spec fn view(&self) -> BuilderModel {
        BuilderModel {
            cpu: opt_view(self.cpu),
            smp: opt_view(self.smp),
            ram: self.ram@,
            bios_type: self.bios_type@,
            smbios: self.smbios@,
            vga: self.vga,
            window: self.window,
            audio_backend: self.audio_backend@,
            audio_frontend: self.audio_frontend,
            networking: self.networking,
            looking_glass: self.looking_glass,
            spice: self.spice,
            spice_agent: self.spice_agent,
            disks: disk_views(self.disks@),
            pci: views(self.pci@),
            pat_dealloc: views(self.pat_dealloc@),
            unload_drivers: opt_views(self.unload_drivers),
            usb: usb_views(self.usb@),
            cpu_affinity: opt_view(self.cpu_affinity),
            cpu_governor: opt_view(self.cpu_governor),
        }
    }
}

impl Default for ContextBuilder {
    fn default() -> (b: ContextBuilder)
        ensures
            b@ == BuilderModel::initial(),
    {
        ContextBuilder::new()
    }
}

impl ContextBuilder {
    /// A builder on which nothing is set: four gigabytes of memory, the
    /// default firmware, and no device beyond what every machine has.
    pub fn new() -> (b: ContextBuilder)
        ensures
            b@ == BuilderModel::initial(),
    {
        let b = ContextBuilder {
            cpu: None,
            smp: None,
            ram: String::from_str("4G"),
            bios_type: BiosType::Default,
            smbios: SmBiosMap::new(),
            vga: Vga::Off,
            window: Window::Off,
            audio_backend: AudioBackend::Off,
            audio_frontend: AudioFrontend::Off,
            networking: Networking::Off,
            looking_glass: LookingGlass::No,
            spice: Spice::No,
            spice_agent: SpiceAgent::No,
            disks: Vec::new(),
            pci: Vec::new(),
            pat_dealloc: Vec::new(),
            unload_drivers: None,
            usb: Vec::new(),
            cpu_affinity: None,
            cpu_governor: None,
        };
        proof {
            lemma_views_empty();
            assert(disk_views(b.disks@) =~= Seq::<DiskModel>::empty());
            assert(usb_views(b.usb@) =~= Seq::<UsbDeviceModel>::empty());
        }
        b
    }

    /// Sets the CPU model and its flags.
    pub fn cpu(&mut self, options: &str) -> (ret: &mut Self)
        ensures
            ret@ == old(self)@.apply(Setting::Cpu(options@)),
            *final(self) == *final(ret),
    {
        self.cpu = Some(String::from_str(options));
        self
    }

    /// Pins the hypervisor to the given list of CPUs.
    pub fn cpu_affinity(&mut self, affinity: &str) -> (ret: &mut Self)
        ensures
            ret@ == old(self)@.apply(Setting::CpuAffinity(affinity@)),
            *final(self) == *final(ret),
    {
        self.cpu_affinity = Some(String::from_str(affinity));
        self
    }

    /// Sets the CPU frequency governor of the host before the launch. It is
    /// not set back afterwards.
    pub fn cpu_governor(&mut self, governor: &str) -> (ret: &mut Self)
        ensures
            ret@ == old(self)@.apply(Setting::CpuGovernor(governor@)),
            *final(self) == *final(ret),
    {
        self.cpu_governor = Some(String::from_str(governor));
        self
    }

    /// Sets the number and the topology of the CPU cores.
    pub fn smp(&mut self, layout: &str) -> (ret: &mut Self)
        ensures
            ret@ == old(self)@.apply(Setting::Smp(layout@)),
            *final(self) == *final(ret),
    {
        self.smp = Some(String::from_str(layout));
        self
    }

    /// Sets the amount of memory of the guest.
    pub fn ram(&mut self, size: &str) -> (ret: &mut Self)
        ensures
            ret@ == old(self)@.apply(Setting::Ram(size@)),
            *final(self) == *final(ret),
    {
        self.ram = String::from_str(size);
        self
    }

    /// Boots with UEFI firmware; `path` is the firmware image.
    pub fn ovmf_bios(&mut self, path: &str) -> (ret: &mut Self)
        ensures
            ret@ == old(self)@.apply(Setting::OvmfBios(path@)),
            *final(self) == *final(ret),
    {
        self.bios_type = BiosType::Ovmf(String::from_str(path));
        self
    }

    /// Adds a physical disk as an emulated disk.
    pub fn raw_disk(&mut self, path: &str) -> (ret: &mut Self)
        ensures
            ret@ == old(self)@.apply(Setting::Disk(DiskModel::Raw(path@))),
            *final(self) == *final(ret),
    {
        let disk = Disk::Raw(String::from_str(path));
        proof {
            assert(disk_views(self.disks@.push(disk)) =~= disk_views(self.disks@).push(disk@));
        }
        self.disks.push(disk);
        self
    }

    /// Adds a physical disk as a paravirtual disk.
    pub fn virtio_disk(&mut self, path: &str) -> (ret: &mut Self)
        ensures
            ret@ == old(self)@.apply(Setting::Disk(DiskModel::Virtio(path@))),
            *final(self) == *final(ret),
    {
        let disk = Disk::Virtio(String::from_str(path));
        proof {
            assert(disk_views(self.disks@.push(disk)) =~= disk_views(self.disks@).push(disk@));
        }
        self.disks.push(disk);
        self
    }

    /// Sends sound to Pipewire. A sound card has to be set as well.
    pub fn pipewire(&mut self, runtime_dir: &str) -> (ret: &mut Self)
        ensures
            ret@ == old(self)@.apply(Setting::AudioBackend(AudioBackendModel::Pipewire(runtime_dir@))),
            *final(self) == *final(ret),
    {
        self.audio_backend = AudioBackend::Pipewire(String::from_str(runtime_dir));
        self
    }

    /// Sends sound to the remote display. A sound card has to be set as
    /// well.
    pub fn spice_audio(&mut self) -> (ret: &mut Self)
        ensures
            ret@ == old(self)@.apply(Setting::AudioBackend(AudioBackendModel::Spice)),
            *final(self) == *final(ret),
    {
        self.audio_backend = AudioBackend::Spice;
        self
    }

    /// Gives the guest an Intel ICH6 sound card. A sound backend has to be
    /// set as well.
    pub fn intel_hda(&mut self, hda_type: IntelHdaType) -> (ret: &mut Self)
        ensures
            ret@ == old(self)@.apply(Setting::AudioFrontend(AudioFrontend::IntelHda(hda_type))),
            *final(self) == *final(ret),
    {
        self.audio_frontend = AudioFrontend::IntelHda(hda_type);
        self
    }

    /// Gives the guest an Intel ICH9 sound card. A sound backend has to be
    /// set as well.
    pub fn intel_hda_ich9(&mut self, hda_type: IntelHdaType) -> (ret: &mut Self)
        ensures
            ret@ == old(self)@.apply(Setting::AudioFrontend(AudioFrontend::IntelHdaIch9(hda_type))),
            *final(self) == *final(ret),
    {
        self.audio_frontend = AudioFrontend::IntelHdaIch9(hda_type);
        self
    }

    /// Gives the guest a USB sound card. A sound backend has to be set as
    /// well.
    pub fn usb_audio(&mut self) -> (ret: &mut Self)
        ensures
            ret@ == old(self)@.apply(Setting::AudioFrontend(AudioFrontend::UsbAudio)),
            *final(self) == *final(ret),
    {
        self.audio_frontend = AudioFrontend::UsbAudio;
        self
    }

    /// Gives the guest an emulated network card.
    pub fn user_networking(&mut self) -> (ret: &mut Self)
        ensures
            ret@ == old(self)@.apply(Setting::Networking(Networking::User)),
            *final(self) == *final(ret),
    {
        self.networking = Networking::User;
        self
    }

    /// Gives the guest a paravirtual network card.
    pub fn vfio_user_networking(&mut self) -> (ret: &mut Self)
        ensures
            ret@ == old(self)@.apply(Setting::Networking(Networking::VirtioUser)),
            *final(self) == *final(ret),
    {
        self.networking = Networking::VirtioUser;
        self
    }

    /// Hands a USB device of the host to the guest.
    pub fn usb_device(&mut self, vendor: u16, product: u16) -> (ret: &mut Self)
        ensures
            ret@ == old(self)@.apply(Setting::Usb(UsbDeviceModel::HostVidPid { vendor, product })),
            *final(self) == *final(ret),
    {
        let device = UsbDevice::HostVidPid { vendor, product };
        proof {
            assert(usb_views(self.usb@.push(device)) =~= usb_views(self.usb@).push(device@));
        }
        self.usb.push(device);
        self
    }

    /// Hands a PCI device of the host to the guest. The device is unbound
    /// before the launch and bound again after it.
    pub fn pci_device(&mut self, address: &str) -> (ret: &mut Self)
        ensures
            ret@ == old(self)@.apply(Setting::PciDevice(address@)),
            *final(self) == *final(ret),
    {
        let address = String::from_str(address);
        proof {
            lemma_views_push(self.pci@, address);
        }
        self.pci.push(address);
        self
    }

    /// Has the PAT entries of a PCI device cleared after it is unbound and
    /// before it is bound again.
    pub fn pat_dealloc(&mut self, address: &str) -> (ret: &mut Self)
        ensures
            ret@ == old(self)@.apply(Setting::PatDealloc(address@)),
            *final(self) == *final(ret),
    {
        let address = String::from_str(address);
        proof {
            lemma_views_push(self.pat_dealloc@, address);
        }
        self.pat_dealloc.push(address);
        self
    }

    /// Sets the emulated graphics adapter.
    pub fn vga(&mut self, vga: Vga) -> (ret: &mut Self)
        ensures
            ret@ == old(self)@.apply(Setting::Vga(vga)),
            *final(self) == *final(ret),
    {
        self.vga = vga;
        self
    }

    /// Adds an emulated tablet as pointing device.
    pub fn usb_tablet(&mut self) -> (ret: &mut Self)
        ensures
            ret@ == old(self)@.apply(Setting::Usb(UsbDeviceModel::Device("usb-tablet"@))),
            *final(self) == *final(ret),
    {
        let device = UsbDevice::Device(String::from_str("usb-tablet"));
        proof {
            assert(usb_views(self.usb@.push(device)) =~= usb_views(self.usb@).push(device@));
        }
        self.usb.push(device);
        self
    }

    /// Opens a window of the hypervisor.
    pub fn window(&mut self) -> (ret: &mut Self)
        ensures
            ret@ == old(self)@.apply(Setting::Window(Window::Gtk)),
            *final(self) == *final(ret),
    {
        self.window = Window::Gtk;
        self
    }

    /// Adds the shared-memory display channel; its file is made for the
    /// given owner and group.
    pub fn looking_glass(&mut self, owner: u32, group: u32) -> (ret: &mut Self)
        ensures
            ret@ == old(self)@.apply(Setting::LookingGlass(LookingGlass::Yes(owner, group))),
            *final(self) == *final(ret),
    {
        self.looking_glass = LookingGlass::Yes(owner, group);
        self
    }

    /// Adds the remote display with keyboard and mouse.
    pub fn spice_kvm(&mut self) -> (ret: &mut Self)
        ensures
            ret@ == old(self)@.apply(Setting::Spice(Spice::Yes)),
            *final(self) == *final(ret),
    {
        self.spice = Spice::Yes;
        self
    }

    /// Adds the agent channel of the remote display.
    pub fn spice_agent(&mut self) -> (ret: &mut Self)
        ensures
            ret@ == old(self)@.apply(Setting::SpiceAgent(SpiceAgent::Yes)),
            *final(self) == *final(ret),
    {
        self.spice_agent = SpiceAgent::Yes;
        self
    }

    /// Sets the CPU model and its flags.
    /// The builder is handed on, so that calls can be chained.
    pub fn with_cpu(self, options: &str) -> (b: Self)
        ensures
            b@ == self@.apply(Setting::Cpu(options@)),
    {
        let mut b = self;
        b.cpu(options);
        b
    }

    /// Pins the hypervisor to the given list of CPUs.
    /// The builder is handed on, so that calls can be chained.
    pub fn with_cpu_affinity(self, affinity: &str) -> (b: Self)
        ensures
            b@ == self@.apply(Setting::CpuAffinity(affinity@)),
    {
        let mut b = self;
        b.cpu_affinity(affinity);
        b
    }

    /// Sets the number and the topology of the CPU cores.
    /// The builder is handed on, so that calls can be chained.
    pub fn with_smp(self, layout: &str) -> (b: Self)
        ensures
            b@ == self@.apply(Setting::Smp(layout@)),
    {
        let mut b = self;
        b.smp(layout);
        b
    }

    /// Sets the amount of memory of the guest.
    /// The builder is handed on, so that calls can be chained.
    pub fn with_ram(self, size: &str) -> (b: Self)
        ensures
            b@ == self@.apply(Setting::Ram(size@)),
    {
        let mut b = self;
        b.ram(size);
        b
    }

    /// Boots with UEFI firmware; `path` is the firmware image.
    /// The builder is handed on, so that calls can be chained.
    pub fn with_ovmf_bios(self, path: &str) -> (b: Self)
        ensures
            b@ == self@.apply(Setting::OvmfBios(path@)),
    {
        let mut b = self;
        b.ovmf_bios(path);
        b
    }

    /// Adds a physical disk as an emulated disk.
    /// The builder is handed on, so that calls can be chained.
    pub fn with_raw_disk(self, path: &str) -> (b: Self)
        ensures
            b@ == self@.apply(Setting::Disk(DiskModel::Raw(path@))),
    {
        let mut b = self;
        b.raw_disk(path);
        b
    }

    /// Adds a physical disk as a paravirtual disk.
    /// The builder is handed on, so that calls can be chained.
    pub fn with_virtio_disk(self, path: &str) -> (b: Self)
        ensures
            b@ == self@.apply(Setting::Disk(DiskModel::Virtio(path@))),
    {
        let mut b = self;
        b.virtio_disk(path);
        b
    }

    /// Gives the guest an emulated network card.
    /// The builder is handed on, so that calls can be chained.
    pub fn with_user_networking(self) -> (b: Self)
        ensures
            b@ == self@.apply(Setting::Networking(Networking::User)),
    {
        let mut b = self;
        b.user_networking();
        b
    }

    /// Gives the guest a paravirtual network card.
    /// The builder is handed on, so that calls can be chained.
    pub fn with_vfio_user_networking(self) -> (b: Self)
        ensures
            b@ == self@.apply(Setting::Networking(Networking::VirtioUser)),
    {
        let mut b = self;
        b.vfio_user_networking();
        b
    }

    /// Hands a USB device of the host to the guest.
    /// The builder is handed on, so that calls can be chained.
    pub fn with_usb_device(self, vendor_id: u16, product_id: u16) -> (b: Self)
        ensures
            b@ == self@.apply(Setting::Usb(UsbDeviceModel::HostVidPid { vendor: vendor_id, product: product_id })),
    {
        let mut b = self;
        b.usb_device(vendor_id, product_id);
        b
    }

    /// Hands a PCI device of the host to the guest.
    /// The builder is handed on, so that calls can be chained.
    pub fn with_pci_device(self, address: &str) -> (b: Self)
        ensures
            b@ == self@.apply(Setting::PciDevice(address@)),
    {
        let mut b = self;
        b.pci_device(address);
        b
    }

    /// Declares the drivers that are unloaded before the launch and loaded
    /// again after it.
    /// The builder is handed on, so that calls can be chained.
    pub fn with_unloaded_drivers(self, drivers: Vec<&str>) -> (b: Self)
        ensures
            b@ == self@.apply(Setting::UnloadedDrivers(str_views(drivers@))),
    {
        let mut b = self;
        b.unloaded_drivers(drivers);
        b
    }

    /// Sets the emulated graphics adapter.
    /// The builder is handed on, so that calls can be chained.
    pub fn with_vga(self, vga: Vga) -> (b: Self)
        ensures
            b@ == self@.apply(Setting::Vga(vga)),
    {
        let mut b = self;
        b.vga(vga);
        b
    }

    /// Opens a window of the hypervisor.
    /// The builder is handed on, so that calls can be chained.
    pub fn with_window(self) -> (b: Self)
        ensures
            b@ == self@.apply(Setting::Window(Window::Gtk)),
    {
        let mut b = self;
        b.window();
        b
    }

    /// Adds the shared-memory display channel; its file is made for the
    /// given owner and group.
    /// The builder is handed on, so that calls can be chained.
    pub fn with_looking_glass(self, owner: u32, group: u32) -> (b: Self)
        ensures
            b@ == self@.apply(Setting::LookingGlass(LookingGlass::Yes(owner, group))),
    {
        let mut b = self;
        b.looking_glass(owner, group);
        b
    }

    /// Adds the remote display with keyboard and mouse.
    /// The builder is handed on, so that calls can be chained.
    pub fn with_spice(self) -> (b: Self)
        ensures
            b@ == self@.apply(Setting::Spice(Spice::Yes)),
    {
        let mut b = self;
        b.spice_kvm();
        b
    }

    /// Sends sound to Pipewire and gives the guest an Intel sound card with
    /// a codec of the given direction. The builder is handed on.
    pub fn with_pipewire(self, runtime_dir: &str, direction: AudioDirection) -> (b: Self)
        ensures
            b@ == self@.apply(Setting::AudioBackend(AudioBackendModel::Pipewire(runtime_dir@))).apply(
                Setting::AudioFrontend(AudioFrontend::IntelHda(direction.codec())),
            ),
    {
        let mut b = self;
        let codec = match direction {
            AudioDirection::Output => IntelHdaType::Output,
            AudioDirection::Duplex => IntelHdaType::Duplex,
        };
        b.pipewire(runtime_dir).intel_hda(codec);
        b
    }

    /// Fills the identity records with those of the host, and with fixed
    /// values where the host has none.
    pub fn smbios_auto(&mut self, host: HostTables) -> (ret: &mut Self)
        ensures
            ret@ == (BuilderModel { smbios: populated(old(self)@.smbios, host), ..old(self)@ }),
            *final(self) == *final(ret),
    {
        populate_auto(&mut self.smbios, host);
        self
    }

    /// Sets the given fields of one category of identity records. After
    /// [`ContextBuilder::smbios_auto`] this replaces single fields.
    pub fn smbios(&mut self, smbios_type: SmBiosType, pairs: Vec<(String, String)>) -> (ret:
        &mut Self)
        ensures
            ret@ == old(self)@.apply(Setting::Smbios(smbios_type, views_of_pairs(pairs@))),
            *final(self) == *final(ret),
    {
        self.smbios.add_fields(smbios_type, pairs);
        self
    }

    /// Declares the drivers that are unloaded before the launch and loaded
    /// again after it, as one batch.
    pub fn unloaded_drivers(&mut self, drivers: Vec<&str>) -> (ret: &mut Self)
        ensures
            ret@ == old(self)@.apply(Setting::UnloadedDrivers(str_views(drivers@))),
            *final(self) == *final(ret),
    {
        let mut owned: Vec<String> = Vec::new();
        let mut i: usize = 0;
        while i < drivers.len()
            invariant
                i <= drivers.len(),
                views(owned@) =~= str_views(drivers@.take(i as int)),
            decreases drivers.len() - i,
        {
            let driver = String::from_str(drivers[i]);
            proof {
                lemma_views_push(owned@, driver);
                assert(str_views(drivers@.take(i + 1)) =~= str_views(drivers@.take(i as int)).push(
                    drivers@[i as int]@,
                ));
            }
            owned.push(driver);
            i += 1;
        }
        proof {
            assert(drivers@.take(i as int) =~= drivers@);
        }
        self.unload_drivers = Some(owned);
        self
    }

    /// Compiles the configuration into its launch plan. The firmware
    /// image, if one is set, has to lie in a directory.
    pub fn build(self) -> (ctx: Context)
        requires
            self@.buildable(),
        ensures
            ctx@ == self@.plan(),
            ctx.wf(),
    {
        let mut arg_writer = ArgWriter::new();
        let mut env_writer = EnvWriter::new();
        let mut tmp_file_writer = TmpFileWriter::new();
        let ghost m = self@;

        add_defaults(&mut arg_writer);
        assert(arg_writer@ =~= defaults_args());
        add_monitor(&mut arg_writer);
        add_system(&mut arg_writer, self.cpu, self.smp, self.ram);
        add_bios(&mut arg_writer, self.bios_type);
        add_smbios(&mut arg_writer, &self.smbios);
        add_vga(&mut arg_writer, self.vga);
        add_window(&mut arg_writer, self.window);
        add_audio_backend(&mut arg_writer, &mut env_writer, self.audio_backend);
        assert(env_writer.pairs() =~= audio_backend_env(m.audio_backend));
        add_audio_frontend(&mut arg_writer, self.audio_frontend);
        add_networking(&mut arg_writer, self.networking);
        add_pci(&mut arg_writer, self.pci.as_slice());
        add_disks(&mut arg_writer, self.disks);
        add_usb(&mut arg_writer, self.usb);
        add_looking_glass(&mut arg_writer, &mut tmp_file_writer, self.looking_glass);
        assert(tmp_file_writer@ =~= looking_glass_files(m.looking_glass));
        add_spice(&mut arg_writer, self.spice);
        add_spice_agent(&mut arg_writer, self.spice_agent);
        assert(arg_writer@ == m.args());

        Context {
            env: env_writer.get_envs(),
            args: arg_writer.get_args(),
            pci: self.pci,
            pat_dealloc: self.pat_dealloc,
            unload_drivers: self.unload_drivers,
            tmp_files: tmp_file_writer.get_tmp_files(),
            cpu_affinity: self.cpu_affinity,
            cpu_governor: self.cpu_governor,
        }
    }

    /// Whether [`ContextBuilder::build`] can compile the configuration.
    pub fn is_buildable(&self) -> (ok: bool)
        ensures
            ok == self@.buildable(),
    {
        firmware_in_directory(&self.bios_type)
    }

    /// Compiles the configuration into its launch plan, or returns nothing
    /// where the firmware image does not lie in a directory.
    pub fn try_build(self) -> (plan: Option<Context>)
        ensures
            plan.is_some() == self@.buildable(),
            plan.is_some() ==> plan.unwrap()@ == self@.plan() && plan.unwrap().wf(),
    {
        if self.is_buildable() {
            Some(self.build())
        } else {
            None
        }
    }
}

/// Settings of different facets can be made in either order: the
/// configuration, and with it the launch plan, is the same.
pub proof fn lemma_facets_commute(m: BuilderModel, a: Setting, b: Setting)
    requires
        a.facet() != b.facet(),
    ensures
        m.apply(a).apply(b) == m.apply(b).apply(a),
        m.apply(a).apply(b).plan() == m.apply(b).apply(a).plan(),
{
}

/// Of two settings of a facet that is no list, the later one counts: the
/// earlier one leaves no trace.
pub proof fn lemma_last_setting_wins(m: BuilderModel, a: Setting, b: Setting)
    requires
        a.facet() == b.facet(),
        !a.facet().is_list(),
    ensures
        m.apply(a).apply(b) == m.apply(b),
{
}

/// Disks, PCI devices, PAT addresses and USB devices keep the order of
/// the calls that added them: each call adds to the end of its list.
pub proof fn lemma_lists_keep_call_order(
    m: BuilderModel,
    a: Seq<char>,
    b: Seq<char>,
    d1: DiskModel,
    d2: DiskModel,
    u1: UsbDeviceModel,
    u2: UsbDeviceModel,
)
    ensures
        m.apply(Setting::PciDevice(a)).apply(Setting::PciDevice(b)).pci == m.pci.push(a).push(b),
        m.apply(Setting::PatDealloc(a)).apply(Setting::PatDealloc(b)).pat_dealloc
            == m.pat_dealloc.push(a).push(b),
        m.apply(Setting::Disk(d1)).apply(Setting::Disk(d2)).disks == m.disks.push(d1).push(d2),
        m.apply(Setting::Usb(u1)).apply(Setting::Usb(u2)).usb == m.usb.push(u1).push(u2),
{
}

/// Two plans compiled from the same configuration have the same argument
/// vector, the same environment and the same lists of devices, drivers
/// and files.
pub proof fn lemma_build_is_deterministic(a: ContextBuilder, b: ContextBuilder, x: Context, y: Context)
    requires
        a@ == b@,
        x@ == a@.plan(),
        y@ == b@.plan(),
    ensures
        x@ == y@,
        x@.args == y@.args,
        x@.env == y@.env,
{
}

} // verus!
