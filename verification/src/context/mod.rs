//! The launch configuration model: the facets of a machine, the builder
//! that records them and the launch plan it compiles them into.

use vstd::prelude::*;

pub mod builder;
pub mod sections;
pub mod smbios;

verus! {

/// A name and value pair, as contents.
pub type Pair = (Seq<char>, Seq<char>);

/// The contents of an optional string.
pub open spec fn opt_view(o: Option<String>) -> Option<Seq<char>> {
    match o {
        Some(s) => Some(s@),
        None => None,
    }
}

/// A USB device handed to the guest.
pub enum UsbDevice {
    /// A device of the host, found by vendor and product id.
    HostVidPid { vendor: u16, product: u16 },
    /// An emulated device, given by its device option.
    Device(String),
}

/// The contents of a [`UsbDevice`].
pub enum UsbDeviceModel {
    HostVidPid { vendor: u16, product: u16 },
    Device(Seq<char>),
}

impl View for UsbDevice {
    type V = UsbDeviceModel;

    open spec fn view(&self) -> UsbDeviceModel {
        match self {
            UsbDevice::HostVidPid { vendor, product } => UsbDeviceModel::HostVidPid {
                vendor: *vendor,
                product: *product,
            },
            UsbDevice::Device(d) => UsbDeviceModel::Device(d@),
        }
    }
}

/// A file that has to exist, with the given owner and permission bits,
/// before the hypervisor starts. It is made anew for every launch.
pub struct TmpFile {
    pub path: String,
    pub uid: u32,
    pub gid: u32,
    pub mode: u32,
}

/// The contents of a [`TmpFile`].
pub struct TmpFileModel {
    pub path: Seq<char>,
    pub uid: u32,
    pub gid: u32,
    pub mode: u32,
}

impl View for TmpFile {
    type V = TmpFileModel;

    open spec fn view(&self) -> TmpFileModel {
        TmpFileModel { path: self.path@, uid: self.uid, gid: self.gid, mode: self.mode }
    }
}

/// The emulated graphics adapter.
#[derive(Clone, Copy, Debug)]
pub enum Vga {
    Off,
    /// The standard adapter, which every guest knows.
    Standard,
    /// The paravirtual adapter.
    Virtio,
    /// The QXL adapter.
    Qxl,
}

/// Whether the hypervisor opens a window of its own.
#[derive(Clone, Copy, Debug)]
pub enum Window {
    Off,
    Gtk,
}

/// The firmware of the guest.
pub enum BiosType {
    Default,
    /// UEFI, with the path of the firmware image.
    Ovmf(String),
}

impl View for BiosType {
    type V = Option<Seq<char>>;

    open spec fn view(&self) -> Option<Seq<char>> {
        match self {
            BiosType::Default => None,
            BiosType::Ovmf(path) => Some(path@),
        }
    }
}

/// A physical disk handed to the guest.
pub enum Disk {
    /// As an emulated disk: slow, and known to every guest.
    Raw(String),
    /// As a paravirtual disk.
    Virtio(String),
}

/// The contents of a [`Disk`].
pub enum DiskModel {
    Raw(Seq<char>),
    Virtio(Seq<char>),
}

impl View for Disk {
    type V = DiskModel;

    open spec fn view(&self) -> DiskModel {
        match self {
            Disk::Raw(p) => DiskModel::Raw(p@),
            Disk::Virtio(p) => DiskModel::Virtio(p@),
        }
    }
}

/// Where the sound of the guest goes on the host.
pub enum AudioBackend {
    Off,
    /// Pipewire, with its runtime directory.
    Pipewire(String),
    Spice,
}

/// The contents of an [`AudioBackend`].
pub enum AudioBackendModel {
    Off,
    Pipewire(Seq<char>),
    Spice,
}

impl View for AudioBackend {
    type V = AudioBackendModel;

    open spec fn view(&self) -> AudioBackendModel {
        match self {
            AudioBackend::Off => AudioBackendModel::Off,
            AudioBackend::Pipewire(dir) => AudioBackendModel::Pipewire(dir@),
            AudioBackend::Spice => AudioBackendModel::Spice,
        }
    }
}

/// The sound card that the guest sees.
#[derive(Clone, Copy, Debug)]
pub enum AudioFrontend {
    Off,
    IntelHda(IntelHdaType),
    IntelHdaIch9(IntelHdaType),
    UsbAudio,
}

/// The codec of an emulated Intel HDA sound card.
#[derive(Clone, Copy, Debug)]
pub enum IntelHdaType {
    /// Line-out only.
    Output,
    /// Line-out and line-in.
    Duplex,
    /// Speaker and microphone.
    Micro,
}

impl IntelHdaType {
    /// The device name of the codec.
    pub open spec fn spec_device_name(&self) -> Seq<char> {
        match self {
            IntelHdaType::Output => "hda-output"@,
            IntelHdaType::Duplex => "hda-duplex"@,
            IntelHdaType::Micro => "hda-micro"@,
        }
    }

    /// The device name of the codec.
    pub fn device_name(&self) -> (name: &'static str)
        ensures
            name@ == self.spec_device_name(),
    {
        match self {
            IntelHdaType::Output => "hda-output",
            IntelHdaType::Duplex => "hda-duplex",
            IntelHdaType::Micro => "hda-micro",
        }
    }
}

/// The direction of a sound device.
#[derive(Clone, Copy, Debug)]
pub enum AudioDirection {
    Output,
    Duplex,
}

impl AudioDirection {
    /// The codec with this direction.
    pub open spec fn codec(&self) -> IntelHdaType {
        match self {
            AudioDirection::Output => IntelHdaType::Output,
            AudioDirection::Duplex => IntelHdaType::Duplex,
        }
    }

    /// The device name of the codec with this direction.
    pub fn device_name(&self) -> (name: &'static str)
        ensures
            name@ == self.codec().spec_device_name(),
    {
        match self {
            AudioDirection::Output => "hda-output",
            AudioDirection::Duplex => "hda-duplex",
        }
    }
}

/// The network card of the guest.
#[derive(Clone, Copy, Debug)]
pub enum Networking {
    Off,
    /// An emulated card behind user-mode networking.
    User,
    /// A paravirtual card behind user-mode networking.
    VirtioUser,
}

/// The shared-memory display channel, with the owner and the group of its
/// file.
#[derive(Clone, Copy, Debug)]
pub enum LookingGlass {
    No,
    Yes(u32, u32),
}

/// The remote display with its keyboard and mouse.
#[derive(Clone, Copy, Debug)]
pub enum Spice {
    No,
    Yes,
}

/// The guest agent channel of the remote display.
#[derive(Clone, Copy, Debug)]
pub enum SpiceAgent {
    No,
    Yes,
}

/// The categories of hardware identity records that can be set.
#[derive(Clone, Copy, Debug, PartialEq, Eq, Hash)]
pub enum SmBiosType {
    BiosInformation,
    SystemInformation,
    BaseboardInformation,
    EnclosureInformation,
    ProcessorInformation,
    OemStrings,
    MemoryDevice,
}

impl SmBiosType {
    /// The number of the record type.
    pub open spec fn spec_number(&self) -> nat {
        match self {
            SmBiosType::BiosInformation => 0,
            SmBiosType::SystemInformation => 1,
            SmBiosType::BaseboardInformation => 2,
            SmBiosType::EnclosureInformation => 3,
            SmBiosType::ProcessorInformation => 4,
            SmBiosType::OemStrings => 11,
            SmBiosType::MemoryDevice => 17,
        }
    }

    /// The number of the record type.
    pub fn number(&self) -> (n: u32)
        ensures
            n == self.spec_number(),
    {
        match self {
            SmBiosType::BiosInformation => 0,
            SmBiosType::SystemInformation => 1,
            SmBiosType::BaseboardInformation => 2,
            SmBiosType::EnclosureInformation => 3,
            SmBiosType::ProcessorInformation => 4,
            SmBiosType::OemStrings => 11,
            SmBiosType::MemoryDevice => 17,
        }
    }
}

/// The contents of a list of file requests.
pub open spec fn file_views(files: Seq<TmpFile>) -> Seq<TmpFileModel> {
    Seq::new(files.len(), |i: int| files[i]@)
}

/// The launch plan: what the hypervisor is started with, and which devices
/// and drivers have to be taken from the host before and given back after.
pub struct Context {
    /// The environment of the hypervisor process; no name occurs twice.
    pub env: Vec<(String, String)>,
    /// The argument vector of the hypervisor.
    pub args: Vec<String>,
    /// The PCI devices to unbind and rebind, in this order.
    pub pci: Vec<String>,
    /// The PCI devices whose PAT entries are cleared.
    pub pat_dealloc: Vec<String>,
    /// The drivers to unload and reload as one batch.
    pub unload_drivers: Option<Vec<String>>,
    /// The files to create before the launch.
    pub tmp_files: Vec<TmpFile>,
    /// The CPUs the hypervisor is pinned to.
    pub cpu_affinity: Option<String>,
    /// The CPU frequency governor to set; it is not set back.
    pub cpu_governor: Option<String>,
}

} // verus!
