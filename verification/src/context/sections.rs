//! The sections of the argument vector, one per facet, and the functions
//! that write them.

use vstd::prelude::*;
use vstd::string::*;
use crate::context::{
    AudioBackend, AudioBackendModel, AudioFrontend, BiosType, Disk, DiskModel, IntelHdaType,
    LookingGlass, Networking, Pair, SmBiosType, Spice, SpiceAgent, TmpFileModel, UsbDevice,
    UsbDeviceModel, Vga, Window, opt_view,
};
use crate::context::smbios::{SmBiosMap, SmBiosModel, table_view};
use crate::text::{
    digits, decimal, lower_hex, join2, join3, replaced, replace_chars, views, lemma_concat_assoc,
};
use crate::util::{ArgWriter, EnvWriter, TmpFileWriter, views_of_pairs};

verus! {

/// The directory that holds `path`, as `std::path::Path::parent` gives it
/// on the systems this library is for; none where `path` ends in a root
/// or is empty.
pub uninterp spec fn path_parent(path: Seq<char>) -> Option<Seq<char>>;

/// Calls `std::path::Path::parent` on `path`. The result is a function of
/// the path alone, which the contract names [`path_parent`]; nothing more
/// is claimed of it.
#[verifier::external_body]
fn parent_dir(path: &str) -> (dir: Option<String>)
    ensures
        opt_view(dir) == path_parent(path@),
{
    match std::path::Path::new(path).parent() {
        Some(dir) => Some(dir.to_string_lossy().into_owned()),
        None => None,
    }
}

/// Calls `nix::sys::stat::Mode::from_bits_truncate` and hands back the
/// bits of the mode it made: the given bits without those that are no
/// permission, set-id or sticky bit.
#[verifier::external_body]
fn permission_bits(bits: u32) -> (mode: u32)
    ensures
        mode == bits & 0o7777,
{
    nix::sys::stat::Mode::from_bits_truncate(bits).bits()
}

/// The permission bits among `bits`: what is left of them as the mode of
/// a file.
pub fn file_mode(bits: u32) -> (mode: u32)
    ensures
        mode == bits & 0o7777,
{
    permission_bits(bits)
}

/// What every machine starts with.
pub open spec fn defaults_args() -> Seq<Seq<char>> {
    seq!["-nodefaults"@, "-enable-kvm"@]
}

/// The monitor on the standard streams.
pub open spec fn monitor_args() -> Seq<Seq<char>> {
    seq!["-mon"@, "chardev=char0,mode=readline"@, "-chardev"@, "stdio,id=char0,mux=on"@]
}

/// CPU model, topology and memory.
pub open spec fn system_args(cpu: Option<Seq<char>>, smp: Option<Seq<char>>, ram: Seq<char>) -> Seq<
    Seq<char>,
> {
    (match cpu {
        Some(cpu) => seq!["-cpu"@, cpu],
        None => Seq::empty(),
    }) + (match smp {
        Some(smp) => seq!["-smp"@, smp],
        None => Seq::empty(),
    }) + seq!["-m"@, ram]
}

/// Whether the firmware image, if one is set, lies in a directory.
pub open spec fn bios_ok(bios: Option<Seq<char>>) -> bool {
    match bios {
        Some(path) => path_parent(path).is_some(),
        None => true,
    }
}

/// The firmware directory and image.
pub open spec fn bios_args(bios: Option<Seq<char>>) -> Seq<Seq<char>> {
    match bios {
        Some(path) => seq!["-L"@, path_parent(path).unwrap(), "-bios"@, path],
        None => Seq::empty(),
    }
}

/// The fields of one identity record as they follow the type number:
/// each with a comma before it, and each comma of a value doubled.
pub open spec fn fields_text(fields: Seq<Pair>) -> Seq<char>
    decreases fields.len(),
{
    if fields.len() == 0 {
        Seq::empty()
    } else {
        fields_text(fields.drop_last()) + ","@ + fields.last().0 + "="@ + replaced(
            fields.last().1,
            ',',
            ',',
            ",,"@,
        )
    }
}

/// The option for one category of identity records.
pub open spec fn table_args(kind: SmBiosType, table: Option<Seq<Pair>>) -> Seq<Seq<char>> {
    match table {
        Some(fields) => seq![
            "-smbios"@,
            "type="@ + digits(kind.spec_number(), false) + fields_text(fields),
        ],
        None => Seq::empty(),
    }
}

/// The identity records, by ascending type number.
pub open spec fn smbios_args(m: SmBiosModel) -> Seq<Seq<char>> {
    table_args(SmBiosType::BiosInformation, m.bios) + table_args(
        SmBiosType::SystemInformation,
        m.system,
    ) + table_args(SmBiosType::BaseboardInformation, m.baseboard) + table_args(
        SmBiosType::EnclosureInformation,
        m.enclosure,
    ) + table_args(SmBiosType::ProcessorInformation, m.processor) + table_args(
        SmBiosType::OemStrings,
        m.oem_strings,
    ) + table_args(SmBiosType::MemoryDevice, m.memory_device)
}

/// The graphics adapter.
pub open spec fn vga_args(vga: Vga) -> Seq<Seq<char>> {
    match vga {
        Vga::Off => seq!["-vga"@, "none"@],
        Vga::Standard => seq!["-vga"@, "std"@],
        Vga::Virtio => seq!["-vga"@, "virtio"@],
        Vga::Qxl => seq!["-vga"@, "qxl"@],
    }
}

/// The window of the hypervisor.
pub open spec fn window_args(window: Window) -> Seq<Seq<char>> {
    match window {
        Window::Off => seq!["-display"@, "none"@],
        Window::Gtk => seq!["-display"@, "gtk"@],
    }
}

/// The sound backend.
pub open spec fn audio_backend_args(backend: AudioBackendModel) -> Seq<Seq<char>> {
    match backend {
        AudioBackendModel::Off => Seq::empty(),
        AudioBackendModel::Pipewire(_) => seq!["-audiodev"@, "pipewire,id=snd"@],
        AudioBackendModel::Spice => seq!["-audiodev"@, "spice,id=snd"@],
    }
}

/// The environment that the sound backend needs.
pub open spec fn audio_backend_env(backend: AudioBackendModel) -> Seq<Pair> {
    match backend {
        AudioBackendModel::Pipewire(dir) => seq![
            ("PIPEWIRE_RUNTIME_DIR"@, dir),
            ("PIPEWIRE_LATENCY"@, "512/48000"@),
        ],
        _ => Seq::empty(),
    }
}

/// An Intel HDA sound card with its codec.
pub open spec fn intel_hda_args(card: Seq<char>, codec: IntelHdaType) -> Seq<Seq<char>> {
    seq!["-device"@, card, "-device"@, codec.spec_device_name() + ",audiodev=snd,mixer=off"@]
}

/// The sound card.
pub open spec fn audio_frontend_args(frontend: AudioFrontend) -> Seq<Seq<char>> {
    match frontend {
        AudioFrontend::Off => Seq::empty(),
        AudioFrontend::IntelHda(codec) => intel_hda_args("intel-hda"@, codec),
        AudioFrontend::IntelHdaIch9(codec) => intel_hda_args("ich9-intel-hda"@, codec),
        AudioFrontend::UsbAudio => seq![
            "-device"@,
            "qemu-xhci"@,
            "-device"@,
            "usb-audio,audiodev=snd"@,
        ],
    }
}

/// The network card.
pub open spec fn networking_args(networking: Networking) -> Seq<Seq<char>> {
    match networking {
        Networking::Off => seq!["-nic"@, "none"@],
        Networking::User => seq!["-nic"@, "model=e1000"@],
        Networking::VirtioUser => seq!["-nic"@, "model=virtio-net-pci"@],
    }
}

/// The PCI devices of the host, in the order in which they were declared.
pub open spec fn pci_args(devices: Seq<Seq<char>>) -> Seq<Seq<char>>
    decreases devices.len(),
{
    if devices.len() == 0 {
        Seq::empty()
    } else {
        pci_args(devices.drop_last()) + seq!["-device"@, "vfio-pci,host="@ + devices.last()]
    }
}

/// The drive option of one disk.
pub open spec fn disk_option(disk: DiskModel) -> Seq<char> {
    match disk {
        DiskModel::Raw(path) => "file="@ + path + ",format=raw,"@ + "media=disk"@,
        DiskModel::Virtio(path) => "file="@ + path + ",format=raw,"@ + "if=virtio"@,
    }
}

/// The contents of a list of disks.
pub open spec fn disk_views(disks: Seq<Disk>) -> Seq<DiskModel> {
    Seq::new(disks.len(), |i: int| disks[i]@)
}

/// The disks, in the order in which they were added.
pub open spec fn disks_args(disks: Seq<DiskModel>) -> Seq<Seq<char>>
    decreases disks.len(),
{
    if disks.len() == 0 {
        Seq::empty()
    } else {
        disks_args(disks.drop_last()) + seq!["-drive"@, disk_option(disks.last())]
    }
}

/// The device option of one USB device.
pub open spec fn usb_device_option(device: UsbDeviceModel) -> Seq<char> {
    match device {
        UsbDeviceModel::HostVidPid { vendor, product } => "usb-host,vendorid=0x"@ + digits(
            vendor as nat,
            true,
        ) + ",productid=0x"@ + digits(product as nat, true),
        UsbDeviceModel::Device(option) => option,
    }
}

/// One USB device.
pub open spec fn usb_device_args(device: UsbDeviceModel) -> Seq<Seq<char>> {
    seq!["-device"@, usb_device_option(device)]
}

/// The contents of a list of USB devices.
pub open spec fn usb_views(devices: Seq<UsbDevice>) -> Seq<UsbDeviceModel> {
    Seq::new(devices.len(), |i: int| devices[i]@)
}

/// The USB devices without the bus, in the order in which they were added.
pub open spec fn usb_devices_args(devices: Seq<UsbDeviceModel>) -> Seq<Seq<char>>
    decreases devices.len(),
{
    if devices.len() == 0 {
        Seq::empty()
    } else {
        usb_devices_args(devices.drop_last()) + usb_device_args(devices.last())
    }
}

/// The USB bus and its devices; nothing where there is no device.
pub open spec fn usb_args(devices: Seq<UsbDeviceModel>) -> Seq<Seq<char>> {
    if devices.len() == 0 {
        Seq::empty()
    } else {
        seq!["-usb"@] + usb_devices_args(devices)
    }
}

/// The shared-memory device of the display channel and the memory object
/// behind it.
pub open spec fn looking_glass_args(config: LookingGlass) -> Seq<Seq<char>> {
    match config {
        LookingGlass::No => Seq::empty(),
        LookingGlass::Yes(_, _) => seq![
            "-device"@,
            "ivshmem-plain,memdev=ivshmem,bus=pci.0"@,
            "-object"@,
            "memory-backend-file,id=ivshmem,share=on,mem-path=/dev/shm/looking-glass,size=32M"@,
        ],
    }
}

/// The file behind the display channel: readable by all, writable by its
/// owner.
pub open spec fn looking_glass_files(config: LookingGlass) -> Seq<TmpFileModel> {
    match config {
        LookingGlass::No => Seq::empty(),
        LookingGlass::Yes(uid, gid) => seq![
            TmpFileModel { path: "/dev/shm/looking-glass"@, uid, gid, mode: 0o644 },
        ],
    }
}

/// The display channel is whole or absent: a plan holds the request for
/// its file exactly when it holds its device and the memory object behind
/// it, and the file is the one that the memory object names.
pub proof fn lemma_display_channel_is_whole(config: LookingGlass)
    ensures
        looking_glass_files(config).len() == 1 <==> looking_glass_args(config).len() == 4,
        looking_glass_files(config).len() == 0 <==> looking_glass_args(config).len() == 0,
        config is Yes <==> looking_glass_files(config).len() == 1,
        config is Yes ==> looking_glass_files(config)[0] == (TmpFileModel {
            path: "/dev/shm/looking-glass"@,
            uid: config->Yes_0,
            gid: config->Yes_1,
            mode: 0o644,
        }),
{
}

/// The remote display with keyboard and mouse.
pub open spec fn spice_args(config: Spice) -> Seq<Seq<char>> {
    match config {
        Spice::No => Seq::empty(),
        Spice::Yes => seq![
            "-spice"@,
            "port=5900,disable-ticketing=on"@,
            "-device"@,
            "virtio-keyboard-pci"@,
            "-device"@,
            "virtio-mouse-pci"@,
        ],
    }
}

/// The agent channel of the remote display.
pub open spec fn spice_agent_args(config: SpiceAgent) -> Seq<Seq<char>> {
    match config {
        SpiceAgent::No => Seq::empty(),
        SpiceAgent::Yes => seq![
            "-device"@,
            "virtio-serial-pci"@,
            "-chardev"@,
            "spicevmc,id=vdagent,name=vdagent"@,
            "-device"@,
            "virtserialport,chardev=vdagent,name=com.redhat.spice.0"@,
        ],
    }
}

/// Writes what every machine starts with.
pub fn add_defaults(args: &mut ArgWriter)
    ensures
        final(args)@ == old(args)@ + defaults_args(),
{
    args.add_many(vec!["-nodefaults", "-enable-kvm"]);
    assert(args@ =~= old(args)@ + defaults_args());
}

/// Writes the monitor.
pub fn add_monitor(args: &mut ArgWriter)
    ensures
        final(args)@ == old(args)@ + monitor_args(),
{
    args.add_many(vec!["-mon", "chardev=char0,mode=readline", "-chardev", "stdio,id=char0,mux=on"]);
    assert(args@ =~= old(args)@ + monitor_args());
}

/// Writes CPU model, topology and memory.
pub fn add_system(args: &mut ArgWriter, cpu: Option<String>, smp: Option<String>, ram: String)
    ensures
        final(args)@ == old(args)@ + system_args(opt_view(cpu), opt_view(smp), ram@),
{
    if let Some(cpu) = cpu {
        args.add("-cpu").add(cpu.as_str());
    }
    if let Some(smp) = smp {
        args.add("-smp").add(smp.as_str());
    }
    args.add("-m").add(ram.as_str());
    assert(args@ =~= old(args)@ + system_args(opt_view(cpu), opt_view(smp), ram@));
}

/// Whether the firmware image, if one is set, lies in a directory.
pub fn firmware_in_directory(bios: &BiosType) -> (ok: bool)
    ensures
        ok == bios_ok(bios@),
{
    match bios {
        BiosType::Default => true,
        BiosType::Ovmf(path) => parent_dir(path.as_str()).is_some(),
    }
}

/// Writes the firmware directory and image. The image has to lie in a
/// directory.
pub fn add_bios(args: &mut ArgWriter, bios: BiosType)
    requires
        bios_ok(bios@),
    ensures
        final(args)@ == old(args)@ + bios_args(bios@),
{
    match bios {
        BiosType::Default => (),
        BiosType::Ovmf(path) => {
            let dir = parent_dir(path.as_str());
            let firmware_directory = dir.unwrap();
            args.add("-L").add(firmware_directory.as_str()).add("-bios").add(path.as_str());
        },
    }
    assert(args@ =~= old(args)@ + bios_args(bios@));
}

fn add_smbios_table(
    args: &mut ArgWriter,
    kind: SmBiosType,
    table: &Option<Vec<(String, String)>>,
)
    ensures
        final(args)@ == old(args)@ + table_args(kind, table_view(*table)),
{
    match table {
        None => {},
        Some(fields) => {
            let number = decimal(kind.number());
            let mut buffer = join2("type=", number.as_str());
            let ghost head = buffer@;
            let ghost all = views_of_pairs(fields@);
            let mut i: usize = 0;
            while i < fields.len()
                invariant
                    i <= fields.len(),
                    all == views_of_pairs(fields@),
                    buffer@ == head + fields_text(all.take(i as int)),
                decreases fields.len() - i,
            {
                let value = replace_chars(fields[i].1.as_str(), ',', ',', ",,");
                let ghost before = buffer@;
                buffer.append(",");
                buffer.append(fields[i].0.as_str());
                buffer.append("=");
                buffer.append(value.as_str());
                proof {
                    let t = fields_text(all.take(i as int));
                    assert(all.take(i + 1).drop_last() =~= all.take(i as int));
                    assert(buffer@ =~= head + (t + ","@ + all[i as int].0 + "="@ + value@));
                }
                i += 1;
            }
            proof {
                assert(all.take(i as int) =~= all);
            }
            args.add("-smbios").add(buffer.as_str());
        },
    }
    assert(args@ =~= old(args)@ + table_args(kind, table_view(*table)));
}

/// Writes the identity records, by ascending type number.
pub fn add_smbios(args: &mut ArgWriter, smbios: &SmBiosMap)
    ensures
        final(args)@ == old(args)@ + smbios_args(smbios@),
{
    let ghost start = args@;
    let ghost m = smbios@;
    add_smbios_table(args, SmBiosType::BiosInformation, &smbios.bios);
    let ghost acc = table_args(SmBiosType::BiosInformation, m.bios);
    add_smbios_table(args, SmBiosType::SystemInformation, &smbios.system);
    proof {
        let next = acc + table_args(SmBiosType::SystemInformation, m.system);
        lemma_concat_assoc(start, acc, table_args(SmBiosType::SystemInformation, m.system));
        acc = next;
    }
    add_smbios_table(args, SmBiosType::BaseboardInformation, &smbios.baseboard);
    proof {
        let next = acc + table_args(SmBiosType::BaseboardInformation, m.baseboard);
        lemma_concat_assoc(start, acc, table_args(SmBiosType::BaseboardInformation, m.baseboard));
        acc = next;
    }
    add_smbios_table(args, SmBiosType::EnclosureInformation, &smbios.enclosure);
    proof {
        let next = acc + table_args(SmBiosType::EnclosureInformation, m.enclosure);
        lemma_concat_assoc(start, acc, table_args(SmBiosType::EnclosureInformation, m.enclosure));
        acc = next;
    }
    add_smbios_table(args, SmBiosType::ProcessorInformation, &smbios.processor);
    proof {
        let next = acc + table_args(SmBiosType::ProcessorInformation, m.processor);
        lemma_concat_assoc(start, acc, table_args(SmBiosType::ProcessorInformation, m.processor));
        acc = next;
    }
    add_smbios_table(args, SmBiosType::OemStrings, &smbios.oem_strings);
    proof {
        let next = acc + table_args(SmBiosType::OemStrings, m.oem_strings);
        lemma_concat_assoc(start, acc, table_args(SmBiosType::OemStrings, m.oem_strings));
        acc = next;
    }
    add_smbios_table(args, SmBiosType::MemoryDevice, &smbios.memory_device);
    proof {
        lemma_concat_assoc(start, acc, table_args(SmBiosType::MemoryDevice, m.memory_device));
    }
}

/// Writes the graphics adapter.
pub fn add_vga(args: &mut ArgWriter, vga: Vga)
    ensures
        final(args)@ == old(args)@ + vga_args(vga),
{
    match vga {
        Vga::Off => args.add_many(vec!["-vga", "none"]),
        Vga::Standard => args.add_many(vec!["-vga", "std"]),
        Vga::Virtio => args.add_many(vec!["-vga", "virtio"]),
        Vga::Qxl => args.add_many(vec!["-vga", "qxl"]),
    };
    assert(args@ =~= old(args)@ + vga_args(vga));
}

/// Writes the window of the hypervisor.
pub fn add_window(args: &mut ArgWriter, window: Window)
    ensures
        final(args)@ == old(args)@ + window_args(window),
{
    match window {
        Window::Off => args.add_many(vec!["-display", "none"]),
        Window::Gtk => args.add_many(vec!["-display", "gtk"]),
    };
    assert(args@ =~= old(args)@ + window_args(window));
}

/// Whether the variables of the sound backend can still be set.
pub open spec fn audio_backend_env_free(env: Map<Seq<char>, Seq<char>>) -> bool {
    !env.dom().contains("PIPEWIRE_RUNTIME_DIR"@) && !env.dom().contains("PIPEWIRE_LATENCY"@)
}

/// Writes the sound backend, and sets the variables it needs. Where the
/// backend is Pipewire, its variables must not have been set before.
pub fn add_audio_backend(args: &mut ArgWriter, env: &mut EnvWriter, audio_backend: AudioBackend)
    requires
        old(env).wf(),
        audio_backend is Pipewire ==> audio_backend_env_free(old(env)@),
    ensures
        final(args)@ == old(args)@ + audio_backend_args(audio_backend@),
        final(env).wf(),
        final(env).pairs() == old(env).pairs() + audio_backend_env(audio_backend@),
{
    match audio_backend {
        AudioBackend::Off => (),
        AudioBackend::Pipewire(runtime_dir) => {
            proof {
                reveal_strlit("PIPEWIRE_RUNTIME_DIR");
                reveal_strlit("PIPEWIRE_LATENCY");
                assert("PIPEWIRE_RUNTIME_DIR"@.len() != "PIPEWIRE_LATENCY"@.len());
            }
            env.add("PIPEWIRE_RUNTIME_DIR", runtime_dir.as_str()).add(
                "PIPEWIRE_LATENCY",
                "512/48000",
            );
            args.add_many(vec!["-audiodev", "pipewire,id=snd"]);
        },
        AudioBackend::Spice => {
            args.add_many(vec!["-audiodev", "spice,id=snd"]);
        },
    }
    assert(args@ =~= old(args)@ + audio_backend_args(audio_backend@));
    assert(env.pairs() =~= old(env).pairs() + audio_backend_env(audio_backend@));
}

fn intel_hda(args: &mut ArgWriter, hda_card: &str, hda_type: IntelHdaType)
    ensures
        final(args)@ == old(args)@ + intel_hda_args(hda_card@, hda_type),
{
    let hda = join2(hda_type.device_name(), ",audiodev=snd,mixer=off");
    args.add_many(vec!["-device", hda_card, "-device", hda.as_str()]);
    assert(args@ =~= old(args)@ + intel_hda_args(hda_card@, hda_type));
}

/// Writes the sound card.
pub fn add_audio_frontend(args: &mut ArgWriter, audio_frontend: AudioFrontend)
    ensures
        final(args)@ == old(args)@ + audio_frontend_args(audio_frontend),
{
    match audio_frontend {
        AudioFrontend::Off => (),
        AudioFrontend::IntelHda(t) => intel_hda(args, "intel-hda", t),
        AudioFrontend::IntelHdaIch9(t) => intel_hda(args, "ich9-intel-hda", t),
        AudioFrontend::UsbAudio => {
            args.add_many(vec!["-device", "qemu-xhci", "-device", "usb-audio,audiodev=snd"]);
        },
    };
    assert(args@ =~= old(args)@ + audio_frontend_args(audio_frontend));
}

/// Writes the network card.
pub fn add_networking(args: &mut ArgWriter, networking: Networking)
    ensures
        final(args)@ == old(args)@ + networking_args(networking),
{
    match networking {
        Networking::Off => {
            args.add_many(vec!["-nic", "none"]);
        },
        Networking::User => {
            args.add_many(vec!["-nic", "model=e1000"]);
        },
        Networking::VirtioUser => {
            args.add_many(vec!["-nic", "model=virtio-net-pci"]);
        },
    }
    assert(args@ =~= old(args)@ + networking_args(networking));
}

/// Writes the PCI devices of the host, in their order.
pub fn add_pci(args: &mut ArgWriter, devices: &[String])
    ensures
        final(args)@ == old(args)@ + pci_args(views(devices@)),
{
    let ghost all = views(devices@);
    let mut i: usize = 0;
    assert(args@ =~= old(args)@ + pci_args(all.take(0)));
    while i < devices.len()
        invariant
            i <= devices.len(),
            all == views(devices@),
            args@ == old(args)@ + pci_args(all.take(i as int)),
        decreases devices.len() - i,
    {
        let option = join2("vfio-pci,host=", devices[i].as_str());
        args.add("-device").add(option.as_str());
        proof {
            assert(all.take(i + 1).drop_last() =~= all.take(i as int));
            assert(args@ =~= old(args)@ + pci_args(all.take(i + 1)));
        }
        i += 1;
    }
    proof {
        assert(all.take(i as int) =~= all);
    }
}

fn raw_disk(device: &str, options: &str) -> (option: String)
    ensures
        option@ == "file="@ + device@ + ",format=raw,"@ + options@,
{
    let mut option = join3("file=", device, ",format=raw,");
    option.append(options);
    option
}

/// Writes the disks, in their order.
pub fn add_disks(args: &mut ArgWriter, disks: Vec<Disk>)
    ensures
        final(args)@ == old(args)@ + disks_args(disk_views(disks@)),
{
    let ghost all = disk_views(disks@);
    let mut i: usize = 0;
    assert(args@ =~= old(args)@ + disks_args(all.take(0)));
    while i < disks.len()
        invariant
            i <= disks.len(),
            all == disk_views(disks@),
            args@ == old(args)@ + disks_args(all.take(i as int)),
        decreases disks.len() - i,
    {
        let option = match &disks[i] {
            Disk::Raw(device) => raw_disk(device.as_str(), "media=disk"),
            Disk::Virtio(device) => raw_disk(device.as_str(), "if=virtio"),
        };
        args.add("-drive").add(option.as_str());
        proof {
            assert(all.take(i + 1).drop_last() =~= all.take(i as int));
            assert(args@ =~= old(args)@ + disks_args(all.take(i + 1)));
        }
        i += 1;
    }
    proof {
        assert(all.take(i as int) =~= all);
    }
}

/// Writes the USB bus and its devices, in their order; nothing where
/// there is no device.
pub fn add_usb(args: &mut ArgWriter, devices: Vec<UsbDevice>)
    ensures
        final(args)@ == old(args)@ + usb_args(usb_views(devices@)),
{
    if devices.len() == 0 {
        assert(args@ =~= old(args)@ + usb_args(usb_views(devices@)));
        return ;
    }
    args.add("-usb");
    let ghost all = usb_views(devices@);
    let mut i: usize = 0;
    assert(args@ =~= old(args)@ + (seq!["-usb"@] + usb_devices_args(all.take(0))));
    while i < devices.len()
        invariant
            i <= devices.len(),
            all == usb_views(devices@),
            args@ == old(args)@ + (seq!["-usb"@] + usb_devices_args(all.take(i as int))),
        decreases devices.len() - i,
    {
        add_usb_device(args, &devices[i]);
        proof {
            assert(all.take(i + 1).drop_last() =~= all.take(i as int));
            assert(args@ =~= old(args)@ + (seq!["-usb"@] + usb_devices_args(all.take(i + 1))));
        }
        i += 1;
    }
    proof {
        assert(all.take(i as int) =~= all);
    }
}

/// Writes one USB device.
pub fn add_usb_device(args: &mut ArgWriter, device: &UsbDevice)
    ensures
        final(args)@ == old(args)@ + usb_device_args(device@),
{
    match device {
        UsbDevice::HostVidPid { vendor, product } => {
            let vendor_id = lower_hex(*vendor as u32);
            let product_id = lower_hex(*product as u32);
            let mut device_config = join3(
                "usb-host,vendorid=0x",
                vendor_id.as_str(),
                ",productid=0x",
            );
            device_config.append(product_id.as_str());
            args.add("-device").add(device_config.as_str());
        },
        UsbDevice::Device(device_config) => {
            args.add("-device").add(device_config.as_str());
        },
    }
    assert(args@ =~= old(args)@ + usb_device_args(device@));
}

/// Writes the shared-memory display channel: the request for its file
/// and the two options of its device, always together.
pub fn add_looking_glass(args: &mut ArgWriter, tmp: &mut TmpFileWriter, config: LookingGlass)
    ensures
        final(args)@ == old(args)@ + looking_glass_args(config),
        final(tmp)@ == old(tmp)@ + looking_glass_files(config),
{
    match config {
        LookingGlass::No => {},
        LookingGlass::Yes(uid, gid) => {
            let mode = file_mode(0o644);
            assert(0o644u32 & 0o7777u32 == 0o644u32) by (bit_vector);
            tmp.add("/dev/shm/looking-glass", uid, gid, mode);
            args.add_many(
                vec![
                    "-device",
                    "ivshmem-plain,memdev=ivshmem,bus=pci.0",
                    "-object",
                    "memory-backend-file,id=ivshmem,share=on,mem-path=/dev/shm/looking-glass,size=32M",
                ],
            );
        },
    }
    assert(args@ =~= old(args)@ + looking_glass_args(config));
    assert(tmp@ =~= old(tmp)@ + looking_glass_files(config));
}

/// Writes the remote display with keyboard and mouse.
pub fn add_spice(args: &mut ArgWriter, config: Spice)
    ensures
        final(args)@ == old(args)@ + spice_args(config),
{
    match config {
        Spice::No => (),
        Spice::Yes => {
            args.add_many(
                vec![
                    "-spice",
                    "port=5900,disable-ticketing=on",
                    "-device",
                    "virtio-keyboard-pci",
                    "-device",
                    "virtio-mouse-pci",
                ],
            );
        },
    };
    assert(args@ =~= old(args)@ + spice_args(config));
}

/// Writes the agent channel of the remote display.
pub fn add_spice_agent(args: &mut ArgWriter, config: SpiceAgent)
    ensures
        final(args)@ == old(args)@ + spice_agent_args(config),
{
    match config {
        SpiceAgent::No => (),
        SpiceAgent::Yes => {
            args.add_many(
                vec![
                    "-device",
                    "virtio-serial-pci",
                    "-chardev",
                    "spicevmc,id=vdagent,name=vdagent",
                    "-device",
                    "virtserialport,chardev=vdagent,name=com.redhat.spice.0",
                ],
            );
        },
    };
    assert(args@ =~= old(args)@ + spice_agent_args(config));
}

} // verus!
