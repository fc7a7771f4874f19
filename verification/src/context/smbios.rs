//! Hardware identity records: the fields that are shown to the guest in
//! place of those of the emulated machine, taken from the host where the
//! host has them.

use vstd::prelude::*;
use vstd::string::*;
use crate::context::{Pair, SmBiosType};
use crate::text::{decimal, digits, join3};
use crate::util::views_of_pairs;

verus! {

/// The position of the first pair with the name `k`, or the length of `s`
/// where there is none.
pub open spec fn key_index(s: Seq<Pair>, k: Seq<char>) -> int
    decreases s.len(),
{
    if s.len() == 0 {
        0
    } else {
        let i = key_index(s.drop_last(), k);
        if i < s.len() - 1 {
            i
        } else if s.last().0 == k {
            s.len() - 1
        } else {
            s.len() as int
        }
    }
}

/// `s` with the field `k` set to `v`: in place where `s` has the field,
/// at the end where it has not.
pub open spec fn upsert(s: Seq<Pair>, k: Seq<char>, v: Seq<char>) -> Seq<Pair> {
    let i = key_index(s, k);
    if 0 <= i < s.len() {
        s.update(i, (k, v))
    } else {
        s.push((k, v))
    }
}

/// `s` with each field of `pairs` set in turn.
pub open spec fn upsert_all(s: Seq<Pair>, pairs: Seq<Pair>) -> Seq<Pair>
    decreases pairs.len(),
{
    if pairs.len() == 0 {
        s
    } else {
        upsert(upsert_all(s, pairs.drop_last()), pairs.last().0, pairs.last().1)
    }
}

proof fn lemma_key_index_found(s: Seq<Pair>, k: Seq<char>, i: int)
    requires
        0 <= i < s.len(),
        key_index(s.take(i), k) == i,
        s[i].0 == k,
    ensures
        key_index(s, k) == i,
    decreases s.len(),
{
    if s.len() == i + 1 {
        assert(s.drop_last() =~= s.take(i));
    } else {
        assert(s.drop_last().take(i) =~= s.take(i));
        lemma_key_index_found(s.drop_last(), k, i);
    }
}

/// Sets the field `key` of `fields` to `value`.
pub fn set_field(fields: &mut Vec<(String, String)>, key: &str, value: &str)
    ensures
        views_of_pairs(final(fields)@) == upsert(views_of_pairs(old(fields)@), key@, value@),
{
    let k = String::from_str(key);
    let v = String::from_str(value);
    let ghost before = views_of_pairs(fields@);
    let mut i: usize = 0;
    while i < fields.len()
        invariant
            i <= fields.len(),
            *fields == *old(fields),
            before == views_of_pairs(fields@),
            k@ == key@,
            v@ == value@,
            key_index(before.take(i as int), key@) == i,
        decreases fields.len() - i,
    {
        if fields[i].0 == k {
            proof {
                lemma_key_index_found(before, key@, i as int);
                assert(views_of_pairs(fields@.update(i as int, (k, v))) =~= before.update(
                    i as int,
                    (key@, value@),
                ));
            }
            fields.set(i, (k, v));
            return ;
        }
        proof {
            assert(before.take(i + 1).drop_last() =~= before.take(i as int));
        }
        i += 1;
    }
    proof {
        assert(before.take(i as int) =~= before);
        assert(views_of_pairs(fields@.push((k, v))) =~= before.push((key@, value@)));
    }
    fields.push((k, v));
}

/// The identity records to show to the guest, by category. A category
/// that was never touched is not shown at all.
pub struct SmBiosMap {
    pub bios: Option<Vec<(String, String)>>,
    pub system: Option<Vec<(String, String)>>,
    pub baseboard: Option<Vec<(String, String)>>,
    pub enclosure: Option<Vec<(String, String)>>,
    pub processor: Option<Vec<(String, String)>>,
    pub oem_strings: Option<Vec<(String, String)>>,
    pub memory_device: Option<Vec<(String, String)>>,
}

/// The contents of an optional list of fields.
pub open spec fn table_view(t: Option<Vec<(String, String)>>) -> Option<Seq<Pair>> {
    match t {
        Some(fields) => Some(views_of_pairs(fields@)),
        None => None,
    }
}

/// The contents of a [`SmBiosMap`].
pub struct SmBiosModel {
    pub bios: Option<Seq<Pair>>,
    pub system: Option<Seq<Pair>>,
    pub baseboard: Option<Seq<Pair>>,
    pub enclosure: Option<Seq<Pair>>,
    pub processor: Option<Seq<Pair>>,
    pub oem_strings: Option<Seq<Pair>>,
    pub memory_device: Option<Seq<Pair>>,
}

impl SmBiosModel {
    /// No category is shown.
    pub open spec fn empty() -> SmBiosModel {
        SmBiosModel {
            bios: None,
            system: None,
            baseboard: None,
            enclosure: None,
            processor: None,
            oem_strings: None,
            memory_device: None,
        }
    }

    /// The fields of a category.
    pub open spec fn table(self, kind: SmBiosType) -> Option<Seq<Pair>> {
        match kind {
            SmBiosType::BiosInformation => self.bios,
            SmBiosType::SystemInformation => self.system,
            SmBiosType::BaseboardInformation => self.baseboard,
            SmBiosType::EnclosureInformation => self.enclosure,
            SmBiosType::ProcessorInformation => self.processor,
            SmBiosType::OemStrings => self.oem_strings,
            SmBiosType::MemoryDevice => self.memory_device,
        }
    }

    /// The records with the fields of one category replaced.
    pub open spec fn with_table(self, kind: SmBiosType, t: Option<Seq<Pair>>) -> SmBiosModel {
        match kind {
            SmBiosType::BiosInformation => SmBiosModel { bios: t, ..self },
            SmBiosType::SystemInformation => SmBiosModel { system: t, ..self },
            SmBiosType::BaseboardInformation => SmBiosModel { baseboard: t, ..self },
            SmBiosType::EnclosureInformation => SmBiosModel { enclosure: t, ..self },
            SmBiosType::ProcessorInformation => SmBiosModel { processor: t, ..self },
            SmBiosType::OemStrings => SmBiosModel { oem_strings: t, ..self },
            SmBiosType::MemoryDevice => SmBiosModel { memory_device: t, ..self },
        }
    }

    /// The fields of a category, none where the category is not shown.
    pub open spec fn fields(self, kind: SmBiosType) -> Seq<Pair> {
        match self.table(kind) {
            Some(fields) => fields,
            None => Seq::empty(),
        }
    }

    /// The records after the given fields of a category were set, one
    /// after the other. The category is shown from then on.
    pub open spec fn add_fields(self, kind: SmBiosType, pairs: Seq<Pair>) -> SmBiosModel {
        self.with_table(kind, Some(upsert_all(self.fields(kind), pairs)))
    }
}

impl View for SmBiosMap {
    type V = SmBiosModel;

    open spec fn view(&self) -> SmBiosModel {
        SmBiosModel {
            bios: table_view(self.bios),
            system: table_view(self.system),
            baseboard: table_view(self.baseboard),
            enclosure: table_view(self.enclosure),
            processor: table_view(self.processor),
            oem_strings: table_view(self.oem_strings),
            memory_device: table_view(self.memory_device),
        }
    }
}

impl SmBiosMap {
    /// Records that show no category.
    pub fn new() -> (m: SmBiosMap)
        ensures
            m@ == SmBiosModel::empty(),
    {
        SmBiosMap {
            bios: None,
            system: None,
            baseboard: None,
            enclosure: None,
            processor: None,
            oem_strings: None,
            memory_device: None,
        }
    }

    fn take_table(&mut self, kind: SmBiosType) -> (fields: Vec<(String, String)>)
        ensures
            views_of_pairs(fields@) == old(self)@.fields(kind),
            final(self)@ == old(self)@.with_table(kind, None),
    {
        let taken = match kind {
            SmBiosType::BiosInformation => self.bios.take(),
            SmBiosType::SystemInformation => self.system.take(),
            SmBiosType::BaseboardInformation => self.baseboard.take(),
            SmBiosType::EnclosureInformation => self.enclosure.take(),
            SmBiosType::ProcessorInformation => self.processor.take(),
            SmBiosType::OemStrings => self.oem_strings.take(),
            SmBiosType::MemoryDevice => self.memory_device.take(),
        };
        match taken {
            Some(fields) => fields,
            None => {
                let fields: Vec<(String, String)> = Vec::new();
                assert(views_of_pairs(fields@) =~= Seq::<Pair>::empty());
                fields
            },
        }
    }

    fn put_table(&mut self, kind: SmBiosType, fields: Vec<(String, String)>)
        ensures
            final(self)@ == old(self)@.with_table(kind, Some(views_of_pairs(fields@))),
    {
        match kind {
            SmBiosType::BiosInformation => self.bios = Some(fields),
            SmBiosType::SystemInformation => self.system = Some(fields),
            SmBiosType::BaseboardInformation => self.baseboard = Some(fields),
            SmBiosType::EnclosureInformation => self.enclosure = Some(fields),
            SmBiosType::ProcessorInformation => self.processor = Some(fields),
            SmBiosType::OemStrings => self.oem_strings = Some(fields),
            SmBiosType::MemoryDevice => self.memory_device = Some(fields),
        }
    }

    /// Sets the given fields of a category, one after the other. A field
    /// that the category has already keeps its place and takes the new
    /// value; a new field goes to the end.
    pub fn add_fields(&mut self, kind: SmBiosType, pairs: Vec<(String, String)>)
        ensures
            final(self)@ == old(self)@.add_fields(kind, views_of_pairs(pairs@)),
    {
        let mut fields = self.take_table(kind);
        let ghost start = views_of_pairs(fields@);
        let ghost all = views_of_pairs(pairs@);
        let mut i: usize = 0;
        while i < pairs.len()
            invariant
                i <= pairs.len(),
                all == views_of_pairs(pairs@),
                views_of_pairs(fields@) == upsert_all(start, all.take(i as int)),
            decreases pairs.len() - i,
        {
            proof {
                assert(all.take(i + 1).drop_last() =~= all.take(i as int));
            }
            set_field(&mut fields, pairs[i].0.as_str(), pairs[i].1.as_str());
            i += 1;
        }
        proof {
            assert(all.take(i as int) =~= all);
        }
        self.put_table(kind, fields);
    }

    /// Sets one field of a category.
    pub fn add_field(&mut self, kind: SmBiosType, key: &str, value: &str)
        ensures
            final(self)@ == old(self)@.add_fields(kind, seq![(key@, value@)]),
    {
        let mut fields = self.take_table(kind);
        proof {
            let one = seq![(key@, value@)];
            assert(one.drop_last() =~= Seq::<Pair>::empty());
            assert(upsert_all(views_of_pairs(fields@), one.drop_last()) == views_of_pairs(
                fields@,
            ));
        }
        set_field(&mut fields, key, value);
        self.put_table(kind, fields);
    }
}

/// The text of a field: that of the host where the host has one, the
/// fixed value where it has none.
pub open spec fn or_text(value: Option<String>, default: Seq<char>) -> Seq<char> {
    match value {
        Some(text) => text@,
        None => default,
    }
}

/// The number of a field: that of the host where the host has one, the
/// fixed value where it has none.
pub open spec fn or_number(value: Option<u8>, default: u8) -> u8 {
    match value {
        Some(n) => n,
        None => default,
    }
}

fn get_string_field(value: Option<String>, default: &str) -> (text: String)
    ensures
        text@ == or_text(value, default@),
{
    match value {
        Some(text) => text,
        None => String::from_str(default),
    }
}

fn get_field(value: Option<u8>, default: u8) -> (n: u8)
    ensures
        n == or_number(value, default),
{
    match value {
        Some(n) => n,
        None => default,
    }
}

fn pair(key: &str, value: String) -> (p: (String, String))
    ensures
        p.0@ == key@,
        p.1 == value,
{
    (String::from_str(key), value)
}

/// The firmware record of the host. A field that the host does not give is
/// absent.
pub struct HostBios {
    pub version: Option<String>,
    pub vendor: Option<String>,
    pub release_major: Option<u8>,
    pub release_minor: Option<u8>,
    pub date: Option<String>,
}

impl HostBios {
    /// The record of a host that gives none of the fields.
    pub open spec fn spec_absent() -> HostBios {
        HostBios {
            version: None,
            vendor: None,
            release_major: None,
            release_minor: None,
            date: None,
        }
    }

    /// The record of a host that gives none of the fields.
    pub fn absent() -> (t: HostBios)
        ensures
            t == HostBios::spec_absent(),
    {
        HostBios {
            version: None,
            vendor: None,
            release_major: None,
            release_minor: None,
            date: None,
        }
    }

    /// The record, or the one without fields where the host has none.
    pub open spec fn of(table: Option<HostBios>) -> HostBios {
        match table {
            Some(t) => t,
            None => HostBios::spec_absent(),
        }
    }
}

/// The firmware fields that are shown to the guest.
pub open spec fn bios_fields(table: Option<HostBios>) -> Seq<Pair> {
    let t = HostBios::of(table);
    seq![
        ("version"@, or_text(t.version, "F31o"@)),
        ("vendor"@, or_text(t.vendor, "American Megatrends International, LLC."@)),
        ("uefi"@, "on"@),
        ("release"@, digits(or_number(t.release_major, 5) as nat, false) + "."@ + digits(
                or_number(t.release_minor, 17) as nat,
                false,
            )),
        ("date"@, or_text(t.date, "12/03/2020"@)),
    ]
}

/// Sets the firmware fields from those of the host.
pub fn populate_bios_information(map: &mut SmBiosMap, table: Option<HostBios>)
    ensures
        final(map)@ == old(map)@.add_fields(SmBiosType::BiosInformation, bios_fields(table)),
{
    let t = match table {
        Some(t) => t,
        None => HostBios::absent(),
    };
    let version = get_string_field(t.version, "F31o");
    let vendor = get_string_field(t.vendor, "American Megatrends International, LLC.");
    let release_major = decimal(get_field(t.release_major, 5) as u32);
    let release_minor = decimal(get_field(t.release_minor, 17) as u32);
    let release = join3(release_major.as_str(), ".", release_minor.as_str());
    let date = get_string_field(t.date, "12/03/2020");
    let mut pairs: Vec<(String, String)> = Vec::new();
    pairs.push(pair("version", version));
    pairs.push(pair("vendor", vendor));
    pairs.push(pair("uefi", String::from_str("on")));
    pairs.push(pair("release", release));
    pairs.push(pair("date", date));
    assert(views_of_pairs(pairs@) =~= bios_fields(table));
    map.add_fields(SmBiosType::BiosInformation, pairs);
}

/// The system record of the host. A field that the host does not give is
/// absent.
pub struct HostSystem {
    pub version: Option<String>,
    pub sku: Option<String>,
    pub product: Option<String>,
    pub manufacturer: Option<String>,
    pub uuid: Option<String>,
    pub serial: Option<String>,
    pub family: Option<String>,
}

impl HostSystem {
    /// The record of a host that gives none of the fields.
    pub open spec fn spec_absent() -> HostSystem {
        HostSystem {
            version: None,
            sku: None,
            product: None,
            manufacturer: None,
            uuid: None,
            serial: None,
            family: None,
        }
    }

    /// The record of a host that gives none of the fields.
    pub fn absent() -> (t: HostSystem)
        ensures
            t == HostSystem::spec_absent(),
    {
        HostSystem {
            version: None,
            sku: None,
            product: None,
            manufacturer: None,
            uuid: None,
            serial: None,
            family: None,
        }
    }

    /// The record, or the one without fields where the host has none.
    pub open spec fn of(table: Option<HostSystem>) -> HostSystem {
        match table {
            Some(t) => t,
            None => HostSystem::spec_absent(),
        }
    }
}

/// The system fields that are shown to the guest.
pub open spec fn system_fields(table: Option<HostSystem>) -> Seq<Pair> {
    let t = HostSystem::of(table);
    seq![
        ("version"@, or_text(t.version, "-CF"@)),
        ("sku"@, or_text(t.sku, "Default string"@)),
        ("product"@, or_text(t.product, "X570 AORUS ULTRA"@)),
        ("manufacturer"@, or_text(t.manufacturer, "Gigabyte Technology Co., Ltd."@)),
        ("uuid"@, or_text(t.uuid, "3137f3a5-8fa3-41a4-87f5-aadd00ab066f"@)),
        ("serial"@, or_text(t.serial, "Default string"@)),
        ("family"@, or_text(t.family, "X570 MB"@)),
    ]
}

/// Sets the system fields from those of the host.
pub fn populate_system_information(map: &mut SmBiosMap, table: Option<HostSystem>)
    ensures
        final(map)@ == old(map)@.add_fields(SmBiosType::SystemInformation, system_fields(table)),
{
    let t = match table {
        Some(t) => t,
        None => HostSystem::absent(),
    };
    let version = get_string_field(t.version, "-CF");
    let sku = get_string_field(t.sku, "Default string");
    let product = get_string_field(t.product, "X570 AORUS ULTRA");
    let manufacturer = get_string_field(t.manufacturer, "Gigabyte Technology Co., Ltd.");
    let uuid = get_string_field(t.uuid, "3137f3a5-8fa3-41a4-87f5-aadd00ab066f");
    let serial = get_string_field(t.serial, "Default string");
    let family = get_string_field(t.family, "X570 MB");
    let mut pairs: Vec<(String, String)> = Vec::new();
    pairs.push(pair("version", version));
    pairs.push(pair("sku", sku));
    pairs.push(pair("product", product));
    pairs.push(pair("manufacturer", manufacturer));
    pairs.push(pair("uuid", uuid));
    pairs.push(pair("serial", serial));
    pairs.push(pair("family", family));
    assert(views_of_pairs(pairs@) =~= system_fields(table));
    map.add_fields(SmBiosType::SystemInformation, pairs);
}

/// The baseboard record of the host. A field that the host does not give is
/// absent.
pub struct HostBaseboard {
    pub asset: Option<String>,
    pub version: Option<String>,
    pub product: Option<String>,
    pub location: Option<String>,
    pub manufacturer: Option<String>,
    pub serial: Option<String>,
}

impl HostBaseboard {
    /// The record of a host that gives none of the fields.
    pub open spec fn spec_absent() -> HostBaseboard {
        HostBaseboard {
            asset: None,
            version: None,
            product: None,
            location: None,
            manufacturer: None,
            serial: None,
        }
    }

    /// The record of a host that gives none of the fields.
    pub fn absent() -> (t: HostBaseboard)
        ensures
            t == HostBaseboard::spec_absent(),
    {
        HostBaseboard {
            asset: None,
            version: None,
            product: None,
            location: None,
            manufacturer: None,
            serial: None,
        }
    }

    /// The record, or the one without fields where the host has none.
    pub open spec fn of(table: Option<HostBaseboard>) -> HostBaseboard {
        match table {
            Some(t) => t,
            None => HostBaseboard::spec_absent(),
        }
    }
}

/// The baseboard fields that are shown to the guest.
pub open spec fn baseboard_fields(table: Option<HostBaseboard>) -> Seq<Pair> {
    let t = HostBaseboard::of(table);
    seq![
        ("asset"@, or_text(t.asset, "Default string"@)),
        ("version"@, or_text(t.version, "Default string"@)),
        ("product"@, or_text(t.product, "X570 AORUS ULTRA"@)),
        ("location"@, or_text(t.location, "Default string"@)),
        ("manufacturer"@, or_text(t.manufacturer, "Gigabyte Technology Co., Ltd."@)),
        ("serial"@, or_text(t.serial, "Default string"@)),
    ]
}

/// Sets the baseboard fields from those of the host.
pub fn populate_baseboard_information(map: &mut SmBiosMap, table: Option<HostBaseboard>)
    ensures
        final(map)@ == old(map)@.add_fields(SmBiosType::BaseboardInformation, baseboard_fields(table)),
{
    let t = match table {
        Some(t) => t,
        None => HostBaseboard::absent(),
    };
    let asset = get_string_field(t.asset, "Default string");
    let version = get_string_field(t.version, "Default string");
    let product = get_string_field(t.product, "X570 AORUS ULTRA");
    let location = get_string_field(t.location, "Default string");
    let manufacturer = get_string_field(t.manufacturer, "Gigabyte Technology Co., Ltd.");
    let serial = get_string_field(t.serial, "Default string");
    let mut pairs: Vec<(String, String)> = Vec::new();
    pairs.push(pair("asset", asset));
    pairs.push(pair("version", version));
    pairs.push(pair("product", product));
    pairs.push(pair("location", location));
    pairs.push(pair("manufacturer", manufacturer));
    pairs.push(pair("serial", serial));
    assert(views_of_pairs(pairs@) =~= baseboard_fields(table));
    map.add_fields(SmBiosType::BaseboardInformation, pairs);
}

/// The enclosure fields that are shown to the guest.
pub open spec fn enclosure_fields() -> Seq<Pair> {
    seq![
        ("asset"@, "Default string"@),
        ("version"@, "Default string"@),
        ("sku"@, "Default string"@),
        ("manufacturer"@, "Default string"@),
        ("serial"@, "Default string"@),
    ]
}

/// Sets the enclosure fields, which no host is asked for.
pub fn populate_enclosure_information(map: &mut SmBiosMap)
    ensures
        final(map)@ == old(map)@.add_fields(SmBiosType::EnclosureInformation, enclosure_fields()),
{
    let mut pairs: Vec<(String, String)> = Vec::new();
    pairs.push(pair("asset", String::from_str("Default string")));
    pairs.push(pair("version", String::from_str("Default string")));
    pairs.push(pair("sku", String::from_str("Default string")));
    pairs.push(pair("manufacturer", String::from_str("Default string")));
    pairs.push(pair("serial", String::from_str("Default string")));
    assert(views_of_pairs(pairs@) =~= enclosure_fields());
    map.add_fields(SmBiosType::EnclosureInformation, pairs);
}

/// The processor record of the host. A field that the host does not give is
/// absent.
pub struct HostProcessor {
    pub asset: Option<String>,
    pub version: Option<String>,
    pub part: Option<String>,
    pub manufacturer: Option<String>,
    pub serial: Option<String>,
    pub socket: Option<String>,
}

impl HostProcessor {
    /// The record of a host that gives none of the fields.
    pub open spec fn spec_absent() -> HostProcessor {
        HostProcessor {
            asset: None,
            version: None,
            part: None,
            manufacturer: None,
            serial: None,
            socket: None,
        }
    }

    /// The record of a host that gives none of the fields.
    pub fn absent() -> (t: HostProcessor)
        ensures
            t == HostProcessor::spec_absent(),
    {
        HostProcessor {
            asset: None,
            version: None,
            part: None,
            manufacturer: None,
            serial: None,
            socket: None,
        }
    }

    /// The record, or the one without fields where the host has none.
    pub open spec fn of(table: Option<HostProcessor>) -> HostProcessor {
        match table {
            Some(t) => t,
            None => HostProcessor::spec_absent(),
        }
    }
}

/// The processor fields that are shown to the guest.
pub open spec fn processor_fields(table: Option<HostProcessor>) -> Seq<Pair> {
    let t = HostProcessor::of(table);
    seq![
        ("asset"@, or_text(t.asset, "Unknown"@)),
        ("version"@, or_text(t.version, "AMD Ryzen 9 5950X 16-Core Processor"@)),
        ("part"@, or_text(t.part, "Zen"@)),
        ("manufacturer"@, or_text(t.manufacturer, "Advanced Micro Devices, Inc."@)),
        ("serial"@, or_text(t.serial, "Unknown"@)),
        ("sock_pfx"@, or_text(t.socket, "AM4"@)),
    ]
}

/// Sets the processor fields from those of the host.
pub fn populate_processor_information(map: &mut SmBiosMap, table: Option<HostProcessor>)
    ensures
        final(map)@ == old(map)@.add_fields(SmBiosType::ProcessorInformation, processor_fields(table)),
{
    let t = match table {
        Some(t) => t,
        None => HostProcessor::absent(),
    };
    let asset = get_string_field(t.asset, "Unknown");
    let version = get_string_field(t.version, "AMD Ryzen 9 5950X 16-Core Processor");
    let part = get_string_field(t.part, "Zen");
    let manufacturer = get_string_field(t.manufacturer, "Advanced Micro Devices, Inc.");
    let serial = get_string_field(t.serial, "Unknown");
    let socket = get_string_field(t.socket, "AM4");
    let mut pairs: Vec<(String, String)> = Vec::new();
    pairs.push(pair("asset", asset));
    pairs.push(pair("version", version));
    pairs.push(pair("part", part));
    pairs.push(pair("manufacturer", manufacturer));
    pairs.push(pair("serial", serial));
    pairs.push(pair("sock_pfx", socket));
    assert(views_of_pairs(pairs@) =~= processor_fields(table));
    map.add_fields(SmBiosType::ProcessorInformation, pairs);
}

/// The OEM strings fields that are shown to the guest.
pub open spec fn oem_strings_fields() -> Seq<Pair> {
    seq![
        ("value"@, "Default string"@),
    ]
}

/// Sets the OEM strings fields, which no host is asked for.
pub fn populate_oem_strings(map: &mut SmBiosMap)
    ensures
        final(map)@ == old(map)@.add_fields(SmBiosType::OemStrings, oem_strings_fields()),
{
    let mut pairs: Vec<(String, String)> = Vec::new();
    pairs.push(pair("value", String::from_str("Default string")));
    assert(views_of_pairs(pairs@) =~= oem_strings_fields());
    map.add_fields(SmBiosType::OemStrings, pairs);
}

/// The record of the first memory device of the host. A field that the host does not give is
/// absent.
pub struct HostMemoryDevice {
    pub bank: Option<String>,
    pub asset: Option<String>,
    pub part: Option<String>,
    pub manufacturer: Option<String>,
    pub serial: Option<String>,
    pub locator: Option<String>,
}

impl HostMemoryDevice {
    /// The record of a host that gives none of the fields.
    pub open spec fn spec_absent() -> HostMemoryDevice {
        HostMemoryDevice {
            bank: None,
            asset: None,
            part: None,
            manufacturer: None,
            serial: None,
            locator: None,
        }
    }

    /// The record of a host that gives none of the fields.
    pub fn absent() -> (t: HostMemoryDevice)
        ensures
            t == HostMemoryDevice::spec_absent(),
    {
        HostMemoryDevice {
            bank: None,
            asset: None,
            part: None,
            manufacturer: None,
            serial: None,
            locator: None,
        }
    }

    /// The record, or the one without fields where the host has none.
    pub open spec fn of(table: Option<HostMemoryDevice>) -> HostMemoryDevice {
        match table {
            Some(t) => t,
            None => HostMemoryDevice::spec_absent(),
        }
    }
}

/// The memory device fields that are shown to the guest.
pub open spec fn memory_device_fields(table: Option<HostMemoryDevice>) -> Seq<Pair> {
    let t = HostMemoryDevice::of(table);
    seq![
        ("bank"@, or_text(t.bank, "Bank 0"@)),
        ("asset"@, or_text(t.asset, "Not Specified"@)),
        ("part"@, or_text(t.part, "OV_8GR1"@)),
        ("manufacturer"@, or_text(t.manufacturer, "OEM_VENDOR"@)),
        ("speed"@, "3200"@),
        ("serial"@, or_text(t.serial, "OEM33162"@)),
        ("loc_pfx"@, or_text(t.locator, "DIMM 0"@)),
    ]
}

/// Sets the memory device fields from those of the host.
pub fn populate_memory_device(map: &mut SmBiosMap, table: Option<HostMemoryDevice>)
    ensures
        final(map)@ == old(map)@.add_fields(SmBiosType::MemoryDevice, memory_device_fields(table)),
{
    let t = match table {
        Some(t) => t,
        None => HostMemoryDevice::absent(),
    };
    let bank = get_string_field(t.bank, "Bank 0");
    let asset = get_string_field(t.asset, "Not Specified");
    let part = get_string_field(t.part, "OV_8GR1");
    let manufacturer = get_string_field(t.manufacturer, "OEM_VENDOR");
    let serial = get_string_field(t.serial, "OEM33162");
    let locator = get_string_field(t.locator, "DIMM 0");
    let mut pairs: Vec<(String, String)> = Vec::new();
    pairs.push(pair("bank", bank));
    pairs.push(pair("asset", asset));
    pairs.push(pair("part", part));
    pairs.push(pair("manufacturer", manufacturer));
    pairs.push(pair("speed", String::from_str("3200")));
    pairs.push(pair("serial", serial));
    pairs.push(pair("loc_pfx", locator));
    assert(views_of_pairs(pairs@) =~= memory_device_fields(table));
    map.add_fields(SmBiosType::MemoryDevice, pairs);
}

/// What the host says of itself, record by record. A record that the
/// host does not have is absent.
pub struct HostTables {
    pub bios: Option<HostBios>,
    pub system: Option<HostSystem>,
    pub baseboard: Option<HostBaseboard>,
    pub processor: Option<HostProcessor>,
    pub memory_device: Option<HostMemoryDevice>,
}

impl HostTables {
    /// A host that has no record at all.
    pub fn unavailable() -> (host: HostTables)
        ensures
            host == (HostTables {
                bios: None,
                system: None,
                baseboard: None,
                processor: None,
                memory_device: None,
            }),
    {
        HostTables { bios: None, system: None, baseboard: None, processor: None, memory_device: None }
    }
}

/// The identity records after all seven categories were set from the
/// host, with the fixed value for every field that the host lacks.
pub open spec fn populated(m: SmBiosModel, host: HostTables) -> SmBiosModel {
    m.add_fields(SmBiosType::BiosInformation, bios_fields(host.bios)).add_fields(
        SmBiosType::SystemInformation,
        system_fields(host.system),
    ).add_fields(SmBiosType::BaseboardInformation, baseboard_fields(host.baseboard)).add_fields(
        SmBiosType::EnclosureInformation,
        enclosure_fields(),
    ).add_fields(SmBiosType::ProcessorInformation, processor_fields(host.processor)).add_fields(
        SmBiosType::OemStrings,
        oem_strings_fields(),
    ).add_fields(SmBiosType::MemoryDevice, memory_device_fields(host.memory_device))
}

/// Sets all seven categories of identity records from the host, with the
/// fixed value for every field that the host lacks.
pub fn populate_auto(map: &mut SmBiosMap, host: HostTables)
    ensures
        final(map)@ == populated(old(map)@, host),
{
    populate_bios_information(map, host.bios);
    populate_system_information(map, host.system);
    populate_baseboard_information(map, host.baseboard);
    populate_enclosure_information(map);
    populate_processor_information(map, host.processor);
    populate_oem_strings(map);
    populate_memory_device(map, host.memory_device);
}

} // verus!
