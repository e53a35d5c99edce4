use vstd::prelude::*;
use crate::attr::{file_text, lemma_missing_attribute, number_attr, read_text, read_u32, text_attr, text_view, without, AttrFile, Encoding};

verus! {

/// A point in time: whole seconds since the Unix epoch (negative before it) and the
/// nanoseconds past them.
#[derive(Clone, Copy, Debug, PartialEq, Eq, Structural)]
pub struct Timestamp {
    pub secs: i64,
    pub nanos: u32,
}

/// Relies on chrono's `From<SystemTime> for DateTime<Utc>`, applied to the system clock and
/// read back through `DateTime::timestamp` and `DateTime::timestamp_subsec_nanos`. A clock
/// before the epoch becomes a negative number of seconds with the nanoseconds counted
/// forward from them, so the nanoseconds stay below one second. The conversion's `unwrap`
/// fires only beyond chrono's range of about 262,000 years, which a 64-bit nanosecond
/// kernel clock (about 292 years either side of the epoch) cannot reach.
#[verifier::external_body]
fn current_time() -> (r: Timestamp)
    ensures
        r.nanos < 1_000_000_000,
{
    let now = chrono::DateTime::<chrono::Utc>::from(std::time::SystemTime::now());
    Timestamp { secs: now.timestamp(), nanos: now.timestamp_subsec_nanos() }
}

/// The twelve bus-transaction word counters of a device.
#[derive(Clone, Copy, Debug, PartialEq, Eq, Structural)]
pub struct PciePerfCounters {
    pub mst_nonposted_wr_data_word_sent0: Option<u32>,
    pub mst_nonposted_wr_data_word_sent1: Option<u32>,
    pub mst_posted_wr_data_word_sent0: Option<u32>,
    pub mst_posted_wr_data_word_sent1: Option<u32>,
    pub mst_rd_data_word_received0: Option<u32>,
    pub mst_rd_data_word_received1: Option<u32>,
    pub slv_nonposted_wr_data_word_received0: Option<u32>,
    pub slv_nonposted_wr_data_word_received1: Option<u32>,
    pub slv_posted_wr_data_word_received0: Option<u32>,
    pub slv_posted_wr_data_word_received1: Option<u32>,
    pub slv_rd_data_word_sent0: Option<u32>,
    pub slv_rd_data_word_sent1: Option<u32>,
}

/// Instantaneous sensor readings of a device.
#[derive(Clone, Copy, Debug, PartialEq, Eq, Structural)]
pub struct Telemetry {
    pub current: Option<u32>,
    pub power: Option<u32>,
    pub asic_temp: Option<u32>,
    pub vcore: Option<u32>,
    pub fan_rpm: Option<u32>,
}

/// The snapshot of one device. Every optional field is `None` exactly where its attribute
/// could not be read or decoded; the two nested records are `None` where their directory
/// does not exist.
#[derive(Debug)]
pub struct TTDevice {
    pub time: Timestamp,
    pub device_path: String,
    pub tt_aiclk: Option<u32>,
    pub tt_arcclk: Option<u32>,
    pub tt_asic_id: Option<String>,
    pub tt_axiclk: Option<u32>,
    pub tt_card_type: Option<String>,
    pub tt_fw_bundle_ver: Option<String>,
    pub tt_m3app_fw_ver: Option<String>,
    pub tt_serial: Option<String>,
    pub pcie_perf_counters: Option<PciePerfCounters>,
    pub telemetry: Option<Telemetry>,
}

/// The abstract form of a `TTDevice`.
pub ghost struct TTDeviceView {
    pub time: Timestamp,
    pub device_path: Seq<char>,
    pub tt_aiclk: Option<u32>,
    pub tt_arcclk: Option<u32>,
    pub tt_asic_id: Option<Seq<char>>,
    pub tt_axiclk: Option<u32>,
    pub tt_card_type: Option<Seq<char>>,
    pub tt_fw_bundle_ver: Option<Seq<char>>,
    pub tt_m3app_fw_ver: Option<Seq<char>>,
    pub tt_serial: Option<Seq<char>>,
    pub pcie_perf_counters: Option<PciePerfCounters>,
    pub telemetry: Option<Telemetry>,
}

impl View for TTDevice {
    type V = TTDeviceView;

    open spec fn view(&self) -> TTDeviceView {
        TTDeviceView {
            time: self.time,
            device_path: self.device_path@,
            tt_aiclk: self.tt_aiclk,
            tt_arcclk: self.tt_arcclk,
            tt_asic_id: text_view(self.tt_asic_id),
            tt_axiclk: self.tt_axiclk,
            tt_card_type: text_view(self.tt_card_type),
            tt_fw_bundle_ver: text_view(self.tt_fw_bundle_ver),
            tt_m3app_fw_ver: text_view(self.tt_m3app_fw_ver),
            tt_serial: text_view(self.tt_serial),
            pcie_perf_counters: self.pcie_perf_counters,
            telemetry: self.telemetry,
        }
    }
}

/// What was listed and read of one device directory: its attribute files, the files of
/// its `pcie_perf_counters` sub-directory (`None` where that does not exist), and the
/// listings of the sensor directories under `device/hwmon`, in listing order.
pub struct DeviceDir {
    pub entries: Vec<AttrFile>,
    pub counters: Option<Vec<AttrFile>>,
    pub hwmon: Vec<Vec<AttrFile>>,
}

/// The file names of the sensor readings.
pub open spec fn is_sensor_name(n: Seq<char>) -> bool {
    n == "curr1_input"@ || n == "power1_input"@ || n == "temp1_input"@ || n == "in0_input"@ || n
        == "fan1_input"@
}

/// A sensor directory is recognized by holding at least one of the sensor reading files.
pub open spec fn has_sensor_file(entries: Seq<AttrFile>) -> bool {
    exists|j: int| 0 <= j < entries.len() && #[trigger] is_sensor_name(entries[j].name@)
}

/// The first sensor directory that is recognized as such.
pub open spec fn sensor_dir(dirs: Seq<Vec<AttrFile>>) -> Option<Seq<AttrFile>>
    decreases dirs.len(),
{
    if dirs.len() == 0 {
        None
    } else if has_sensor_file(dirs[0]@) {
        Some(dirs[0]@)
    } else {
        sensor_dir(dirs.drop_first())
    }
}

pub open spec fn counters_from(e: Seq<AttrFile>) -> PciePerfCounters {
    PciePerfCounters {
        mst_nonposted_wr_data_word_sent0: number_attr(e, "mst_nonposted_wr_data_word_sent0"@, 10),
        mst_nonposted_wr_data_word_sent1: number_attr(e, "mst_nonposted_wr_data_word_sent1"@, 10),
        mst_posted_wr_data_word_sent0: number_attr(e, "mst_posted_wr_data_word_sent0"@, 10),
        mst_posted_wr_data_word_sent1: number_attr(e, "mst_posted_wr_data_word_sent1"@, 10),
        mst_rd_data_word_received0: number_attr(e, "mst_rd_data_word_received0"@, 10),
        mst_rd_data_word_received1: number_attr(e, "mst_rd_data_word_received1"@, 10),
        slv_nonposted_wr_data_word_received0: number_attr(
            e,
            "slv_nonposted_wr_data_word_received0"@,
            10,
        ),
        slv_nonposted_wr_data_word_received1: number_attr(
            e,
            "slv_nonposted_wr_data_word_received1"@,
            10,
        ),
        slv_posted_wr_data_word_received0: number_attr(e, "slv_posted_wr_data_word_received0"@, 10),
        slv_posted_wr_data_word_received1: number_attr(e, "slv_posted_wr_data_word_received1"@, 10),
        slv_rd_data_word_sent0: number_attr(e, "slv_rd_data_word_sent0"@, 10),
        slv_rd_data_word_sent1: number_attr(e, "slv_rd_data_word_sent1"@, 10),
    }
}

pub open spec fn telemetry_from(e: Seq<AttrFile>) -> Telemetry {
    Telemetry {
        current: number_attr(e, "curr1_input"@, 10),
        power: number_attr(e, "power1_input"@, 10),
        asic_temp: number_attr(e, "temp1_input"@, 10),
        vcore: number_attr(e, "in0_input"@, 10),
        fan_rpm: number_attr(e, "fan1_input"@, 10),
    }
}

/// The snapshot of a device at `path`, stamped `time`, from what was read of its directory.
/// Clock rates are hexadecimal, identity fields text, counters and sensors decimal.
pub open spec fn snapshot_of(path: Seq<char>, time: Timestamp, dir: DeviceDir) -> TTDeviceView {
    let e = dir.entries@;
    TTDeviceView {
        time,
        device_path: path,
        tt_aiclk: number_attr(e, "tt_aiclk"@, 16),
        tt_arcclk: number_attr(e, "tt_arcclk"@, 16),
        tt_asic_id: text_attr(e, "tt_asic_id"@),
        tt_axiclk: number_attr(e, "tt_axiclk"@, 16),
        tt_card_type: text_attr(e, "tt_card_type"@),
        tt_fw_bundle_ver: text_attr(e, "tt_fw_bundle_ver"@),
        tt_m3app_fw_ver: text_attr(e, "tt_m3app_fw_ver"@),
        tt_serial: text_attr(e, "tt_serial"@),
        pcie_perf_counters: match dir.counters {
            Some(c) => Some(counters_from(c@)),
            None => None,
        },
        telemetry: match sensor_dir(dir.hwmon@) {
            Some(s) => Some(telemetry_from(s)),
            None => None,
        },
    }
}

/// A snapshot of the device at `path` with nothing read yet.
pub open spec fn unread_snapshot(path: Seq<char>, time: Timestamp) -> TTDeviceView {
    TTDeviceView {
        time,
        device_path: path,
        tt_aiclk: None,
        tt_arcclk: None,
        tt_asic_id: None,
        tt_axiclk: None,
        tt_card_type: None,
        tt_fw_bundle_ver: None,
        tt_m3app_fw_ver: None,
        tt_serial: None,
        pcie_perf_counters: None,
        telemetry: None,
    }
}

impl PciePerfCounters {
    /// All counters absent.
    pub fn new() -> (r: Self)
        ensures
            r == counters_from(Seq::empty()),
    {
        PciePerfCounters {
            mst_nonposted_wr_data_word_sent0: None,
            mst_nonposted_wr_data_word_sent1: None,
            mst_posted_wr_data_word_sent0: None,
            mst_posted_wr_data_word_sent1: None,
            mst_rd_data_word_received0: None,
            mst_rd_data_word_received1: None,
            slv_nonposted_wr_data_word_received0: None,
            slv_nonposted_wr_data_word_received1: None,
            slv_posted_wr_data_word_received0: None,
            slv_posted_wr_data_word_received1: None,
            slv_rd_data_word_sent0: None,
            slv_rd_data_word_sent1: None,
        }
    }

    /// Reads every counter, in decimal, from the files of the counters directory.
    pub fn update_from_dir(&mut self, entries: &Vec<AttrFile>)
        ensures
            *final(self) == counters_from(entries@),
    {
        let d = Encoding::DecU32;
        self.mst_nonposted_wr_data_word_sent0 = read_u32(entries, "mst_nonposted_wr_data_word_sent0", d);
        self.mst_nonposted_wr_data_word_sent1 = read_u32(entries, "mst_nonposted_wr_data_word_sent1", d);
        self.mst_posted_wr_data_word_sent0 = read_u32(entries, "mst_posted_wr_data_word_sent0", d);
        self.mst_posted_wr_data_word_sent1 = read_u32(entries, "mst_posted_wr_data_word_sent1", d);
        self.mst_rd_data_word_received0 = read_u32(entries, "mst_rd_data_word_received0", d);
        self.mst_rd_data_word_received1 = read_u32(entries, "mst_rd_data_word_received1", d);
        self.slv_nonposted_wr_data_word_received0 = read_u32(entries, "slv_nonposted_wr_data_word_received0", d);
        self.slv_nonposted_wr_data_word_received1 = read_u32(entries, "slv_nonposted_wr_data_word_received1", d);
        self.slv_posted_wr_data_word_received0 = read_u32(entries, "slv_posted_wr_data_word_received0", d);
        self.slv_posted_wr_data_word_received1 = read_u32(entries, "slv_posted_wr_data_word_received1", d);
        self.slv_rd_data_word_sent0 = read_u32(entries, "slv_rd_data_word_sent0", d);
        self.slv_rd_data_word_sent1 = read_u32(entries, "slv_rd_data_word_sent1", d);
    }
}

impl Telemetry {
    /// All readings absent.
    pub fn new() -> (r: Self)
        ensures
            r == telemetry_from(Seq::empty()),
    {
        Telemetry { current: None, power: None, asic_temp: None, vcore: None, fan_rpm: None }
    }

    /// Reads every sensor, in decimal, from the files of a sensor directory.
    pub fn update_from_dir(&mut self, entries: &Vec<AttrFile>)
        ensures
            *final(self) == telemetry_from(entries@),
    {
        let d = Encoding::DecU32;
        self.current = read_u32(entries, "curr1_input", d);
        self.power = read_u32(entries, "power1_input", d);
        self.asic_temp = read_u32(entries, "temp1_input", d);
        self.vcore = read_u32(entries, "in0_input", d);
        self.fan_rpm = read_u32(entries, "fan1_input", d);
    }
}

fn is_sensor_file_name(name: &String) -> (r: bool)
    ensures
        r == is_sensor_name(name@),
{
    *name == String::from_str("curr1_input") || *name == String::from_str("power1_input") || *name
        == String::from_str("temp1_input") || *name == String::from_str("in0_input") || *name
        == String::from_str("fan1_input")
}

/// Finds the sensor directory: the first listed one that holds a sensor reading file.
pub fn select_sensor_dir(dirs: &Vec<Vec<AttrFile>>) -> (r: Option<usize>)
    ensures
        match r {
            Some(i) => i < dirs@.len() && sensor_dir(dirs@) == Some(dirs@[i as int]@),
            None => sensor_dir(dirs@) == None::<Seq<AttrFile>>,
        },
{
    let mut i: usize = 0;
    assert(dirs@.subrange(0, dirs@.len() as int) =~= dirs@);
    while i < dirs.len()
        invariant
            i <= dirs@.len(),
            sensor_dir(dirs@) == sensor_dir(dirs@.subrange(i as int, dirs@.len() as int)),
        decreases dirs.len() - i,
    {
        let ghost rest = dirs@.subrange(i as int, dirs@.len() as int);
        assert(rest.drop_first() =~= dirs@.subrange(i + 1, dirs@.len() as int));
        assert(rest[0] == dirs@[i as int]);
        let entries = &dirs[i];
        let mut j: usize = 0;
        while j < entries.len()
            invariant
                j <= entries@.len(),
                i < dirs@.len(),
                *entries == dirs@[i as int],
                rest == dirs@.subrange(i as int, dirs@.len() as int),
                sensor_dir(dirs@) == sensor_dir(rest),
                forall|k: int| 0 <= k < j ==> !#[trigger] is_sensor_name(entries@[k].name@),
            decreases entries.len() - j,
        {
            if is_sensor_file_name(&entries[j].name) {
                assert(has_sensor_file(dirs@[i as int]@));
                return Some(i);
            }
            j = j + 1;
        }
        i = i + 1;
    }
    None
}

impl TTDevice {
    /// A device at `path` with nothing read yet, stamped with the current time.
    pub fn new(path: String) -> (r: Self)
        ensures
            r@ == unread_snapshot(path@, r.time),
            r.time.nanos < 1_000_000_000,
    {
        TTDevice {
            time: current_time(),
            device_path: path,
            tt_aiclk: None,
            tt_arcclk: None,
            tt_asic_id: None,
            tt_axiclk: None,
            tt_card_type: None,
            tt_fw_bundle_ver: None,
            tt_m3app_fw_ver: None,
            tt_serial: None,
            pcie_perf_counters: None,
            telemetry: None,
        }
    }

    /// Builds the snapshot of the device at `path`, stamped `time`, from its directory.
    pub fn build(path: String, time: Timestamp, dir: &DeviceDir) -> (r: Self)
        ensures
            r@ == snapshot_of(path@, time, *dir),
    {
        let e = &dir.entries;
        let h = Encoding::HexU32;
        let counters = match &dir.counters {
            Some(c) => {
                let mut p = PciePerfCounters::new();
                p.update_from_dir(c);
                Some(p)
            },
            None => None,
        };
        let telemetry = match select_sensor_dir(&dir.hwmon) {
            Some(i) => {
                let mut t = Telemetry::new();
                t.update_from_dir(&dir.hwmon[i]);
                Some(t)
            },
            None => None,
        };
        TTDevice {
            time,
            device_path: path,
            tt_aiclk: read_u32(e, "tt_aiclk", h),
            tt_arcclk: read_u32(e, "tt_arcclk", h),
            tt_asic_id: read_text(e, "tt_asic_id"),
            tt_axiclk: read_u32(e, "tt_axiclk", h),
            tt_card_type: read_text(e, "tt_card_type"),
            tt_fw_bundle_ver: read_text(e, "tt_fw_bundle_ver"),
            tt_m3app_fw_ver: read_text(e, "tt_m3app_fw_ver"),
            tt_serial: read_text(e, "tt_serial"),
            pcie_perf_counters: counters,
            telemetry,
        }
    }

    /// Reads the device's directory anew, stamped with the current time, taken once
    /// before any field is set.
    pub fn update(&mut self, dir: &DeviceDir)
        ensures
            final(self)@ == snapshot_of(old(self).device_path@, final(self).time, *dir),
            final(self).time.nanos < 1_000_000_000,
    {
        let time = current_time();
        let path = self.device_path.clone();
        *self = TTDevice::build(path, time, dir);
    }
}

/// Why a device produced no fresh snapshot in a collection pass.
#[derive(Clone, Copy, Debug, PartialEq, Eq, Structural)]
pub enum DeviceError {
    /// The device directory itself could not be listed (the device vanished).
    Unreadable,
}

/// One device for each path of the device registry listing, in listing order, with
/// nothing read yet.
pub fn get_tenstorrent_devices(paths: &Vec<String>) -> (r: Vec<TTDevice>)
    ensures
        r@.len() == paths@.len(),
        forall|i: int| 0 <= i < paths@.len() ==> (#[trigger] r@[i]).device_path@ == paths@[i]@,
        forall|i: int|
            0 <= i < paths@.len() ==> #[trigger] r@[i]@ == unread_snapshot(paths@[i]@, r@[i].time),
{
    let mut devices: Vec<TTDevice> = Vec::new();
    let mut i: usize = 0;
    while i < paths.len()
        invariant
            i <= paths@.len(),
            devices@.len() == i,
            forall|k: int| 0 <= k < i ==> (#[trigger] devices@[k]).device_path@ == paths@[k]@,
            forall|k: int|
                0 <= k < i ==> #[trigger] devices@[k]@ == unread_snapshot(
                    paths@[k]@,
                    devices@[k].time,
                ),
        decreases paths.len() - i,
    {
        let d = TTDevice::new(paths[i].clone());
        devices.push(d);
        i = i + 1;
    }
    devices
}

/// `a` and `b` agree in every field but the time stamp.
pub open spec fn same_but_time(a: TTDeviceView, b: TTDeviceView) -> bool {
    a == (TTDeviceView { time: a.time, ..b })
}

/// `after` is what one collection pass makes of `before` from what was read of each
/// device's directory: every device keeps its place and its path; one whose directory
/// was read is rebuilt from it (with a time stamp of its own), the others are unchanged.
pub open spec fn refreshed(
    before: Seq<TTDevice>,
    after: Seq<TTDevice>,
    dirs: Seq<Option<DeviceDir>>,
) -> bool {
    &&& before.len() == dirs.len()
    &&& after.len() == dirs.len()
    &&& forall|i: int|
        0 <= i < dirs.len() ==> (#[trigger] after[i]).device_path@ == before[i].device_path@
    &&& forall|i: int|
        0 <= i < dirs.len() ==> match #[trigger] dirs[i] {
            Some(d) => after[i]@ == snapshot_of(before[i].device_path@, after[i].time, d),
            None => after[i]@ == before[i]@,
        }
}

/// Reads every device anew from what was read of its directory (`None`: the directory
/// could not be listed). A device whose directory is missing keeps its previous snapshot
/// and reports `DeviceError::Unreadable`; the others are unaffected by it.
pub fn update_tenstorrent_devices(devices: &mut Vec<TTDevice>, dirs: &Vec<Option<DeviceDir>>) -> (r:
    Vec<Result<(), DeviceError>>)
    requires
        old(devices)@.len() == dirs@.len(),
    ensures
        refreshed(old(devices)@, final(devices)@, dirs@),
        r@.len() == dirs@.len(),
        forall|i: int|
            0 <= i < dirs@.len() ==> (#[trigger] r@[i] == Ok::<(), DeviceError>(())) == dirs@[i] is Some,
        forall|i: int|
            0 <= i < dirs@.len() ==> (#[trigger] r@[i] == Err::<(), DeviceError>(DeviceError::Unreadable))
                == dirs@[i] is None,
{
    let ghost before = devices@;
    let mut results: Vec<Result<(), DeviceError>> = Vec::new();
    let mut i: usize = 0;
    while i < dirs.len()
        invariant
            i <= dirs@.len(),
            before.len() == dirs@.len(),
            devices@.len() == before.len(),
            results@.len() == i,
            forall|k: int| i <= k < before.len() ==> #[trigger] devices@[k] == before[k],
            forall|k: int| 0 <= k < i ==> (#[trigger] devices@[k]).device_path@ == before[k].device_path@,
            forall|k: int|
                0 <= k < i ==> match #[trigger] dirs@[k] {
                    Some(d) => devices@[k]@ == snapshot_of(before[k].device_path@, devices@[k].time, d)
                        && results@[k] == Ok::<(), DeviceError>(()),
                    None => devices@[k]@ == before[k]@ && results@[k] == Err::<(), DeviceError>(
                        DeviceError::Unreadable,
                    ),
                },
        decreases dirs.len() - i,
    {
        match &dirs[i] {
            Some(d) => {
                let time = current_time();
                let path = devices[i].device_path.clone();
                let fresh = TTDevice::build(path, time, d);
                devices.set(i, fresh);
                results.push(Ok(()));
            },
            None => {
                results.push(Err(DeviceError::Unreadable));
            },
        }
        i = i + 1;
    }
    assert forall|k: int| 0 <= k < dirs@.len() implies (#[trigger] results@[k] == Ok::<(), DeviceError>(()))
        == dirs@[k] is Some by {
        match dirs@[k] {
            Some(d) => {},
            None => {},
        }
    }
    assert forall|k: int| 0 <= k < dirs@.len() implies (#[trigger] results@[k] == Err::<(), DeviceError>(
        DeviceError::Unreadable,
    )) == dirs@[k] is None by {
        match dirs@[k] {
            Some(d) => {},
            None => {},
        }
    }
    results
}

/// Two collection passes in a row over unchanged directories give, device by device,
/// snapshots that agree in every field but the time stamp.
pub proof fn lemma_pass_idempotent(
    start: Seq<TTDevice>,
    first: Seq<TTDevice>,
    second: Seq<TTDevice>,
    dirs: Seq<Option<DeviceDir>>,
)
    requires
        refreshed(start, first, dirs),
        refreshed(first, second, dirs),
    ensures
        forall|i: int| 0 <= i < dirs.len() ==> same_but_time(#[trigger] first[i]@, second[i]@),
{
    assert forall|i: int| 0 <= i < dirs.len() implies same_but_time(#[trigger] first[i]@, second[i]@) by {
        assert(first[i].device_path@ == start[i].device_path@);
        match dirs[i] {
            Some(d) => {},
            None => {},
        }
    }
}

/// The snapshot with the field read from attribute file `name` made absent; a name that
/// is no attribute of the device changes nothing.
pub open spec fn clear_attribute(v: TTDeviceView, name: Seq<char>) -> TTDeviceView {
    TTDeviceView {
        tt_aiclk: if name == "tt_aiclk"@ { None } else { v.tt_aiclk },
        tt_arcclk: if name == "tt_arcclk"@ { None } else { v.tt_arcclk },
        tt_asic_id: if name == "tt_asic_id"@ { None } else { v.tt_asic_id },
        tt_axiclk: if name == "tt_axiclk"@ { None } else { v.tt_axiclk },
        tt_card_type: if name == "tt_card_type"@ { None } else { v.tt_card_type },
        tt_fw_bundle_ver: if name == "tt_fw_bundle_ver"@ { None } else { v.tt_fw_bundle_ver },
        tt_m3app_fw_ver: if name == "tt_m3app_fw_ver"@ { None } else { v.tt_m3app_fw_ver },
        tt_serial: if name == "tt_serial"@ { None } else { v.tt_serial },
        ..v
    }
}

/// A device directory that lacks the file `gone` yields the snapshot of the full
/// directory with that one field absent: every sibling field, and both nested records,
/// are as before.
pub proof fn lemma_missing_file_clears_only_its_field(
    path: Seq<char>,
    time: Timestamp,
    full: DeviceDir,
    partial: DeviceDir,
    gone: Seq<char>,
)
    requires
        partial.entries@ == without(full.entries@, gone),
        partial.counters == full.counters,
        partial.hwmon == full.hwmon,
    ensures
        snapshot_of(path, time, partial) == clear_attribute(snapshot_of(path, time, full), gone),
{
    let e = full.entries@;
    let names = seq![
        "tt_aiclk"@,
        "tt_arcclk"@,
        "tt_asic_id"@,
        "tt_axiclk"@,
        "tt_card_type"@,
        "tt_fw_bundle_ver"@,
        "tt_m3app_fw_ver"@,
        "tt_serial"@,
    ];
    assert forall|k: int| 0 <= k < names.len() implies file_text(without(e, gone), #[trigger] names[k])
        == (if names[k] == gone {
        None
    } else {
        file_text(e, names[k])
    }) by {
        lemma_missing_attribute(e, gone, names[k]);
    }
}

/// Without a counters directory the snapshot has no counters record, and every other
/// field is what it would be with one.
pub proof fn lemma_absent_counters(path: Seq<char>, time: Timestamp, dir: DeviceDir, other: DeviceDir)
    requires
        dir.counters is None,
        dir.entries == other.entries,
        dir.hwmon == other.hwmon,
    ensures
        snapshot_of(path, time, dir) == (TTDeviceView {
            pcie_perf_counters: None,
            ..snapshot_of(path, time, other)
        }),
{
}

/// Two snapshots built from the same directory differ at most in their time stamps.
pub proof fn lemma_refresh_idempotent(path: Seq<char>, t1: Timestamp, t2: Timestamp, dir: DeviceDir)
    ensures
        snapshot_of(path, t1, dir) == (TTDeviceView { time: t1, ..snapshot_of(path, t2, dir) }),
{
}

} // verus!
