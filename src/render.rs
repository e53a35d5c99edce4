use vstd::prelude::*;
use crate::device::{
    get_tenstorrent_devices, snapshot_of, unread_snapshot, update_tenstorrent_devices, DeviceDir,
    PciePerfCounters, TTDevice, TTDeviceView, Telemetry, Timestamp,
};
use crate::text::{push_decimal, radix_digits};

verus! {

/// One line of the served text: `name: value`.
pub open spec fn line(name: Seq<char>, value: Seq<char>) -> Seq<char> {
    name + ": "@ + value + "\n"@
}

/// The word that stands for an absent field.
pub open spec fn unknown() -> Seq<char> {
    "unknown"@
}

pub open spec fn text_or_unknown(o: Option<Seq<char>>) -> Seq<char> {
    match o {
        Some(s) => s,
        None => unknown(),
    }
}

pub open spec fn number_or_unknown(o: Option<u32>) -> Seq<char> {
    match o {
        Some(n) => radix_digits(n as nat, 10),
        None => unknown(),
    }
}

/// An integer in decimal, with a leading `-` when negative.
pub open spec fn int_text(v: int) -> Seq<char> {
    if v < 0 {
        "-"@ + radix_digits((-v) as nat, 10)
    } else {
        radix_digits(v as nat, 10)
    }
}

/// A time stamp as the signed number of nanoseconds since the Unix epoch.
pub open spec fn time_text(t: Timestamp) -> Seq<char> {
    int_text(t.secs * 1_000_000_000 + t.nanos)
}

/// The counters record, with every counter absent where there is none.
pub open spec fn counters_or_absent(c: Option<PciePerfCounters>) -> PciePerfCounters {
    match c {
        Some(p) => p,
        None => PciePerfCounters {
            mst_nonposted_wr_data_word_sent0: None,
            mst_nonposted_wr_data_word_sent1: None,
            mst_posted_wr_data_word_sent0: None,
            mst_posted_wr_data_word_sent1: None,
            mst_rd_data_word_received0: None,
            mst_rd_data_word_received1: None,
            slv_nonposted_wr_data_word_received0: None,
            slv_nonposted_wr_data_word_received1: None,
            slv_posted_wr_data_word_received0: None,
            slv_posted_wr_data_word_received1: None,
            slv_rd_data_word_sent0: None,
            slv_rd_data_word_sent1: None,
        },
    }
}

/// The telemetry record, with every reading absent where there is none.
pub open spec fn telemetry_or_absent(t: Option<Telemetry>) -> Telemetry {
    match t {
        Some(t) => t,
        None => Telemetry { current: None, power: None, asic_temp: None, vcore: None, fan_rpm: None },
    }
}

pub open spec fn identity_lines(v: TTDeviceView) -> Seq<char> {
    line("device_path"@, v.device_path) + line("captured_at"@, time_text(v.time)) + line(
        "tt_card_type"@,
        text_or_unknown(v.tt_card_type),
    ) + line("tt_asic_id"@, text_or_unknown(v.tt_asic_id)) + line(
        "tt_serial"@,
        text_or_unknown(v.tt_serial),
    ) + line("tt_fw_bundle_ver"@, text_or_unknown(v.tt_fw_bundle_ver)) + line(
        "tt_m3app_fw_ver"@,
        text_or_unknown(v.tt_m3app_fw_ver),
    ) + line("tt_aiclk"@, number_or_unknown(v.tt_aiclk)) + line(
        "tt_arcclk"@,
        number_or_unknown(v.tt_arcclk),
    ) + line("tt_axiclk"@, number_or_unknown(v.tt_axiclk))
}

pub open spec fn counter_lines(c: PciePerfCounters) -> Seq<char> {
    line("mst_nonposted_wr_data_word_sent0"@, number_or_unknown(c.mst_nonposted_wr_data_word_sent0))
        + line("mst_nonposted_wr_data_word_sent1"@, number_or_unknown(c.mst_nonposted_wr_data_word_sent1))
        + line("mst_posted_wr_data_word_sent0"@, number_or_unknown(c.mst_posted_wr_data_word_sent0))
        + line("mst_posted_wr_data_word_sent1"@, number_or_unknown(c.mst_posted_wr_data_word_sent1))
        + line("mst_rd_data_word_received0"@, number_or_unknown(c.mst_rd_data_word_received0))
        + line("mst_rd_data_word_received1"@, number_or_unknown(c.mst_rd_data_word_received1))
        + line("slv_nonposted_wr_data_word_received0"@, number_or_unknown(c.slv_nonposted_wr_data_word_received0))
        + line("slv_nonposted_wr_data_word_received1"@, number_or_unknown(c.slv_nonposted_wr_data_word_received1))
        + line("slv_posted_wr_data_word_received0"@, number_or_unknown(c.slv_posted_wr_data_word_received0))
        + line("slv_posted_wr_data_word_received1"@, number_or_unknown(c.slv_posted_wr_data_word_received1))
        + line("slv_rd_data_word_sent0"@, number_or_unknown(c.slv_rd_data_word_sent0))
        + line("slv_rd_data_word_sent1"@, number_or_unknown(c.slv_rd_data_word_sent1))
}

pub open spec fn telemetry_lines(t: Telemetry) -> Seq<char> {
    line("current"@, number_or_unknown(t.current)) + line("power"@, number_or_unknown(t.power))
        + line("asic_temp"@, number_or_unknown(t.asic_temp)) + line("vcore"@, number_or_unknown(t.vcore))
        + line("fan_rpm"@, number_or_unknown(t.fan_rpm))
}

/// The block served for one device: one line per field in a fixed order, then an empty
/// line.
#[verifier::opaque]
pub open spec fn device_block(v: TTDeviceView) -> Seq<char> {
    identity_lines(v) + counter_lines(counters_or_absent(v.pcie_perf_counters)) + telemetry_lines(
        telemetry_or_absent(v.telemetry),
    ) + "\n"@
}

/// The text served for a sequence of snapshots: their blocks, in order.
pub open spec fn response(vs: Seq<TTDeviceView>) -> Seq<char>
    decreases vs.len(),
{
    if vs.len() == 0 {
        Seq::empty()
    } else {
        response(vs.drop_last()) + device_block(vs.last())
    }
}

fn push_line(out: &mut String, name: &str, value: &str)
    ensures
        final(out)@ == old(out)@ + line(name@, value@),
{
    let ghost start = out@;
    out.append(name);
    out.append(": ");
    out.append(value);
    out.append("\n");
    assert(out@ =~= start + line(name@, value@));
}

fn push_text_line(out: &mut String, name: &str, value: &Option<String>)
    ensures
        final(out)@ == old(out)@ + line(
            name@,
            text_or_unknown(
                match value {
                    Some(s) => Some(s@),
                    None => None,
                },
            ),
        ),
{
    match value {
        Some(s) => push_line(out, name, s.as_str()),
        None => {
            proof {
                reveal_strlit("unknown");
            }
            push_line(out, name, "unknown");
        },
    }
}

fn push_number_line(out: &mut String, name: &str, value: Option<u32>)
    ensures
        final(out)@ == old(out)@ + line(name@, number_or_unknown(value)),
{
    match value {
        Some(n) => {
            let mut digits = String::new();
            push_decimal(&mut digits, n as u128);
            assert(digits@ =~= radix_digits(n as nat, 10));
            push_line(out, name, digits.as_str());
        },
        None => push_line(out, name, "unknown"),
    }
}

/// The time stamp as `time_text` writes it: nanoseconds since the Unix epoch.
pub fn render_time(t: Timestamp) -> (r: String)
    ensures
        r@ == time_text(t),
{
    let v: i128 = (t.secs as i128) * 1_000_000_000 + (t.nanos as i128);
    let mut out = String::new();
    if v < 0 {
        out.append("-");
        push_decimal(&mut out, (-v) as u128);
    } else {
        push_decimal(&mut out, v as u128);
    }
    assert(out@ =~= time_text(t));
    out
}

fn render_counters(c: &PciePerfCounters) -> (r: String)
    ensures
        r@ == counter_lines(*c),
{
    let mut o = String::new();
    push_number_line(&mut o, "mst_nonposted_wr_data_word_sent0", c.mst_nonposted_wr_data_word_sent0);
    assert(o@ =~= line("mst_nonposted_wr_data_word_sent0"@, number_or_unknown(c.mst_nonposted_wr_data_word_sent0)));
    push_number_line(&mut o, "mst_nonposted_wr_data_word_sent1", c.mst_nonposted_wr_data_word_sent1);
    push_number_line(&mut o, "mst_posted_wr_data_word_sent0", c.mst_posted_wr_data_word_sent0);
    push_number_line(&mut o, "mst_posted_wr_data_word_sent1", c.mst_posted_wr_data_word_sent1);
    push_number_line(&mut o, "mst_rd_data_word_received0", c.mst_rd_data_word_received0);
    push_number_line(&mut o, "mst_rd_data_word_received1", c.mst_rd_data_word_received1);
    push_number_line(&mut o, "slv_nonposted_wr_data_word_received0", c.slv_nonposted_wr_data_word_received0);
    push_number_line(&mut o, "slv_nonposted_wr_data_word_received1", c.slv_nonposted_wr_data_word_received1);
    push_number_line(&mut o, "slv_posted_wr_data_word_received0", c.slv_posted_wr_data_word_received0);
    push_number_line(&mut o, "slv_posted_wr_data_word_received1", c.slv_posted_wr_data_word_received1);
    push_number_line(&mut o, "slv_rd_data_word_sent0", c.slv_rd_data_word_sent0);
    push_number_line(&mut o, "slv_rd_data_word_sent1", c.slv_rd_data_word_sent1);
    o
}

fn render_telemetry(t: &Telemetry) -> (r: String)
    ensures
        r@ == telemetry_lines(*t),
{
    let mut o = String::new();
    push_number_line(&mut o, "current", t.current);
    assert(o@ =~= line("current"@, number_or_unknown(t.current)));
    push_number_line(&mut o, "power", t.power);
    push_number_line(&mut o, "asic_temp", t.asic_temp);
    push_number_line(&mut o, "vcore", t.vcore);
    push_number_line(&mut o, "fan_rpm", t.fan_rpm);
    o
}

fn render_identity(d: &TTDevice) -> (r: String)
    ensures
        r@ == identity_lines(d@),
{
    let mut o = String::new();
    push_line(&mut o, "device_path", d.device_path.as_str());
    assert(o@ =~= line("device_path"@, d.device_path@));
    let t = render_time(d.time);
    push_line(&mut o, "captured_at", t.as_str());
    push_text_line(&mut o, "tt_card_type", &d.tt_card_type);
    push_text_line(&mut o, "tt_asic_id", &d.tt_asic_id);
    push_text_line(&mut o, "tt_serial", &d.tt_serial);
    push_text_line(&mut o, "tt_fw_bundle_ver", &d.tt_fw_bundle_ver);
    push_text_line(&mut o, "tt_m3app_fw_ver", &d.tt_m3app_fw_ver);
    push_number_line(&mut o, "tt_aiclk", d.tt_aiclk);
    push_number_line(&mut o, "tt_arcclk", d.tt_arcclk);
    push_number_line(&mut o, "tt_axiclk", d.tt_axiclk);
    o
}

/// The block served for one device: `name: value` lines in a fixed order, `unknown` for
/// every absent field (also the fields of an absent nested record), then an empty line.
pub fn render_device(d: &TTDevice) -> (r: String)
    ensures
        r@ == device_block(d@),
{
    let mut o = render_identity(d);
    let counters = match d.pcie_perf_counters {
        Some(c) => c,
        None => PciePerfCounters::new(),
    };
    let c = render_counters(&counters);
    o.append(c.as_str());
    let telemetry = match d.telemetry {
        Some(t) => t,
        None => Telemetry::new(),
    };
    let t = render_telemetry(&telemetry);
    o.append(t.as_str());
    o.append("\n");
    proof {
        reveal(device_block);
    }
    o
}

/// The text served to a client: the blocks of the devices, in the order given.
pub fn render_devices(devices: &Vec<TTDevice>) -> (r: String)
    ensures
        r@ == response(devices@.map_values(|d: TTDevice| d@)),
{
    let ghost views = devices@.map_values(|d: TTDevice| d@);
    let mut out = String::new();
    let mut i: usize = 0;
    while i < devices.len()
        invariant
            i <= devices@.len(),
            views == devices@.map_values(|d: TTDevice| d@),
            out@ == response(views.subrange(0, i as int)),
        decreases devices.len() - i,
    {
        let b = render_device(&devices[i]);
        out.append(b.as_str());
        assert(views.subrange(0, i + 1).drop_last() =~= views.subrange(0, i as int));
        i = i + 1;
    }
    assert(views.subrange(0, devices@.len() as int) =~= views);
    out
}

/// `v` is the snapshot of the device at `path`, built from `dir` where that was read and
/// with nothing read where the directory could not be listed.
pub open spec fn built_from(v: TTDeviceView, path: Seq<char>, dir: Option<DeviceDir>) -> bool {
    match dir {
        Some(d) => v == snapshot_of(path, v.time, d),
        None => v == unread_snapshot(path, v.time),
    }
}

/// The snapshots with every time stamp set to the epoch: the served text of these is the
/// served text with each `captured_at` line made the same.
pub open spec fn untimed(vs: Seq<TTDeviceView>) -> Seq<TTDeviceView> {
    vs.map_values(|v: TTDeviceView| TTDeviceView { time: Timestamp { secs: 0, nanos: 0 }, ..v })
}

/// One collection pass and its text, as served on each connection: a device for each
/// path of the registry listing, in that order, built from what was read of its directory
/// (`None`: the directory could not be listed, and the device's block shows every field
/// `unknown`). Each device is stamped when its build starts.
pub fn snapshot_response(paths: &Vec<String>, dirs: &Vec<Option<DeviceDir>>) -> (r: String)
    requires
        paths@.len() == dirs@.len(),
    ensures
        exists|vs: Seq<TTDeviceView>|
            {
                &&& vs.len() == paths@.len()
                &&& r@ == response(vs)
                &&& forall|i: int|
                    0 <= i < vs.len() ==> built_from(#[trigger] vs[i], paths@[i]@, dirs@[i])
            },
{
    let mut devices = get_tenstorrent_devices(paths);
    let ghost created = devices@;
    let _ = update_tenstorrent_devices(&mut devices, dirs);
    let r = render_devices(&devices);
    let ghost vs = devices@.map_values(|d: TTDevice| d@);
    assert forall|i: int| 0 <= i < vs.len() implies built_from(#[trigger] vs[i], paths@[i]@, dirs@[i]) by {
        assert(vs[i] == devices@[i]@);
        assert(created[i]@ == unread_snapshot(paths@[i]@, created[i].time));
        assert(created[i].device_path@ == paths@[i]@);
        match dirs@[i] {
            Some(d) => {},
            None => {},
        }
    }
    r
}

/// Two responses built from the same device paths and the same reads differ only in
/// their `captured_at` lines: with those made equal, the texts are equal.
pub proof fn lemma_responses_differ_only_in_time(
    paths: Seq<String>,
    dirs: Seq<Option<DeviceDir>>,
    vs1: Seq<TTDeviceView>,
    vs2: Seq<TTDeviceView>,
)
    requires
        vs1.len() == paths.len(),
        vs2.len() == paths.len(),
        dirs.len() == paths.len(),
        forall|i: int| 0 <= i < paths.len() ==> built_from(#[trigger] vs1[i], paths[i]@, dirs[i]),
        forall|i: int| 0 <= i < paths.len() ==> built_from(#[trigger] vs2[i], paths[i]@, dirs[i]),
    ensures
        response(untimed(vs1)) == response(untimed(vs2)),
{
    assert forall|i: int| 0 <= i < paths.len() implies #[trigger] untimed(vs1)[i] == untimed(vs2)[i] by {
        assert(built_from(vs1[i], paths[i]@, dirs[i]));
        assert(built_from(vs2[i], paths[i]@, dirs[i]));
    }
    assert(untimed(vs1) =~= untimed(vs2));
}

/// The text served never reorders devices: the block of the device at `i` comes after
/// the blocks of all earlier devices and before those of all later ones.
pub proof fn lemma_order_preserved(vs: Seq<TTDeviceView>, i: int)
    requires
        0 <= i < vs.len(),
    ensures
        response(vs) == response(vs.subrange(0, i)) + device_block(vs[i]) + response(
            vs.subrange(i + 1, vs.len() as int),
        ),
{
    lemma_response_split(vs, i + 1);
    assert(vs.subrange(0, i + 1).drop_last() =~= vs.subrange(0, i));
}

/// The text for a sequence is the text for its first `k` snapshots followed by that for
/// the rest.
pub proof fn lemma_response_split(vs: Seq<TTDeviceView>, k: int)
    requires
        0 <= k <= vs.len(),
    ensures
        response(vs) == response(vs.subrange(0, k)) + response(vs.subrange(k, vs.len() as int)),
    decreases vs.len() - k,
{
    if k == vs.len() {
        assert(vs.subrange(0, k) =~= vs);
        assert(vs.subrange(k, vs.len() as int) =~= Seq::<TTDeviceView>::empty());
        assert(response(vs) + Seq::<char>::empty() =~= response(vs));
    } else {
        let n = vs.len();
        lemma_response_split(vs.drop_last(), k);
        assert(vs.drop_last().subrange(0, k) =~= vs.subrange(0, k));
        let tail = vs.subrange(k, n as int);
        assert(tail.drop_last() =~= vs.drop_last().subrange(k, n - 1));
        assert(tail.last() == vs.last());
        assert(response(vs.subrange(0, k)) + response(tail.drop_last()) + device_block(vs.last()) =~= response(
            vs.subrange(0, k),
        ) + (response(tail.drop_last()) + device_block(vs.last())));
    }
}

} // verus!
