use vstd::prelude::*;
use crate::device::{PciePerfCounters, TTDevice, Telemetry, Timestamp};

verus! {

/// One device snapshot as a single flat record, the shape a time-series store takes:
/// the nested records are spread into fields of their own, absent where the record is.
pub struct TTDeviceFlat {
    pub time: Timestamp,
    pub device_path: String,
    pub tt_asic_id: Option<String>,
    pub tt_serial: Option<String>,
    pub tt_aiclk: Option<u32>,
    pub tt_arcclk: Option<u32>,
    pub tt_axiclk: Option<u32>,
    pub tt_card_type: Option<String>,
    pub tt_fw_bundle_ver: Option<String>,
    pub tt_m3app_fw_ver: Option<String>,
    pub mst_nonposted_wr_data_word_sent0: Option<u32>,
    pub mst_nonposted_wr_data_word_sent1: Option<u32>,
    pub mst_posted_wr_data_word_sent0: Option<u32>,
    pub mst_posted_wr_data_word_sent1: Option<u32>,
    pub mst_rd_data_word_received0: Option<u32>,
    pub mst_rd_data_word_received1: Option<u32>,
    pub slv_nonposted_wr_data_word_received0: Option<u32>,
    pub slv_nonposted_wr_data_word_received1: Option<u32>,
    pub slv_posted_wr_data_word_received0: Option<u32>,
    pub slv_posted_wr_data_word_received1: Option<u32>,
    pub slv_rd_data_word_sent0: Option<u32>,
    pub slv_rd_data_word_sent1: Option<u32>,
    pub current: Option<u32>,
    pub power: Option<u32>,
    pub asic_temp: Option<u32>,
    pub vcore: Option<u32>,
    pub fan_rpm: Option<u32>,
}

/// The counters of an optional record, each absent where the record is.
pub open spec fn counter_field(c: Option<PciePerfCounters>, f: spec_fn(PciePerfCounters) -> Option<u32>) -> Option<u32> {
    match c {
        Some(p) => f(p),
        None => None,
    }
}

/// The readings of an optional record, each absent where the record is.
pub open spec fn telemetry_field(t: Option<Telemetry>, f: spec_fn(Telemetry) -> Option<u32>) -> Option<u32> {
    match t {
        Some(r) => f(r),
        None => None,
    }
}

pub open spec fn flatten(d: TTDevice) -> TTDeviceFlat {
    let c = d.pcie_perf_counters;
    let t = d.telemetry;
    TTDeviceFlat {
        time: d.time,
        device_path: d.device_path,
        tt_asic_id: d.tt_asic_id,
        tt_serial: d.tt_serial,
        tt_aiclk: d.tt_aiclk,
        tt_arcclk: d.tt_arcclk,
        tt_axiclk: d.tt_axiclk,
        tt_card_type: d.tt_card_type,
        tt_fw_bundle_ver: d.tt_fw_bundle_ver,
        tt_m3app_fw_ver: d.tt_m3app_fw_ver,
        mst_nonposted_wr_data_word_sent0: counter_field(c, |p: PciePerfCounters| p.mst_nonposted_wr_data_word_sent0),
        mst_nonposted_wr_data_word_sent1: counter_field(c, |p: PciePerfCounters| p.mst_nonposted_wr_data_word_sent1),
        mst_posted_wr_data_word_sent0: counter_field(c, |p: PciePerfCounters| p.mst_posted_wr_data_word_sent0),
        mst_posted_wr_data_word_sent1: counter_field(c, |p: PciePerfCounters| p.mst_posted_wr_data_word_sent1),
        mst_rd_data_word_received0: counter_field(c, |p: PciePerfCounters| p.mst_rd_data_word_received0),
        mst_rd_data_word_received1: counter_field(c, |p: PciePerfCounters| p.mst_rd_data_word_received1),
        slv_nonposted_wr_data_word_received0: counter_field(c, |p: PciePerfCounters| p.slv_nonposted_wr_data_word_received0),
        slv_nonposted_wr_data_word_received1: counter_field(c, |p: PciePerfCounters| p.slv_nonposted_wr_data_word_received1),
        slv_posted_wr_data_word_received0: counter_field(c, |p: PciePerfCounters| p.slv_posted_wr_data_word_received0),
        slv_posted_wr_data_word_received1: counter_field(c, |p: PciePerfCounters| p.slv_posted_wr_data_word_received1),
        slv_rd_data_word_sent0: counter_field(c, |p: PciePerfCounters| p.slv_rd_data_word_sent0),
        slv_rd_data_word_sent1: counter_field(c, |p: PciePerfCounters| p.slv_rd_data_word_sent1),
        current: telemetry_field(t, |r: Telemetry| r.current),
        power: telemetry_field(t, |r: Telemetry| r.power),
        asic_temp: telemetry_field(t, |r: Telemetry| r.asic_temp),
        vcore: telemetry_field(t, |r: Telemetry| r.vcore),
        fan_rpm: telemetry_field(t, |r: Telemetry| r.fan_rpm),
    }
}

impl From<TTDevice> for TTDeviceFlat {
    fn from(device: TTDevice) -> (r: Self) {
        let counters = match device.pcie_perf_counters {
            Some(c) => c,
            None => PciePerfCounters::new(),
        };
        let telemetry = match device.telemetry {
            Some(t) => t,
            None => Telemetry::new(),
        };
        TTDeviceFlat {
            time: device.time,
            device_path: device.device_path,
            tt_asic_id: device.tt_asic_id,
            tt_serial: device.tt_serial,
            tt_aiclk: device.tt_aiclk,
            tt_arcclk: device.tt_arcclk,
            tt_axiclk: device.tt_axiclk,
            tt_card_type: device.tt_card_type,
            tt_fw_bundle_ver: device.tt_fw_bundle_ver,
            tt_m3app_fw_ver: device.tt_m3app_fw_ver,
            mst_nonposted_wr_data_word_sent0: counters.mst_nonposted_wr_data_word_sent0,
            mst_nonposted_wr_data_word_sent1: counters.mst_nonposted_wr_data_word_sent1,
            mst_posted_wr_data_word_sent0: counters.mst_posted_wr_data_word_sent0,
            mst_posted_wr_data_word_sent1: counters.mst_posted_wr_data_word_sent1,
            mst_rd_data_word_received0: counters.mst_rd_data_word_received0,
            mst_rd_data_word_received1: counters.mst_rd_data_word_received1,
            slv_nonposted_wr_data_word_received0: counters.slv_nonposted_wr_data_word_received0,
            slv_nonposted_wr_data_word_received1: counters.slv_nonposted_wr_data_word_received1,
            slv_posted_wr_data_word_received0: counters.slv_posted_wr_data_word_received0,
            slv_posted_wr_data_word_received1: counters.slv_posted_wr_data_word_received1,
            slv_rd_data_word_sent0: counters.slv_rd_data_word_sent0,
            slv_rd_data_word_sent1: counters.slv_rd_data_word_sent1,
            current: telemetry.current,
            power: telemetry.power,
            asic_temp: telemetry.asic_temp,
            vcore: telemetry.vcore,
            fan_rpm: telemetry.fan_rpm,
        }
    }
}

impl vstd::std_specs::convert::FromSpecImpl<TTDevice> for TTDeviceFlat {
    open spec fn obeys_from_spec() -> bool {
        true
    }

    open spec fn from_spec(v: TTDevice) -> TTDeviceFlat {
        flatten(v)
    }
}

} // verus!
