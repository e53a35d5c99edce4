use tt_health_daemon::{
    get_tenstorrent_devices, render_device, render_devices, render_time, select_sensor_dir,
    snapshot_response, update_tenstorrent_devices, AttrFile, DeviceDir, DeviceError,
    PciePerfCounters, TTDevice, TTDeviceFlat, Telemetry, Timestamp,
};

fn file(name: &str, content: &str) -> AttrFile {
    AttrFile { name: name.to_string(), content: Some(content.to_string()) }
}

fn full_dir() -> DeviceDir {
    DeviceDir {
        entries: vec![
            file("tt_aiclk", "3e8\n"),
            file("tt_arcclk", "21c\n"),
            file("tt_asic_id", "0x1234\n"),
            file("tt_axiclk", "384\n"),
            file("tt_card_type", "n300\n"),
            file("tt_fw_bundle_ver", "80.10.0.0\n"),
            file("tt_m3app_fw_ver", "5.8.0.1\n"),
            file("tt_serial", "SN042\n"),
            file("uevent", "whatever\n"),
        ],
        counters: Some(vec![
            file("mst_nonposted_wr_data_word_sent0", "1\n"),
            file("mst_rd_data_word_received1", "77\n"),
            file("slv_rd_data_word_sent1", "0\n"),
        ]),
        hwmon: vec![
            vec![file("name", "other\n")],
            vec![file("curr1_input", "12000\n"), file("temp1_input", "45000\n"), file("fan1_input", "bad")],
        ],
    }
}

fn at(secs: i64) -> Timestamp {
    Timestamp { secs, nanos: 5 }
}

#[test]
fn builds_every_field_with_its_encoding() {
    let d = TTDevice::build("/sys/class/tenstorrent/0".to_string(), at(1), &full_dir());
    assert_eq!(d.device_path, "/sys/class/tenstorrent/0");
    assert_eq!(d.time, at(1));
    assert_eq!(d.tt_aiclk, Some(1000));
    assert_eq!(d.tt_arcclk, Some(540));
    assert_eq!(d.tt_axiclk, Some(900));
    assert_eq!(d.tt_asic_id.as_deref(), Some("0x1234"));
    assert_eq!(d.tt_card_type.as_deref(), Some("n300"));
    assert_eq!(d.tt_fw_bundle_ver.as_deref(), Some("80.10.0.0"));
    assert_eq!(d.tt_m3app_fw_ver.as_deref(), Some("5.8.0.1"));
    assert_eq!(d.tt_serial.as_deref(), Some("SN042"));
    let c = d.pcie_perf_counters.unwrap();
    assert_eq!(c.mst_nonposted_wr_data_word_sent0, Some(1));
    assert_eq!(c.mst_rd_data_word_received1, Some(77));
    assert_eq!(c.slv_rd_data_word_sent1, Some(0));
    assert_eq!(c.slv_rd_data_word_sent0, None);
    let t = d.telemetry.unwrap();
    assert_eq!(t, Telemetry { current: Some(12000), power: None, asic_temp: Some(45000), vcore: None, fan_rpm: None });
}

#[test]
fn hex_clock_scenario() {
    let dir = DeviceDir { entries: vec![file("tt_aiclk", " 1a2b\n")], counters: None, hwmon: vec![] };
    let d = TTDevice::build("/dev0".to_string(), at(0), &dir);
    assert_eq!(d.tt_aiclk, Some(6699));
}

#[test]
fn missing_file_leaves_siblings_alone() {
    let full = TTDevice::build("p".to_string(), at(1), &full_dir());
    let mut dir = full_dir();
    dir.entries.retain(|e| e.name != "tt_serial");
    let partial = TTDevice::build("p".to_string(), at(1), &dir);
    assert_eq!(partial.tt_serial, None);
    assert_eq!(partial.tt_card_type, full.tt_card_type);
    assert_eq!(partial.tt_asic_id, full.tt_asic_id);
    assert_eq!(partial.tt_aiclk, full.tt_aiclk);
    assert_eq!(partial.pcie_perf_counters, full.pcie_perf_counters);
    assert_eq!(partial.telemetry, full.telemetry);
}

#[test]
fn absent_counters_directory() {
    let mut dir = full_dir();
    dir.counters = None;
    let d = TTDevice::build("p".to_string(), at(1), &dir);
    assert_eq!(d.pcie_perf_counters, None);
    assert_eq!(d.tt_card_type.as_deref(), Some("n300"));
    assert!(d.telemetry.is_some());
}

#[test]
fn refresh_twice_differs_only_in_time() {
    let a = TTDevice::build("p".to_string(), at(1), &full_dir());
    let b = TTDevice::build("p".to_string(), at(2), &full_dir());
    assert_ne!(a.time, b.time);
    let mut b_as_a = b;
    b_as_a.time = a.time;
    assert_eq!(render_device(&a), render_device(&b_as_a));
}

#[test]
fn sensor_directory_is_found_by_its_files() {
    let dir = full_dir();
    assert_eq!(select_sensor_dir(&dir.hwmon), Some(1));
    assert_eq!(select_sensor_dir(&vec![vec![file("name", "x")]]), None);
    assert_eq!(select_sensor_dir(&vec![]), None);
}

#[test]
fn new_devices_follow_the_listing() {
    let paths = vec!["/a".to_string(), "/b".to_string()];
    let devs = get_tenstorrent_devices(&paths);
    assert_eq!(devs.len(), 2);
    assert_eq!(devs[0].device_path, "/a");
    assert_eq!(devs[1].device_path, "/b");
    assert!(devs[0].tt_serial.is_none() && devs[0].pcie_perf_counters.is_none());
}

#[test]
fn unreadable_device_is_reported_alone() {
    let paths = vec!["/a".to_string(), "/b".to_string()];
    let mut devs = get_tenstorrent_devices(&paths);
    let r = update_tenstorrent_devices(&mut devs, &vec![None, Some(full_dir())]);
    assert_eq!(r, vec![Err(DeviceError::Unreadable), Ok(())]);
    assert_eq!(devs[0].tt_serial, None);
    assert_eq!(devs[1].tt_serial.as_deref(), Some("SN042"));
    assert_eq!(devs[1].device_path, "/b");
}

#[test]
fn update_stamps_and_reads() {
    let mut d = TTDevice::new("/x".to_string());
    d.update(&full_dir());
    assert_eq!(d.device_path, "/x");
    assert_eq!(d.tt_aiclk, Some(1000));
    assert!(d.time.nanos < 1_000_000_000);
    assert!(d.time.secs > 1_600_000_000);
}

#[test]
fn counters_and_telemetry_records() {
    let mut c = PciePerfCounters::new();
    assert_eq!(c.slv_posted_wr_data_word_received0, None);
    c.update_from_dir(&vec![file("slv_posted_wr_data_word_received0", "42\n")]);
    assert_eq!(c.slv_posted_wr_data_word_received0, Some(42));
    assert_eq!(c.mst_posted_wr_data_word_sent1, None);
    let mut t = Telemetry::new();
    assert_eq!(t.power, None);
    t.update_from_dir(&vec![file("power1_input", "55000000"), file("in0_input", "850")]);
    assert_eq!(t.power, Some(55000000));
    assert_eq!(t.vcore, Some(850));
}

#[test]
fn time_stamp_text() {
    assert_eq!(render_time(Timestamp { secs: 1700000000, nanos: 42 }), "1700000000000000042");
    assert_eq!(render_time(Timestamp { secs: 0, nanos: 999999999 }), "999999999");
    assert_eq!(render_time(Timestamp { secs: 0, nanos: 0 }), "0");
    assert_eq!(render_time(Timestamp { secs: -1, nanos: 999999999 }), "-1");
    assert_eq!(render_time(Timestamp { secs: -2, nanos: 0 }), "-2000000000");
    assert_eq!(render_time(Timestamp { secs: i64::MIN, nanos: 0 }), "-9223372036854775808000000000");
}

#[test]
fn device_block_format() {
    let d = TTDevice::build("/dev/0".to_string(), Timestamp { secs: 7, nanos: 0 }, &full_dir());
    let text = render_device(&d);
    let lines: Vec<&str> = text.lines().collect();
    assert_eq!(lines[0], "device_path: /dev/0");
    assert_eq!(lines[1], "captured_at: 7000000000");
    assert_eq!(lines[2], "tt_card_type: n300");
    assert_eq!(lines[3], "tt_asic_id: 0x1234");
    assert_eq!(lines[4], "tt_serial: SN042");
    assert_eq!(lines[7], "tt_aiclk: 1000");
    assert_eq!(lines[10], "mst_nonposted_wr_data_word_sent0: 1");
    assert_eq!(lines[11], "mst_nonposted_wr_data_word_sent1: unknown");
    assert_eq!(lines[21], "slv_rd_data_word_sent1: 0");
    assert_eq!(lines[22], "current: 12000");
    assert_eq!(lines[23], "power: unknown");
    assert_eq!(lines[26], "fan_rpm: unknown");
    assert_eq!(lines[27], "");
    assert_eq!(lines.len(), 28);
    assert!(text.ends_with("fan_rpm: unknown\n\n"));
}

#[test]
fn three_devices_scenario() {
    let paths: Vec<String> = (0..3).map(|i| format!("/sys/class/tenstorrent/{}", i)).collect();
    let dirs: Vec<Option<DeviceDir>> = ["SN001", "SN002", "SN003"]
        .iter()
        .map(|s| {
            Some(DeviceDir {
                entries: vec![file("tt_card_type", "n150"), file("tt_serial", s)],
                counters: None,
                hwmon: vec![],
            })
        })
        .collect();
    let text = snapshot_response(&paths, &dirs);
    let blocks: Vec<&str> = text.split("\n\n").filter(|b| !b.is_empty()).collect();
    assert_eq!(blocks.len(), 3);
    for (i, b) in blocks.iter().enumerate() {
        assert!(b.starts_with(&format!("device_path: /sys/class/tenstorrent/{}\n", i)));
        assert!(b.contains("tt_card_type: n150\n"));
        assert!(b.contains(&format!("tt_serial: SN00{}\n", i + 1)));
        assert!(b.contains("tt_aiclk: unknown\n"));
        assert!(b.contains("mst_rd_data_word_received0: unknown\n"));
        assert!(b.contains("slv_rd_data_word_sent1: unknown\n"));
        assert!(b.contains("asic_temp: unknown"));
        assert!(b.contains("fan_rpm: unknown"));
    }
}

#[test]
fn response_keeps_enumeration_order() {
    let names = ["c", "a", "b"];
    let devs: Vec<TTDevice> = names
        .iter()
        .map(|n| {
            TTDevice::build(
                format!("/{}", n),
                at(1),
                &DeviceDir { entries: vec![file("tt_serial", n)], counters: None, hwmon: vec![] },
            )
        })
        .collect();
    let text = render_devices(&devs);
    let pos: Vec<usize> = names.iter().map(|n| text.find(&format!("device_path: /{}\n", n)).unwrap()).collect();
    assert!(pos[0] < pos[1] && pos[1] < pos[2]);
    let joined: String = devs.iter().map(render_device).collect();
    assert_eq!(text, joined);
    assert_eq!(render_devices(&vec![]), "");
}

#[test]
fn unreadable_device_renders_unknown() {
    let text = snapshot_response(&vec!["/gone".to_string()], &vec![None]);
    assert!(text.starts_with("device_path: /gone\n"));
    assert!(text.contains("tt_serial: unknown\n"));
}

#[test]
fn flat_record_spreads_nested_records() {
    let d = TTDevice::build("p".to_string(), at(3), &full_dir());
    let f = TTDeviceFlat::from(d);
    assert_eq!(f.time, at(3));
    assert_eq!(f.tt_serial.as_deref(), Some("SN042"));
    assert_eq!(f.tt_aiclk, Some(1000));
    assert_eq!(f.mst_rd_data_word_received1, Some(77));
    assert_eq!(f.current, Some(12000));
    assert_eq!(f.fan_rpm, None);
    let mut dir = full_dir();
    dir.counters = None;
    dir.hwmon = vec![];
    let g = TTDeviceFlat::from(TTDevice::build("p".to_string(), at(3), &dir));
    assert_eq!(g.mst_rd_data_word_received1, None);
    assert_eq!(g.current, None);
}

#[test]
fn two_passes_differ_only_in_time() {
    let paths = vec!["/a".to_string(), "/b".to_string()];
    let dirs = vec![Some(full_dir()), None];
    let mut devs = get_tenstorrent_devices(&paths);
    update_tenstorrent_devices(&mut devs, &dirs);
    let first: Vec<String> = devs.iter().map(render_device).collect();
    update_tenstorrent_devices(&mut devs, &dirs);
    let second: Vec<String> = devs.iter().map(render_device).collect();
    assert_eq!(devs[0].device_path, "/a");
    assert_eq!(devs[1].device_path, "/b");
    for (a, b) in first.iter().zip(second.iter()) {
        let strip = |t: &str| t.lines().filter(|l| !l.starts_with("captured_at: ")).collect::<Vec<_>>().join("\n");
        assert_eq!(strip(a), strip(b));
    }
}

#[test]
fn two_responses_differ_only_in_captured_at() {
    let paths = vec!["/a".to_string(), "/b".to_string()];
    let strip = |t: String| t.lines().filter(|l| !l.starts_with("captured_at: ")).map(|l| format!("{}\n", l)).collect::<String>();
    let r1 = snapshot_response(&paths, &vec![Some(full_dir()), Some(full_dir())]);
    let r2 = snapshot_response(&paths, &vec![Some(full_dir()), Some(full_dir())]);
    assert_eq!(strip(r1), strip(r2));
}
