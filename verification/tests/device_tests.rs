use disk_patrol::device::{identity_files, remove_white_space, uniq_of, DeviceInfo, PatrolError};
use disk_patrol::states::{DeviceStates, DeviceValidationError};

fn probe(path: &str, serial: Option<&str>, wwid: Option<&str>, eui: Option<&str>) -> DeviceInfo {
    DeviceInfo::from_probe(
        path.to_string(),
        4 * 1024 * 1024,
        serial.map(|s| s.to_string()),
        wwid.map(|s| s.to_string()),
        eui.map(|s| s.to_string()),
        1_700_000_000,
    )
    .unwrap()
}

#[test]
fn uniq_prefers_wwid_then_eui_then_serial() {
    assert_eq!(uniq_of("S1", "naa.5000", "0011"), Some("naa.5000".to_string()));
    assert_eq!(uniq_of("S1", "", "0011"), Some("eui.0011".to_string()));
    assert_eq!(uniq_of("S1", "", ""), Some("sn.S1".to_string()));
    assert_eq!(uniq_of("", "", ""), None);
    assert_eq!(uniq_of("A B\tC", "", ""), Some("sn.ABC".to_string()));
}

#[test]
fn white_space_is_removed_everywhere() {
    assert_eq!(remove_white_space(" a\u{2003}b \n"), "ab");
    assert_eq!(remove_white_space(""), "");
}

#[test]
fn probe_trims_attribute_files() {
    let info = probe("/dev/sda", Some("  WD-123 \n"), None, Some("\n"));
    assert_eq!(info.serial, "WD-123");
    assert_eq!(info.wwid, "");
    assert_eq!(info.eui, "");
    assert_eq!(info.uniq, "sn.WD-123");
    assert_eq!(info.sectors, 8192);
    assert_eq!(info.last_position, 0);
    assert_eq!(info.patrol_start, 1_700_000_000);
    assert!(info.errors.is_empty());
}

#[test]
fn probe_without_identity_gives_none() {
    let r = DeviceInfo::from_probe("/dev/loop0".to_string(), 1024, None, Some("".into()), None, 5);
    assert!(r.is_none());
}

#[test]
fn identity_files_strip_dev_prefix() {
    let (s, w, e) = identity_files("/dev/nvme0n1");
    assert_eq!(s, "/sys/block/nvme0n1/device/serial");
    assert_eq!(w, "/sys/block/nvme0n1/device/wwid");
    assert_eq!(e, "/sys/block/nvme0n1/eui");
    let (s, _, _) = identity_files("sdb");
    assert_eq!(s, "/sys/block/sdb/device/serial");
}

#[test]
fn completed_cycle_restarts_at_zero() {
    let mut info = probe("/dev/sda", Some("X"), None, None);
    assert!(!info.record_read(1024, 4096, 10));
    assert_eq!(info.last_position, 1024);
    assert!(info.record_read(4096, 4096, 99));
    assert_eq!(info.last_position, 0);
    assert_eq!(info.patrol_start, 99);
}

#[test]
fn read_error_is_recorded_and_skipped() {
    let mut info = probe("/dev/sda", Some("X"), None, None);
    info.last_position = 2048;
    info.record_read_error(77, 2048, "I/O error".to_string(), 1024);
    assert_eq!(info.last_position, 3072);
    assert_eq!(info.errors.len(), 1);
    assert_eq!(info.errors[0].sector, 4);
    assert_eq!(info.errors[0].timestamp, 77);
    assert_eq!(info.errors[0].error, "I/O error");
}

#[test]
fn recent_errors_are_newest_first() {
    let mut info = probe("/dev/sda", Some("X"), None, None);
    for k in 0..5u64 {
        info.errors.push(PatrolError { timestamp: k, sector: k, error: format!("e{}", k) });
    }
    let recent = info.recent_errors(3);
    let sectors: Vec<u64> = recent.iter().map(|e| e.sector).collect();
    assert_eq!(sectors, vec![4, 3, 2]);
    assert_eq!(info.recent_errors(10).len(), 5);
}

#[test]
fn alert_is_taken_once_per_threshold() {
    let mut info = probe("/dev/sda", Some("X"), None, None);
    for k in 0..12u64 {
        info.record_read_error(k, k * 512, "bad".to_string(), 512);
    }
    let alert = info.take_alert(5).unwrap();
    assert_eq!(alert.total_errors, 12);
    assert_eq!(alert.recent.len(), 10);
    assert_eq!(alert.recent[0].timestamp, 11);
    assert_eq!(info.reported_errors, 12);
    assert!(info.take_alert(5).is_none());
    info.record_read_error(99, 0, "bad".to_string(), 512);
    assert!(info.take_alert(2).is_none());
    assert!(info.take_alert(1).is_some());
}

#[test]
fn sync_adds_new_devices_and_keeps_saved_state() {
    let mut states = DeviceStates::new();
    let mut saved = probe("/dev/sda", Some("A"), None, None);
    saved.last_position = 4096;
    states.insert(saved.uniq.clone(), saved);
    let probed = vec![
        probe("/dev/sda", Some("A"), None, None),
        probe("/dev/sdb", Some("B"), None, None),
        probe("/dev/sdc", Some("B"), None, None),
    ];
    let added = states.sync_devices(&probed);
    assert_eq!(added, vec![false, true, false]);
    assert_eq!(states.len(), 2);
    assert_eq!(states.entry(0).info.last_position, 4096);
    assert_eq!(states.entry(1).id, "sn.B");
    assert!(states.contains("sn.B"));
}

#[test]
fn remove_and_clear() {
    let mut states = DeviceStates::new();
    states.sync_devices(&vec![probe("/dev/sda", Some("A"), None, None), probe("/dev/sdb", Some("B"), None, None)]);
    assert!(states.remove("sn.A"));
    assert!(!states.remove("sn.A"));
    assert_eq!(states.len(), 1);
    states.clear();
    assert_eq!(states.len(), 0);
}

#[test]
fn state_updates_by_identifier() {
    let mut states = DeviceStates::new();
    states.sync_devices(&vec![probe("/dev/sda", Some("A"), None, None)]);
    assert!(!states.record_read("sn.A", 1024, 8192, 1));
    assert_eq!(states.entry(0).info.last_position, 1024);
    assert!(states.record_read_error("sn.A", 3, 1024, "oops".to_string(), 1024));
    assert!(!states.record_read_error("sn.Z", 3, 1024, "oops".to_string(), 1024));
    assert_eq!(states.entry(0).info.last_position, 2048);
    assert_eq!(states.entry(0).info.errors.len(), 1);
    assert!(states.take_alert(0, 1).is_some());
    assert!(states.take_alert(0, 1).is_none());
}

#[test]
fn unique_devices_pass_the_check() {
    let mut states = DeviceStates::new();
    states.sync_devices(&vec![probe("/dev/sda", Some("A"), None, None), probe("/dev/sdb", Some("B"), None, None)]);
    assert!(states.verify_unique().is_ok());
    assert!(states.duplicate_report().is_empty());
}

#[test]
fn shared_identities_are_reported() {
    let mut states = DeviceStates::new();
    let a = probe("/dev/sda", Some("SER"), Some("W1"), None);
    let b = probe("/dev/sda", Some("SER"), Some("W2"), None);
    states.insert("first".to_string(), a);
    states.insert("second".to_string(), b);
    assert!(matches!(states.verify_unique(), Err(DeviceValidationError::Duplicates {})));
    let report = states.duplicate_report();
    assert_eq!(report.len(), 2);
    match &report[0] {
        DeviceValidationError::DuplicatePath { path, existing_device } => {
            assert_eq!(path, "/dev/sda");
            assert_eq!(existing_device, "first");
        }
        other => panic!("unexpected {:?}", other),
    }
    match &report[1] {
        DeviceValidationError::DuplicateSerial { serial, existing_device } => {
            assert_eq!(serial, "SER");
            assert_eq!(existing_device, "first");
        }
        other => panic!("unexpected {:?}", other),
    }
}

#[test]
fn reset_all_keeps_only_configured_devices() {
    let mut states = DeviceStates::new();
    states.sync_devices(&vec![probe("/dev/sda", Some("OLD"), None, None)]);
    states.clear();
    let configured = vec![probe("/dev/sdb", Some("B"), None, None), probe("/dev/sdc", None, Some("W"), None)];
    states.sync_devices(&configured);
    assert_eq!(states.len(), 2);
    assert!(!states.contains("sn.OLD"));
    assert_eq!(states.entry(0).id, "sn.B");
    assert_eq!(states.entry(1).id, "W");
    assert!(states.verify_unique().is_ok());
}
