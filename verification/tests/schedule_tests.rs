use disk_patrol::buffer::{BufferError, SharedBuffer};
use disk_patrol::logging::{
    alert_readiness, echoes_info, echoes_problems, facility_from_name, log_destination,
    smtp_credentials, AlertConfigError, LogDestination, SyslogFacility,
};
use disk_patrol::config::ConfigBuilder;
use disk_patrol::schedule::{
    calculate_jittered_timing, parse_seek, read_interval, read_sectors, read_sleeps, remaining_sleep,
    resume_position, step_duration,
};
use rand::rngs::SmallRng;
use rand::SeedableRng;

#[test]
fn resume_takes_later_of_saved_and_seek() {
    // 100 chunks of 10 bytes; 50% seeks to chunk 50
    assert_eq!(resume_position(1000, 10, 50, 0), Some(500));
    assert_eq!(resume_position(1000, 10, 50, 700), Some(700));
    assert_eq!(resume_position(1000, 10, 0, 30), Some(30));
    // 33% of 7 chunks is chunk 2
    assert_eq!(resume_position(70, 10, 33, 0), Some(20));
    assert_eq!(resume_position(1000, 0, 50, 0), None);
    assert_eq!(resume_position(u64::MAX, 1, 2, 0), None);
}

#[test]
fn interval_spreads_reads_over_period() {
    // 30 days, 1 TiB device, 8 MiB reads
    let day_ms = 24 * 3600 * 1000u64;
    let (reads, interval) = read_interval(30, 1 << 40, 8 << 20).unwrap();
    assert_eq!(reads, 131072);
    assert_eq!(interval, 30 * day_ms / 131072);
    // a partial last chunk counts as a read
    assert_eq!(read_interval(1, 1001, 1000).unwrap().0, 2);
    // an empty device still gets one read per period
    assert_eq!(read_interval(1, 0, 1000).unwrap(), (0, day_ms));
    // never less than a millisecond
    assert_eq!(read_interval(0, 10, 1).unwrap(), (10, 1));
    assert_eq!(read_interval(1, 10, 0), None);
    assert_eq!(read_interval(u64::MAX, 10, 1), None);
    assert_eq!(read_interval(1, u64::MAX, 1), None);
}

#[test]
fn jitter_stays_within_bounds() {
    let mut rng = SmallRng::seed_from_u64(7);
    let mut pres = Vec::new();
    for _ in 0..1000 {
        let (pre, post) = calculate_jittered_timing(1000, 250, &mut rng);
        assert!(pre <= 250);
        assert_eq!(pre + post, 1000);
        pres.push(pre);
    }
    // the draws vary: neither always the bound nor always nothing
    assert!(pres.iter().any(|p| *p != 250));
    assert!(pres.iter().any(|p| *p != 0));
    let (pre, post) = calculate_jittered_timing(1000, 0, &mut rng);
    assert_eq!((pre, post), (0, 1000));
}

#[test]
fn jitter_longer_than_interval_stretches_step() {
    let mut rng = SmallRng::seed_from_u64(3);
    for _ in 0..200 {
        let (pre, post) = calculate_jittered_timing(10, 100, &mut rng);
        assert!(pre + post >= 10);
        assert!(pre + post <= 100);
    }
}

#[test]
fn sleeps_without_jitter_and_step_timing() {
    let mut rng = SmallRng::seed_from_u64(1);
    assert_eq!(read_sleeps(false, 500, 100, &mut rng), (0, 500));
    assert_eq!(step_duration(true, 30, 470, 999), 500);
    assert_eq!(step_duration(false, 30, 470, 999), 999);
    assert_eq!(remaining_sleep(500, 120), 380);
    assert_eq!(remaining_sleep(500, 600), 0);
    assert_eq!(read_sectors(1024, 1024), (2, 3));
    assert_eq!(read_sectors(0, 512), (0, 0));
}

#[test]
fn buffer_rounds_up_to_alignment() {
    let mut b = SharedBuffer::new(5000, 4096).unwrap();
    assert_eq!(b.len(), 8192);
    assert_eq!(b.alignment(), 4096);
    assert_eq!(b.storage_mut().len(), 8192 + 4096);
    assert!(b.storage_mut().iter().all(|x| *x == 0));
    assert_eq!(SharedBuffer::new(8192, 4096).unwrap().len(), 8192);
    assert_eq!(SharedBuffer::new(0, 4096).unwrap().len(), 0);
}

#[test]
fn buffer_refuses_bad_alignment() {
    assert_eq!(SharedBuffer::new(100, 3).err(), Some(BufferError::InvalidLayout));
    assert_eq!(SharedBuffer::new(isize::MAX as usize, 4096).err(), Some(BufferError::InvalidLayout));
}

#[test]
fn facility_names() {
    assert_eq!(facility_from_name("daemon"), SyslogFacility::Daemon);
    assert_eq!(facility_from_name("user"), SyslogFacility::User);
    assert_eq!(facility_from_name("local0"), SyslogFacility::Local0);
    assert_eq!(facility_from_name("local7"), SyslogFacility::Local7);
    assert_eq!(facility_from_name("kern"), SyslogFacility::Daemon);
}

#[test]
fn log_goes_to_file_then_syslog() {
    let mut config = ConfigBuilder::new().build().unwrap();
    assert!(matches!(log_destination(&config), LogDestination::File(p) if p == "/var/log/disk_patrol.log"));
    config.log_file = None;
    config.syslog_facility = "local3".to_string();
    assert!(matches!(log_destination(&config), LogDestination::Syslog(SyslogFacility::Local3)));
    config.use_syslog = false;
    assert!(matches!(log_destination(&config), LogDestination::Console));
}

#[test]
fn console_echo_rules() {
    let mut config = ConfigBuilder::new().build().unwrap();
    config.show_progress = false;
    config.verbose = true;
    assert!(echoes_info(&config));
    assert!(echoes_problems(&config));
    config.verbose = false;
    assert!(!echoes_info(&config));
    config.show_progress = true;
    assert!(!echoes_problems(&config));
}

#[test]
fn alert_settings_are_checked_in_order() {
    let mut config = ConfigBuilder::new().build().unwrap();
    assert_eq!(alert_readiness(&config), Ok(true));
    config.alert_to.clear();
    assert_eq!(alert_readiness(&config), Err(AlertConfigError::NoRecipients));
    config.alert_from = None;
    assert_eq!(alert_readiness(&config), Err(AlertConfigError::NoSender));
    config.smtp_server = None;
    assert_eq!(alert_readiness(&config), Err(AlertConfigError::NoSmtpServer));
    config.email_alerts = false;
    assert_eq!(alert_readiness(&config), Ok(false));
}

#[test]
fn credentials_need_a_user_name() {
    let mut config = ConfigBuilder::new().build().unwrap();
    assert_eq!(
        smtp_credentials(&config),
        Some(("disk_patrol@example.com".to_string(), "your_password_here".to_string()))
    );
    config.smtp_username = Some(String::new());
    assert_eq!(smtp_credentials(&config), None);
    config.smtp_username = Some("u".to_string());
    config.smtp_password = None;
    assert_eq!(smtp_credentials(&config), None);
}

#[test]
fn all_reads_fit_in_the_period() {
    for (days, size, read) in [(30u64, 1u64 << 40, 8u64 << 20), (1, 999_999, 4096), (7, 123_456_789, 1_000_000)] {
        let (reads, interval) = read_interval(days, size, read).unwrap();
        assert!(reads * interval <= days * 24 * 3600 * 1000);
    }
}

#[test]
fn seek_is_a_byte_sized_percentage() {
    assert_eq!(parse_seek("50"), Ok(50));
    assert_eq!(parse_seek("+0"), Ok(0));
    assert_eq!(parse_seek("256"), Err(disk_patrol::text::IntErrorKind::PosOverflow));
    assert_eq!(parse_seek("x"), Err(disk_patrol::text::IntErrorKind::InvalidDigit));
    assert_eq!(parse_seek(""), Err(disk_patrol::text::IntErrorKind::Empty));
}
