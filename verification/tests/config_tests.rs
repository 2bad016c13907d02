use disk_patrol::cli::{CliList, CliValue, CommandLine};
use disk_patrol::config::{
    parse_read_size, read_size_fits, Config, ConfigBuilder, ConfigError, ConfigFile,
    DEFAULT_EMAIL_ALERTS, DEFAULT_PATROL_DAYS, DEFAULT_STATE_FILE, DEFAULT_VERBOSE,
};
use disk_patrol::text::IntErrorKind;

/// A configuration file that sets nothing.
fn empty_file() -> ConfigFile {
    ConfigFile {
        devices: None,
        patrol_period_days: None,
        read_size: None,
        state_file: None,
        log_file: None,
        verbose: None,
        debug: None,
        use_syslog: None,
        syslog_facility: None,
        email_alerts: None,
        smtp_server: None,
        smtp_port: None,
        smtp_use_starttls: None,
        smtp_username: None,
        smtp_password: None,
        alert_from: None,
        alert_to: None,
        error_threshold: None,
        show_progress: None,
        min_sleep_seconds: None,
        max_sleep_seconds: None,
        enable_jitter: None,
        max_jitter_percent: None,
    }
}

fn defaulted(v: &str) -> CliValue {
    CliValue { value: Some(v.to_string()), from_command_line: false }
}

fn absent() -> CliValue {
    CliValue { value: None, from_command_line: false }
}

fn given(v: &str) -> CliValue {
    CliValue { value: Some(v.to_string()), from_command_line: true }
}

fn given_list(vs: &[&str]) -> CliList {
    CliList { values: Some(vs.iter().map(|s| s.to_string()).collect()), from_command_line: true }
}

/// The command line with no option given: every option at the parser's
/// default.
fn no_options() -> CommandLine {
    CommandLine {
        devices: CliList { values: None, from_command_line: false },
        period: defaulted("30"),
        read_size: defaulted("8MB"),
        state_file: defaulted(DEFAULT_STATE_FILE),
        verbose: false,
        no_verbose: false,
        debug: false,
        no_debug: false,
        syslog: false,
        no_syslog: false,
        syslog_facility: defaulted("daemon"),
        email_alerts: false,
        no_email_alerts: false,
        smtp_server: absent(),
        smtp_port: defaulted("587"),
        smtp_starttls: false,
        smtp_username: absent(),
        smtp_password: absent(),
        alert_from: absent(),
        alert_to: CliList { values: None, from_command_line: false },
        error_threshold: defaulted("5"),
        progress: false,
        no_progress: false,
        min_sleep: defaulted("5"),
        max_sleep: defaulted("300"),
        enable_jitter: false,
        max_jitter: defaulted("25"),
    }
}

#[test]
fn test_string_override() {
    let mut file = empty_file();
    file.state_file = Some("/original/state.json".to_string());
    file.smtp_server = Some("original.smtp.com".to_string());
    file.smtp_username = Some("original_user".to_string());

    let mut cli = no_options();
    cli.state_file = given("/new/state.json");
    cli.smtp_server = given("new.smtp.com");

    let config = ConfigBuilder::new()
        .load_config_file(file)
        .merge_command_line(&cli)
        .build()
        .unwrap();

    assert_eq!(config.state_file, "/new/state.json");
    assert_eq!(config.smtp_server, Some("new.smtp.com".to_string()));
    // smtp_username should remain unchanged
    assert_eq!(config.smtp_username, Some("original_user".to_string()));
}

#[test]
fn test_numeric_override() {
    let mut file = empty_file();
    file.patrol_period_days = Some(30);
    file.smtp_port = Some(25);
    file.error_threshold = Some(5);
    file.max_jitter_percent = Some(10);

    let mut cli = no_options();
    cli.period = given("60");
    cli.smtp_port = given("587");
    cli.error_threshold = given("10");

    let config = ConfigBuilder::new()
        .load_config_file(file)
        .merge_command_line(&cli)
        .build()
        .unwrap();

    assert_eq!(config.patrol_period_days, 60);
    assert_eq!(config.smtp_port, 587);
    assert_eq!(config.error_threshold, 10);
    // max_jitter_percent should remain unchanged
    assert_eq!(config.max_jitter_percent, 10);
}

#[test]
fn test_boolean_flag_override_true() {
    let mut file = empty_file();
    file.verbose = Some(false);
    file.email_alerts = Some(false);
    file.show_progress = Some(false);
    file.enable_jitter = Some(true);
    file.debug = Some(false);

    let mut cli = no_options();
    cli.verbose = true;
    cli.email_alerts = true;
    cli.progress = true;
    cli.debug = true;

    let config = ConfigBuilder::new()
        .load_config_file(file)
        .merge_command_line(&cli)
        .build()
        .unwrap();

    assert_eq!(config.verbose, true);
    assert_eq!(config.email_alerts, true);
    assert_eq!(config.show_progress, true);
    // enable_jitter should remain unchanged
    assert_eq!(config.enable_jitter, true);
}

#[test]
fn test_boolean_flag_override_false() {
    let mut file = empty_file();
    file.verbose = Some(true);
    file.email_alerts = Some(true);
    file.show_progress = Some(true);
    file.enable_jitter = Some(true);
    file.debug = Some(true);

    let mut cli = no_options();
    cli.no_verbose = true;
    cli.no_email_alerts = true;
    cli.no_progress = true;
    cli.no_debug = true;

    let config = ConfigBuilder::new()
        .load_config_file(file)
        .merge_command_line(&cli)
        .build()
        .unwrap();

    assert_eq!(config.verbose, false);
    assert_eq!(config.email_alerts, false);
    assert_eq!(config.show_progress, false);
    // enable_jitter should remain unchanged
    assert_eq!(config.enable_jitter, true);
}

#[test]
fn test_vec_string_override() {
    let mut file = empty_file();
    file.devices = Some(vec!["/dev/sda".to_string(), "/dev/sdb".to_string()]);
    file.alert_to = Some(vec!["admin@example.com".to_string()]);

    let mut cli = no_options();
    cli.devices = given_list(&["/dev/nvme0n1", "/dev/nvme1n1"]);
    cli.alert_to = given_list(&["ops@example.com", "security@example.com"]);

    let config = ConfigBuilder::new()
        .load_config_file(file)
        .merge_command_line(&cli)
        .build()
        .unwrap();

    assert_eq!(config.devices, vec!["/dev/nvme0n1".to_string(), "/dev/nvme1n1".to_string()]);
    assert_eq!(config.alert_to, vec!["ops@example.com", "security@example.com"]);
}

#[test]
fn test_read_size_parsing() {
    let mut file = empty_file();
    file.read_size = Some("4MB".to_string());

    let mut cli = no_options();
    cli.read_size = given("16MB");

    let config = ConfigBuilder::new()
        .load_config_file(file)
        .merge_command_line(&cli)
        .build()
        .unwrap();

    assert_eq!(config.read_size, 16 * 1024 * 1024);
}

#[test]
fn test_no_config_file_with_cli_args() {
    let mut cli = no_options();
    cli.devices = given_list(&["/dev/sda"]);
    cli.period = given("45");
    cli.verbose = true;
    cli.smtp_server = given("test.smtp.com");
    cli.error_threshold = given("3");

    let config = ConfigBuilder::new().merge_command_line(&cli).build().unwrap();

    assert_eq!(config.devices, vec!["/dev/sda".to_string()]);
    assert_eq!(config.patrol_period_days, 45);
    assert_eq!(config.verbose, true);
    assert_eq!(config.smtp_server, Some("test.smtp.com".to_string()));
    assert_eq!(config.error_threshold, 3);
}

#[test]
fn test_mixed_overrides() {
    let mut file = empty_file();
    file.devices = Some(vec!["/dev/sda".to_string()]);
    file.patrol_period_days = Some(30);
    file.read_size = Some("4MB".to_string());
    file.verbose = Some(false);
    file.email_alerts = Some(true);
    file.smtp_server = Some("config.smtp.com".to_string());
    file.smtp_port = Some(25);
    file.error_threshold = Some(5);

    let mut cli = no_options();
    cli.devices = given_list(&["/dev/nvme0n1"]);
    cli.period = given("60");
    cli.verbose = true;
    cli.no_email_alerts = true;
    cli.smtp_port = given("587");

    let config = ConfigBuilder::new()
        .load_config_file(file)
        .merge_command_line(&cli)
        .build()
        .unwrap();

    // Overridden values
    assert_eq!(config.devices, vec!["/dev/nvme0n1".to_string()]);
    assert_eq!(config.patrol_period_days, 60);
    assert_eq!(config.verbose, true);
    assert_eq!(config.email_alerts, false);
    assert_eq!(config.smtp_port, 587);

    // Unchanged values
    assert_eq!(config.read_size, 4 * 1024 * 1024);
    assert_eq!(config.smtp_server, Some("config.smtp.com".to_string()));
    assert_eq!(config.error_threshold, 5);
}

#[test]
fn test_optional_values_remain_none() {
    let mut file = empty_file();
    file.devices = Some(vec!["/dev/sda".to_string()]);

    let cli = no_options();

    let config = ConfigBuilder::new()
        .load_config_file(file)
        .merge_command_line(&cli)
        .build()
        .unwrap();

    // These should use defaults when not specified
    assert_eq!(config.patrol_period_days, DEFAULT_PATROL_DAYS);
    assert_eq!(config.verbose, DEFAULT_VERBOSE);
    assert_eq!(config.email_alerts, DEFAULT_EMAIL_ALERTS);

    // Optional values that can be None
    assert_eq!(config.log_file, None);
    assert_eq!(config.min_sleep_seconds, None);
    assert_eq!(config.max_sleep_seconds, None);
}

#[test]
fn test_parse_read_size_units() {
    assert_eq!(parse_read_size("1024").unwrap(), 1024);
    assert_eq!(parse_read_size("1K").unwrap(), 1024);
    assert_eq!(parse_read_size("1KB").unwrap(), 1024);
    assert_eq!(parse_read_size("1M").unwrap(), 1024 * 1024);
    assert_eq!(parse_read_size("1MB").unwrap(), 1024 * 1024);
    assert_eq!(parse_read_size("8MB").unwrap(), 8 * 1024 * 1024);
    assert_eq!(parse_read_size("  16KB  ").unwrap(), 16 * 1024);

    // Test case insensitivity
    assert_eq!(parse_read_size("1mb").unwrap(), 1024 * 1024);
    assert_eq!(parse_read_size("1Mb").unwrap(), 1024 * 1024);
}

#[test]
fn read_size_errors_name_their_kind() {
    assert_eq!(parse_read_size(""), Err(IntErrorKind::Empty));
    assert_eq!(parse_read_size("KB"), Err(IntErrorKind::Empty));
    assert_eq!(parse_read_size("12x"), Err(IntErrorKind::InvalidDigit));
    assert_eq!(parse_read_size("+"), Err(IntErrorKind::InvalidDigit));
    assert_eq!(parse_read_size("-1"), Err(IntErrorKind::InvalidDigit));
    assert_eq!(parse_read_size("99999999999999999999"), Err(IntErrorKind::PosOverflow));
}

#[test]
fn read_size_units_repeat_and_trim_unicode_space() {
    assert_eq!(parse_read_size("+2k"), Ok(2048));
    assert_eq!(parse_read_size("1KBKB"), Ok(1024));
    assert_eq!(parse_read_size("1KK"), Ok(1024));
    assert_eq!(parse_read_size("1KBK"), Err(IntErrorKind::InvalidDigit));
    assert_eq!(parse_read_size("\u{3000}3m\u{a0}"), Ok(3 * 1024 * 1024));
    assert_eq!(parse_read_size("512"), Ok(512));
}

#[test]
fn read_size_overflow_is_detected() {
    assert!(read_size_fits("8MB"));
    assert!(read_size_fits("not a size"));
    assert!(!read_size_fits("18446744073709551615KB"));
    assert!(read_size_fits("17592186044415M"));
    assert!(!read_size_fits("17592186044416M"));
}

#[test]
fn jitter_above_one_hundred_is_refused() {
    let mut file = empty_file();
    file.max_jitter_percent = Some(101);
    let result = ConfigBuilder::new().load_config_file(file).build();
    assert!(matches!(result, Err(ConfigError::JitterTooLarge)));

    let mut file = empty_file();
    file.max_jitter_percent = Some(100);
    assert!(ConfigBuilder::new().load_config_file(file).build().is_ok());
}

#[test]
fn bad_read_size_is_refused_before_jitter() {
    let mut file = empty_file();
    file.read_size = Some("lots".to_string());
    file.max_jitter_percent = Some(200);
    let result = ConfigBuilder::new().load_config_file(file).build();
    assert!(matches!(result, Err(ConfigError::InvalidReadSize(IntErrorKind::InvalidDigit))));
}

#[test]
fn builder_without_settings_uses_example_configuration() {
    let config = ConfigBuilder::new().build().unwrap();
    assert_eq!(config.devices, vec!["/dev/sda".to_string(), "/dev/nvme0n1".to_string()]);
    assert_eq!(config.log_file, Some("/var/log/disk_patrol.log".to_string()));
    assert_eq!(config.alert_to, vec!["admin@example.com", "ops@example.com"]);
    assert_eq!(config.read_size, 8 * 1024 * 1024);
    assert_eq!(config.smtp_port, 587);
}

#[test]
fn empty_file_takes_defaults() {
    let config = ConfigBuilder::new().load_config_file(empty_file()).build().unwrap();
    assert!(config.devices.is_empty());
    assert_eq!(config.state_file, DEFAULT_STATE_FILE);
    assert_eq!(config.syslog_facility, "daemon");
    assert_eq!(config.smtp_server, None);
    assert_eq!(config.max_jitter_percent, 25);
    assert_eq!(config.error_threshold, 5);
}

#[test]
fn unparsable_override_keeps_file_value() {
    let mut file = empty_file();
    file.smtp_port = Some(2525);
    file.max_jitter_percent = Some(10);
    let mut cli = no_options();
    cli.smtp_port = given("not-a-port");
    cli.max_jitter = given("300");
    let config =
        ConfigBuilder::new().load_config_file(file).merge_command_line(&cli).build().unwrap();
    assert_eq!(config.smtp_port, 2525);
    assert_eq!(config.max_jitter_percent, 10);
}

#[test]
fn defaults_without_file_fill_in_and_bad_numbers_fall_back() {
    let mut cli = no_options();
    cli.smtp_port = given("bogus");
    cli.period = given("x");
    let config = ConfigBuilder::new().merge_command_line(&cli).build().unwrap();
    assert_eq!(config.smtp_port, 25);
    assert_eq!(config.patrol_period_days, 30);
    assert_eq!(config.min_sleep_seconds, Some(5));
    assert_eq!(config.max_sleep_seconds, Some(300));
    assert_eq!(config.log_file, Some("/var/log/disk_patrol.log".to_string()));
    assert_eq!(config.devices, vec!["/dev/sda".to_string(), "/dev/nvme0n1".to_string()]);
}

#[test]
fn yes_flag_wins_over_no_flag() {
    let mut file = empty_file();
    file.verbose = Some(false);
    let mut cli = no_options();
    cli.verbose = true;
    cli.no_verbose = true;
    let config =
        ConfigBuilder::new().load_config_file(file).merge_command_line(&cli).build().unwrap();
    assert!(config.verbose);
}

#[test]
fn from_args_merges_and_builds() {
    let mut file = empty_file();
    file.read_size = Some("1K".to_string());
    let mut cli = no_options();
    cli.period = given("7");
    let config = Config::from_args(Some(file), &cli).unwrap().unwrap();
    assert_eq!(config.read_size, 1024);
    assert_eq!(config.patrol_period_days, 7);

    let mut cli = no_options();
    cli.read_size = given("18446744073709551615KB");
    assert!(Config::from_args(Some(empty_file()), &cli).is_none());
}
