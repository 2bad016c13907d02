//! The configuration: the file's settings, the command line that overrides
//! them, and the runtime configuration built from both with defaults.

use vstd::prelude::*;
use crate::cli::{CliList, CliListView, CliValue, CliValueView, CommandLine};
use crate::text::{
    chars_of, copy_opt_strings, ends_with, has_suffix, opt_strings_view,
    opt_view, parse_unsigned, parse_unsigned_spec, string_of, strings_view, strip_all_suffixes,
    strip_suffixes, to_uppercase, trim_chars, trimmed, uppercase_of, IntErrorKind,
};

verus! {

/// Bytes per sector.
pub const SECTOR_SIZE: u64 = 512;

pub const DEFAULT_CONFIG_PATH: &'static str = "/etc/disk_patrol/config.toml";
pub const DEFAULT_PATROL_DAYS: u64 = 30;
pub const DEFAULT_READ_SIZE: u64 = 8 * 1024 * 1024;
pub const DEFAULT_READ_SIZE_STR: &'static str = "8MB";
pub const DEFAULT_STATE_FILE: &'static str = "/var/lib/disk_patrol/state.json";
pub const DEFAULT_LOG_FILE: &'static str = "/var/log/disk_patrol.log";
pub const DEFAULT_VERBOSE: bool = false;
pub const DEFAULT_DEBUG: bool = false;
pub const DEFAULT_USE_SYSLOG: bool = true;
pub const DEFAULT_SYSLOG_FACILITY: &'static str = "daemon";
pub const DEFAULT_EMAIL_ALERTS: bool = true;
pub const DEFAULT_SMTP_SERVER: &'static str = "smtp.example.com";
pub const DEFAULT_SMTP_PORT: u16 = 587;
pub const DEFAULT_SMTP_USE_STARTTLS: bool = true;
pub const DEFAULT_SMTP_USERNAME: &'static str = "disk_patrol@example.com";
pub const DEFAULT_SMTP_PASSWORD: &'static str = "your_password_here";
pub const DEFAULT_ALERT_FROM: &'static str = "disk_patrol@example.com";
pub const DEFAULT_ERROR_THRESHOLD: usize = 5;
pub const DEFAULT_SHOW_PROGRESS: bool = true;
pub const DEFAULT_MIN_SLEEP_SECONDS: u64 = 5;
pub const DEFAULT_MAX_SLEEP_SECONDS: u64 = 300;
pub const DEFAULT_ENABLE_JITTER: bool = true;
pub const DEFAULT_MAX_JITTER_PERCENT: u8 = 25;

/// The port taken when a port given without a configuration file is no number.
pub const FALLBACK_SMTP_PORT: u16 = 25;

// ---------------------------------------------------------------------------
// Read sizes
// ---------------------------------------------------------------------------

/// The digits of an uppercased read size and the unit they count in.
pub open spec fn unit_split(u: Seq<char>) -> (Seq<char>, nat) {
    if has_suffix(u, seq!['K', 'B']) || has_suffix(u, seq!['K']) {
        (strip_suffixes(strip_suffixes(u, seq!['K', 'B']), seq!['K']), 1024)
    } else if has_suffix(u, seq!['M', 'B']) || has_suffix(u, seq!['M']) {
        (strip_suffixes(strip_suffixes(u, seq!['M', 'B']), seq!['M']), 1024 * 1024)
    } else {
        (u, 1)
    }
}

/// The number of bytes a read size denotes: the trimmed text, uppercased,
/// is a decimal number optionally followed by `K`/`KB` (kibibytes) or
/// `M`/`MB` (mebibytes); without a unit it counts bytes.
pub open spec fn read_size_value(s: Seq<char>) -> Result<nat, IntErrorKind> {
    let split = unit_split(uppercase_of(trimmed(s)));
    match parse_unsigned_spec(split.0, u64::MAX as nat) {
        Ok(n) => Ok(n * split.1),
        Err(k) => Err(k),
    }
}

/// Whether the number of bytes of a read size, where it has one, fits in a
/// `u64`.
pub open spec fn read_size_in_range(s: Seq<char>) -> bool {
    match read_size_value(s) {
        Ok(n) => n <= u64::MAX,
        Err(_) => true,
    }
}

/// The characters and the unit of a trimmed, uppercased read size.
fn split_unit(u: &Vec<char>) -> (r: (Vec<char>, u64))
    ensures
        r.0@ == unit_split(u@).0,
        r.1 as nat == unit_split(u@).1,
{
    let mut kb: Vec<char> = Vec::new();
    kb.push('K');
    kb.push('B');
    let mut k: Vec<char> = Vec::new();
    k.push('K');
    let mut mb: Vec<char> = Vec::new();
    mb.push('M');
    mb.push('B');
    let mut m: Vec<char> = Vec::new();
    m.push('M');
    assert(kb@ =~= seq!['K', 'B'] && k@ =~= seq!['K'] && mb@ =~= seq!['M', 'B'] && m@ =~= seq![
        'M',
    ]);
    if ends_with(u, &kb) || ends_with(u, &k) {
        let d = strip_all_suffixes(&strip_all_suffixes(u, &kb), &k);
        (d, 1024)
    } else if ends_with(u, &mb) || ends_with(u, &m) {
        let d = strip_all_suffixes(&strip_all_suffixes(u, &mb), &m);
        (d, 1024 * 1024)
    } else {
        (slice_all(u), 1)
    }
}

fn slice_all(u: &Vec<char>) -> (r: Vec<char>)
    ensures
        r@ == u@,
{
    let r = crate::text::slice_chars(u, 0, u.len());
    assert(r@ =~= u@);
    r
}

/// The trimmed, uppercased characters of a read size.
fn normalized_read_size(size_str: &str) -> (r: Vec<char>)
    ensures
        r@ == uppercase_of(trimmed(size_str@)),
{
    let t = string_of(&trim_chars(&chars_of(size_str)));
    chars_of(&to_uppercase(t.as_str()))
}

proof fn lemma_fits_by_division(n: nat, unit: nat, max: nat)
    requires
        unit > 0,
    ensures
        (n * unit <= max) == (n <= max / unit),
{
    assert((n * unit <= max) == (n <= max / unit)) by (nonlinear_arith)
        requires
            unit > 0,
    ;
}

/// Whether the read size `size_str` denotes no more bytes than a `u64`
/// holds (or is no read size at all).
pub fn read_size_fits(size_str: &str) -> (b: bool)
    ensures
        b == read_size_in_range(size_str@),
{
    let (digits, unit) = split_unit(&normalized_read_size(size_str));
    match parse_unsigned(&digits, u64::MAX) {
        Ok(n) => {
            proof {
                lemma_fits_by_division(n as nat, unit as nat, u64::MAX as nat);
            }
            n <= u64::MAX / unit
        },
        Err(_) => true,
    }
}

/// Parses a read size with an optional `K`/`KB` or `M`/`MB` unit, in any
/// case and with surrounding white space, into a number of bytes.
pub fn parse_read_size(size_str: &str) -> (r: Result<u64, IntErrorKind>)
    requires
        read_size_in_range(size_str@),
    ensures
        match read_size_value(size_str@) {
            Ok(n) => r == Ok::<u64, IntErrorKind>(n as u64),
            Err(k) => r == Err::<u64, IntErrorKind>(k),
        },
{
    let (digits, unit) = split_unit(&normalized_read_size(size_str));
    match parse_unsigned(&digits, u64::MAX) {
        Ok(n) => {
            assert(n * unit <= u64::MAX);
            Ok(n * unit)
        },
        Err(k) => Err(k),
    }
}

// ---------------------------------------------------------------------------
// The configuration file
// ---------------------------------------------------------------------------

/// The settings of a configuration file; each may be missing.
#[derive(Debug, Clone)]
pub struct ConfigFile {
    pub devices: Option<Vec<String>>,
    pub patrol_period_days: Option<u64>,
    pub read_size: Option<String>,
    pub state_file: Option<String>,
    pub log_file: Option<String>,
    pub verbose: Option<bool>,
    pub debug: Option<bool>,
    pub use_syslog: Option<bool>,
    pub syslog_facility: Option<String>,
    pub email_alerts: Option<bool>,
    pub smtp_server: Option<String>,
    pub smtp_port: Option<u16>,
    pub smtp_use_starttls: Option<bool>,
    pub smtp_username: Option<String>,
    pub smtp_password: Option<String>,
    pub alert_from: Option<String>,
    pub alert_to: Option<Vec<String>>,
    pub error_threshold: Option<usize>,
    pub show_progress: Option<bool>,
    pub min_sleep_seconds: Option<u64>,
    pub max_sleep_seconds: Option<u64>,
    pub enable_jitter: Option<bool>,
    pub max_jitter_percent: Option<u8>,
}

/// The view of a [`ConfigFile`]: its strings as character sequences.
pub struct ConfigFileView {
    pub devices: Option<Seq<Seq<char>>>,
    pub patrol_period_days: Option<u64>,
    pub read_size: Option<Seq<char>>,
    pub state_file: Option<Seq<char>>,
    pub log_file: Option<Seq<char>>,
    pub verbose: Option<bool>,
    pub debug: Option<bool>,
    pub use_syslog: Option<bool>,
    pub syslog_facility: Option<Seq<char>>,
    pub email_alerts: Option<bool>,
    pub smtp_server: Option<Seq<char>>,
    pub smtp_port: Option<u16>,
    pub smtp_use_starttls: Option<bool>,
    pub smtp_username: Option<Seq<char>>,
    pub smtp_password: Option<Seq<char>>,
    pub alert_from: Option<Seq<char>>,
    pub alert_to: Option<Seq<Seq<char>>>,
    pub error_threshold: Option<usize>,
    pub show_progress: Option<bool>,
    pub min_sleep_seconds: Option<u64>,
    pub max_sleep_seconds: Option<u64>,
    pub enable_jitter: Option<bool>,
    pub max_jitter_percent: Option<u8>,
}

impl View for ConfigFile {
    type V = ConfigFileView;

    open spec fn view(&self) -> ConfigFileView {
        ConfigFileView {
            devices: opt_strings_view(self.devices),
            patrol_period_days: self.patrol_period_days,
            read_size: opt_view(self.read_size),
            state_file: opt_view(self.state_file),
            log_file: opt_view(self.log_file),
            verbose: self.verbose,
            debug: self.debug,
            use_syslog: self.use_syslog,
            syslog_facility: opt_view(self.syslog_facility),
            email_alerts: self.email_alerts,
            smtp_server: opt_view(self.smtp_server),
            smtp_port: self.smtp_port,
            smtp_use_starttls: self.smtp_use_starttls,
            smtp_username: opt_view(self.smtp_username),
            smtp_password: opt_view(self.smtp_password),
            alert_from: opt_view(self.alert_from),
            alert_to: opt_strings_view(self.alert_to),
            error_threshold: self.error_threshold,
            show_progress: self.show_progress,
            min_sleep_seconds: self.min_sleep_seconds,
            max_sleep_seconds: self.max_sleep_seconds,
            enable_jitter: self.enable_jitter,
            max_jitter_percent: self.max_jitter_percent,
        }
    }
}

/// The example configuration: every setting present with its default.
pub open spec fn example_config() -> ConfigFileView {
    ConfigFileView {
        devices: Some(seq!["/dev/sda"@, "/dev/nvme0n1"@]),
        patrol_period_days: Some(DEFAULT_PATROL_DAYS),
        read_size: Some(DEFAULT_READ_SIZE_STR@),
        state_file: Some(DEFAULT_STATE_FILE@),
        log_file: Some(DEFAULT_LOG_FILE@),
        verbose: Some(DEFAULT_VERBOSE),
        debug: Some(DEFAULT_DEBUG),
        use_syslog: Some(DEFAULT_USE_SYSLOG),
        syslog_facility: Some(DEFAULT_SYSLOG_FACILITY@),
        email_alerts: Some(DEFAULT_EMAIL_ALERTS),
        smtp_server: Some(DEFAULT_SMTP_SERVER@),
        smtp_port: Some(DEFAULT_SMTP_PORT),
        smtp_use_starttls: Some(DEFAULT_SMTP_USE_STARTTLS),
        smtp_username: Some(DEFAULT_SMTP_USERNAME@),
        smtp_password: Some(DEFAULT_SMTP_PASSWORD@),
        alert_from: Some(DEFAULT_ALERT_FROM@),
        alert_to: Some(seq!["admin@example.com"@, "ops@example.com"@]),
        error_threshold: Some(DEFAULT_ERROR_THRESHOLD),
        show_progress: Some(DEFAULT_SHOW_PROGRESS),
        min_sleep_seconds: Some(DEFAULT_MIN_SLEEP_SECONDS),
        max_sleep_seconds: Some(DEFAULT_MAX_SLEEP_SECONDS),
        enable_jitter: Some(DEFAULT_ENABLE_JITTER),
        max_jitter_percent: Some(DEFAULT_MAX_JITTER_PERCENT),
    }
}

fn two_strings(a: &str, b: &str) -> (v: Vec<String>)
    ensures
        strings_view(v@) == seq![a@, b@],
{
    let mut v: Vec<String> = Vec::new();
    v.push(a.to_owned());
    v.push(b.to_owned());
    assert(strings_view(v@) =~= seq![a@, b@]);
    v
}

impl Default for ConfigFile {
    /// The example configuration, with every setting at its default.
    fn default() -> (r: Self)
        ensures
            r@ == example_config(),
    {
        ConfigFile {
            devices: Some(two_strings("/dev/sda", "/dev/nvme0n1")),
            patrol_period_days: Some(DEFAULT_PATROL_DAYS),
            read_size: Some(DEFAULT_READ_SIZE_STR.to_owned()),
            state_file: Some(DEFAULT_STATE_FILE.to_owned()),
            log_file: Some(DEFAULT_LOG_FILE.to_owned()),
            verbose: Some(DEFAULT_VERBOSE),
            debug: Some(DEFAULT_DEBUG),
            use_syslog: Some(DEFAULT_USE_SYSLOG),
            syslog_facility: Some(DEFAULT_SYSLOG_FACILITY.to_owned()),
            email_alerts: Some(DEFAULT_EMAIL_ALERTS),
            smtp_server: Some(DEFAULT_SMTP_SERVER.to_owned()),
            smtp_port: Some(DEFAULT_SMTP_PORT),
            smtp_use_starttls: Some(DEFAULT_SMTP_USE_STARTTLS),
            smtp_username: Some(DEFAULT_SMTP_USERNAME.to_owned()),
            smtp_password: Some(DEFAULT_SMTP_PASSWORD.to_owned()),
            alert_from: Some(DEFAULT_ALERT_FROM.to_owned()),
            alert_to: Some(two_strings("admin@example.com", "ops@example.com")),
            error_threshold: Some(DEFAULT_ERROR_THRESHOLD),
            show_progress: Some(DEFAULT_SHOW_PROGRESS),
            min_sleep_seconds: Some(DEFAULT_MIN_SLEEP_SECONDS),
            max_sleep_seconds: Some(DEFAULT_MAX_SLEEP_SECONDS),
            enable_jitter: Some(DEFAULT_ENABLE_JITTER),
            max_jitter_percent: Some(DEFAULT_MAX_JITTER_PERCENT),
        }
    }
}

// ---------------------------------------------------------------------------
// Merging the command line into the file's settings
// ---------------------------------------------------------------------------

/// A value given on the command line replaces the setting.
pub open spec fn override_text(t: Option<Seq<char>>, v: CliValueView) -> Option<Seq<char>> {
    if v.from_command_line && v.value is Some {
        v.value
    } else {
        t
    }
}

/// The number given on the command line for an option, where it was given
/// and parses as a number no larger than `max`.
pub open spec fn cli_number(v: CliValueView, max: nat) -> Option<nat> {
    if v.from_command_line && v.value is Some {
        match parse_unsigned_spec(v.value->0, max) {
            Ok(n) => Some(n),
            Err(_) => None,
        }
    } else {
        None
    }
}

/// A flag pair: the positive flag sets the setting, else the negative one
/// clears it, else it stays.
pub open spec fn override_yes_no(t: Option<bool>, yes: bool, no: bool) -> Option<bool> {
    if yes {
        Some(true)
    } else if no {
        Some(false)
    } else {
        t
    }
}

/// A flag given on the command line sets the setting.
pub open spec fn override_flag(t: Option<bool>, given: bool) -> Option<bool> {
    if given {
        Some(true)
    } else {
        t
    }
}

/// Values given on the command line replace the list.
pub open spec fn override_list(t: Option<Seq<Seq<char>>>, l: CliListView) -> Option<
    Seq<Seq<char>>,
> {
    if l.from_command_line && l.values is Some {
        l.values
    } else {
        t
    }
}

/// The file's settings with every option given on the command line in their
/// place; a number that does not parse leaves the setting as it was.
pub open spec fn merged_with_file(f: ConfigFileView, cli: CommandLine) -> ConfigFileView {
    ConfigFileView {
        devices: override_list(f.devices, cli.devices@),
        patrol_period_days: match cli_number(cli.period@, u64::MAX as nat) {
            Some(n) => Some(n as u64),
            None => f.patrol_period_days,
        },
        read_size: override_text(f.read_size, cli.read_size@),
        state_file: override_text(f.state_file, cli.state_file@),
        log_file: f.log_file,
        verbose: override_yes_no(f.verbose, cli.verbose, cli.no_verbose),
        debug: override_yes_no(f.debug, cli.debug, cli.no_debug),
        use_syslog: override_yes_no(f.use_syslog, cli.syslog, cli.no_syslog),
        syslog_facility: override_text(f.syslog_facility, cli.syslog_facility@),
        email_alerts: override_yes_no(f.email_alerts, cli.email_alerts, cli.no_email_alerts),
        smtp_server: override_text(f.smtp_server, cli.smtp_server@),
        smtp_port: match cli_number(cli.smtp_port@, u16::MAX as nat) {
            Some(n) => Some(n as u16),
            None => f.smtp_port,
        },
        smtp_use_starttls: override_flag(f.smtp_use_starttls, cli.smtp_starttls),
        smtp_username: override_text(f.smtp_username, cli.smtp_username@),
        smtp_password: override_text(f.smtp_password, cli.smtp_password@),
        alert_from: override_text(f.alert_from, cli.alert_from@),
        alert_to: override_list(f.alert_to, cli.alert_to@),
        error_threshold: match cli_number(cli.error_threshold@, usize::MAX as nat) {
            Some(n) => Some(n as usize),
            None => f.error_threshold,
        },
        show_progress: override_yes_no(f.show_progress, cli.progress, cli.no_progress),
        min_sleep_seconds: match cli_number(cli.min_sleep@, u64::MAX as nat) {
            Some(n) => Some(n as u64),
            None => f.min_sleep_seconds,
        },
        max_sleep_seconds: match cli_number(cli.max_sleep@, u64::MAX as nat) {
            Some(n) => Some(n as u64),
            None => f.max_sleep_seconds,
        },
        enable_jitter: override_flag(f.enable_jitter, cli.enable_jitter),
        max_jitter_percent: match cli_number(cli.max_jitter@, u8::MAX as nat) {
            Some(n) => Some(n as u8),
            None => f.max_jitter_percent,
        },
    }
}

/// The option's value, where it has one (given or defaulted).
pub open spec fn given_text(t: Option<Seq<char>>, v: CliValueView) -> Option<Seq<char>> {
    if v.value is Some {
        v.value
    } else {
        t
    }
}

/// The settings made from the command line alone: the example
/// configuration, with each option that has a value (given or defaulted) in
/// place of its setting and each flag given setting its setting.
pub open spec fn merged_without_file(cli: CommandLine) -> ConfigFileView {
    let d = example_config();
    ConfigFileView {
        devices: if cli.devices@.values is Some {
            cli.devices@.values
        } else {
            d.devices
        },
        patrol_period_days: match cli.period@.value {
            Some(s) => match parse_unsigned_spec(s, u64::MAX as nat) {
                Ok(n) => Some(n as u64),
                Err(_) => Some(DEFAULT_PATROL_DAYS),
            },
            None => d.patrol_period_days,
        },
        read_size: given_text(d.read_size, cli.read_size@),
        state_file: given_text(d.state_file, cli.state_file@),
        log_file: d.log_file,
        verbose: override_flag(d.verbose, cli.verbose),
        debug: override_flag(d.debug, cli.debug),
        use_syslog: override_flag(d.use_syslog, cli.syslog),
        syslog_facility: given_text(d.syslog_facility, cli.syslog_facility@),
        email_alerts: override_flag(d.email_alerts, cli.email_alerts),
        smtp_server: given_text(d.smtp_server, cli.smtp_server@),
        smtp_port: match cli.smtp_port@.value {
            Some(s) => match parse_unsigned_spec(s, u16::MAX as nat) {
                Ok(n) => Some(n as u16),
                Err(_) => Some(FALLBACK_SMTP_PORT),
            },
            None => d.smtp_port,
        },
        smtp_use_starttls: override_flag(d.smtp_use_starttls, cli.smtp_starttls),
        smtp_username: given_text(d.smtp_username, cli.smtp_username@),
        smtp_password: given_text(d.smtp_password, cli.smtp_password@),
        alert_from: given_text(d.alert_from, cli.alert_from@),
        alert_to: if cli.alert_to@.values is Some {
            cli.alert_to@.values
        } else {
            d.alert_to
        },
        error_threshold: match cli.error_threshold@.value {
            Some(s) => match parse_unsigned_spec(s, usize::MAX as nat) {
                Ok(n) => Some(n as usize),
                Err(_) => Some(DEFAULT_ERROR_THRESHOLD),
            },
            None => d.error_threshold,
        },
        show_progress: override_flag(d.show_progress, cli.progress),
        min_sleep_seconds: match cli.min_sleep@.value {
            Some(s) => match parse_unsigned_spec(s, u64::MAX as nat) {
                Ok(n) => Some(n as u64),
                Err(_) => Some(DEFAULT_MIN_SLEEP_SECONDS),
            },
            None => d.min_sleep_seconds,
        },
        max_sleep_seconds: match cli.max_sleep@.value {
            Some(s) => match parse_unsigned_spec(s, u64::MAX as nat) {
                Ok(n) => Some(n as u64),
                Err(_) => Some(DEFAULT_MAX_SLEEP_SECONDS),
            },
            None => d.max_sleep_seconds,
        },
        enable_jitter: override_flag(d.enable_jitter, cli.enable_jitter),
        max_jitter_percent: match cli.max_jitter@.value {
            Some(s) => match parse_unsigned_spec(s, u8::MAX as nat) {
                Ok(n) => Some(n as u8),
                Err(_) => Some(DEFAULT_MAX_JITTER_PERCENT),
            },
            None => d.max_jitter_percent,
        },
    }
}

/// The settings after merging the command line: into the loaded file's
/// settings where a file was loaded, else into the example configuration.
pub open spec fn merged(f: Option<ConfigFileView>, cli: CommandLine) -> ConfigFileView {
    match f {
        Some(f) => merged_with_file(f, cli),
        None => merged_without_file(cli),
    }
}

fn override_text_value(t: Option<String>, v: &CliValue) -> (r: Option<String>)
    ensures
        opt_view(r) == override_text(opt_view(t), v@),
{
    if v.from_command_line {
        if let Some(s) = &v.value {
            return Some(s.clone());
        }
    }
    t
}

fn given_text_value(t: Option<String>, v: &CliValue) -> (r: Option<String>)
    ensures
        opt_view(r) == given_text(opt_view(t), v@),
{
    match &v.value {
        Some(s) => Some(s.clone()),
        None => t,
    }
}

/// The option's value parsed as a number no larger than `max`.
fn parse_value(v: &CliValue, max: u64) -> (r: Option<u64>)
    ensures
        match v@.value {
            Some(s) => match parse_unsigned_spec(s, max as nat) {
                Ok(n) => r == Some(n as u64),
                Err(_) => r is None,
            },
            None => r is None,
        },
        r matches Some(n) ==> n <= max,
        v@.value matches Some(s) ==> (parse_unsigned_spec(s, max as nat) matches Ok(n) ==> n
            <= max),
{
    match &v.value {
        Some(s) => match parse_unsigned(&chars_of(s.as_str()), max) {
            Ok(n) => Some(n),
            Err(_) => None,
        },
        None => None,
    }
}

fn cli_number_value(v: &CliValue, max: u64) -> (r: Option<u64>)
    ensures
        match cli_number(v@, max as nat) {
            Some(n) => r == Some(n as u64),
            None => r is None,
        },
        r matches Some(n) ==> n <= max,
        cli_number(v@, max as nat) matches Some(n) ==> n <= max,
{
    if v.from_command_line {
        parse_value(v, max)
    } else {
        None
    }
}

fn override_list_value(t: Option<Vec<String>>, l: &CliList) -> (r: Option<Vec<String>>)
    ensures
        opt_strings_view(r) == override_list(opt_strings_view(t), l@),
{
    if l.from_command_line && l.values.is_some() {
        return copy_opt_strings(&l.values);
    }
    t
}

fn override_yes_no_value(t: Option<bool>, yes: bool, no: bool) -> (r: Option<bool>)
    ensures
        r == override_yes_no(t, yes, no),
{
    if yes {
        Some(true)
    } else if no {
        Some(false)
    } else {
        t
    }
}

fn override_flag_value(t: Option<bool>, given: bool) -> (r: Option<bool>)
    ensures
        r == override_flag(t, given),
{
    if given {
        Some(true)
    } else {
        t
    }
}

fn merge_into_file(f: ConfigFile, cli: &CommandLine) -> (r: ConfigFile)
    ensures
        r@ == merged_with_file(f@, *cli),
{
    let period = cli_number_value(&cli.period, u64::MAX);
    let port = cli_number_value(&cli.smtp_port, 65535);
    let threshold = cli_number_value(&cli.error_threshold, usize::MAX as u64);
    let min_sleep = cli_number_value(&cli.min_sleep, u64::MAX);
    let max_sleep = cli_number_value(&cli.max_sleep, u64::MAX);
    let jitter = cli_number_value(&cli.max_jitter, 255);
    let r = ConfigFile {
        devices: override_list_value(f.devices, &cli.devices),
        patrol_period_days: match period {
            Some(n) => Some(n),
            None => f.patrol_period_days,
        },
        read_size: override_text_value(f.read_size, &cli.read_size),
        state_file: override_text_value(f.state_file, &cli.state_file),
        log_file: f.log_file,
        verbose: override_yes_no_value(f.verbose, cli.verbose, cli.no_verbose),
        debug: override_yes_no_value(f.debug, cli.debug, cli.no_debug),
        use_syslog: override_yes_no_value(f.use_syslog, cli.syslog, cli.no_syslog),
        syslog_facility: override_text_value(f.syslog_facility, &cli.syslog_facility),
        email_alerts: override_yes_no_value(f.email_alerts, cli.email_alerts, cli.no_email_alerts),
        smtp_server: override_text_value(f.smtp_server, &cli.smtp_server),
        smtp_port: match port {
            Some(n) => Some(n as u16),
            None => f.smtp_port,
        },
        smtp_use_starttls: override_flag_value(f.smtp_use_starttls, cli.smtp_starttls),
        smtp_username: override_text_value(f.smtp_username, &cli.smtp_username),
        smtp_password: override_text_value(f.smtp_password, &cli.smtp_password),
        alert_from: override_text_value(f.alert_from, &cli.alert_from),
        alert_to: override_list_value(f.alert_to, &cli.alert_to),
        error_threshold: match threshold {
            Some(n) => Some(n as usize),
            None => f.error_threshold,
        },
        show_progress: override_yes_no_value(f.show_progress, cli.progress, cli.no_progress),
        min_sleep_seconds: match min_sleep {
            Some(n) => Some(n),
            None => f.min_sleep_seconds,
        },
        max_sleep_seconds: match max_sleep {
            Some(n) => Some(n),
            None => f.max_sleep_seconds,
        },
        enable_jitter: override_flag_value(f.enable_jitter, cli.enable_jitter),
        max_jitter_percent: match jitter {
            Some(n) => Some(n as u8),
            None => f.max_jitter_percent,
        },
    };
    r

}

/// The option's value as a number no larger than `max`, else `fallback`;
/// `t` where the option has no value.
fn given_number_value(t: Option<u64>, v: &CliValue, max: u64, fallback: u64) -> (r: Option<u64>)
    requires
        fallback <= max,
    ensures
        match v@.value {
            Some(s) => match parse_unsigned_spec(s, max as nat) {
                Ok(n) => r == Some(n as u64),
                Err(_) => r == Some(fallback),
            },
            None => r == t,
        },
        r matches Some(n) ==> (n <= max || r == t),
        v@.value matches Some(s) ==> (parse_unsigned_spec(s, max as nat) matches Ok(n) ==> n
            <= max),
{
    match &v.value {
        Some(_) => match parse_value(v, max) {
            Some(n) => Some(n),
            None => Some(fallback),
        },
        None => t,
    }
}

fn merge_without_file(cli: &CommandLine) -> (r: ConfigFile)
    ensures
        r@ == merged_without_file(*cli),
{
    let d = ConfigFile::default();
    let period = given_number_value(d.patrol_period_days, &cli.period, u64::MAX, DEFAULT_PATROL_DAYS);
    let port = given_number_value(Some(DEFAULT_SMTP_PORT as u64), &cli.smtp_port, 65535, FALLBACK_SMTP_PORT as u64);
    let threshold = given_number_value(Some(DEFAULT_ERROR_THRESHOLD as u64), &cli.error_threshold, usize::MAX as u64, DEFAULT_ERROR_THRESHOLD as u64);
    let min_sleep = given_number_value(d.min_sleep_seconds, &cli.min_sleep, u64::MAX, DEFAULT_MIN_SLEEP_SECONDS);
    let max_sleep = given_number_value(d.max_sleep_seconds, &cli.max_sleep, u64::MAX, DEFAULT_MAX_SLEEP_SECONDS);
    let jitter = given_number_value(Some(DEFAULT_MAX_JITTER_PERCENT as u64), &cli.max_jitter, 255, DEFAULT_MAX_JITTER_PERCENT as u64);
    let r = ConfigFile {
        devices: if cli.devices.values.is_some() {
            copy_opt_strings(&cli.devices.values)
        } else {
            d.devices
        },
        patrol_period_days: period,
        read_size: given_text_value(d.read_size, &cli.read_size),
        state_file: given_text_value(d.state_file, &cli.state_file),
        log_file: d.log_file,
        verbose: override_flag_value(d.verbose, cli.verbose),
        debug: override_flag_value(d.debug, cli.debug),
        use_syslog: override_flag_value(d.use_syslog, cli.syslog),
        syslog_facility: given_text_value(d.syslog_facility, &cli.syslog_facility),
        email_alerts: override_flag_value(d.email_alerts, cli.email_alerts),
        smtp_server: given_text_value(d.smtp_server, &cli.smtp_server),
        smtp_port: match port {
            Some(n) => Some(n as u16),
            None => None,
        },
        smtp_use_starttls: override_flag_value(d.smtp_use_starttls, cli.smtp_starttls),
        smtp_username: given_text_value(d.smtp_username, &cli.smtp_username),
        smtp_password: given_text_value(d.smtp_password, &cli.smtp_password),
        alert_from: given_text_value(d.alert_from, &cli.alert_from),
        alert_to: if cli.alert_to.values.is_some() {
            copy_opt_strings(&cli.alert_to.values)
        } else {
            d.alert_to
        },
        error_threshold: match threshold {
            Some(n) => Some(n as usize),
            None => None,
        },
        show_progress: override_flag_value(d.show_progress, cli.progress),
        min_sleep_seconds: min_sleep,
        max_sleep_seconds: max_sleep,
        enable_jitter: override_flag_value(d.enable_jitter, cli.enable_jitter),
        max_jitter_percent: match jitter {
            Some(n) => Some(n as u8),
            None => None,
        },
    };
    r

}

// ---------------------------------------------------------------------------
// The runtime configuration
// ---------------------------------------------------------------------------

/// The configuration the patrol runs with.
#[derive(Debug, Clone)]
pub struct PatrolConfig {
    pub devices: Vec<String>,
    pub patrol_period_days: u64,
    pub read_size: u64,
    pub state_file: String,
    pub log_file: Option<String>,
    pub verbose: bool,
    pub debug: bool,
    pub use_syslog: bool,
    pub syslog_facility: String,
    pub email_alerts: bool,
    pub smtp_server: Option<String>,
    pub smtp_port: u16,
    pub smtp_use_starttls: bool,
    pub smtp_username: Option<String>,
    pub smtp_password: Option<String>,
    pub alert_from: Option<String>,
    pub alert_to: Vec<String>,
    pub error_threshold: usize,
    pub show_progress: bool,
    pub min_sleep_seconds: Option<u64>,
    pub max_sleep_seconds: Option<u64>,
    pub enable_jitter: bool,
    pub max_jitter_percent: u8,
}

/// The view of a [`PatrolConfig`].
pub struct PatrolConfigView {
    pub devices: Seq<Seq<char>>,
    pub patrol_period_days: u64,
    pub read_size: u64,
    pub state_file: Seq<char>,
    pub log_file: Option<Seq<char>>,
    pub verbose: bool,
    pub debug: bool,
    pub use_syslog: bool,
    pub syslog_facility: Seq<char>,
    pub email_alerts: bool,
    pub smtp_server: Option<Seq<char>>,
    pub smtp_port: u16,
    pub smtp_use_starttls: bool,
    pub smtp_username: Option<Seq<char>>,
    pub smtp_password: Option<Seq<char>>,
    pub alert_from: Option<Seq<char>>,
    pub alert_to: Seq<Seq<char>>,
    pub error_threshold: usize,
    pub show_progress: bool,
    pub min_sleep_seconds: Option<u64>,
    pub max_sleep_seconds: Option<u64>,
    pub enable_jitter: bool,
    pub max_jitter_percent: u8,
}

impl View for PatrolConfig {
    type V = PatrolConfigView;

    open spec fn view(&self) -> PatrolConfigView {
        PatrolConfigView {
            devices: strings_view(self.devices@),
            patrol_period_days: self.patrol_period_days,
            read_size: self.read_size,
            state_file: self.state_file@,
            log_file: opt_view(self.log_file),
            verbose: self.verbose,
            debug: self.debug,
            use_syslog: self.use_syslog,
            syslog_facility: self.syslog_facility@,
            email_alerts: self.email_alerts,
            smtp_server: opt_view(self.smtp_server),
            smtp_port: self.smtp_port,
            smtp_use_starttls: self.smtp_use_starttls,
            smtp_username: opt_view(self.smtp_username),
            smtp_password: opt_view(self.smtp_password),
            alert_from: opt_view(self.alert_from),
            alert_to: strings_view(self.alert_to@),
            error_threshold: self.error_threshold,
            show_progress: self.show_progress,
            min_sleep_seconds: self.min_sleep_seconds,
            max_sleep_seconds: self.max_sleep_seconds,
            enable_jitter: self.enable_jitter,
            max_jitter_percent: self.max_jitter_percent,
        }
    }
}

/// Why a configuration cannot be built.
#[derive(Debug, Clone, Copy, PartialEq, Eq, Structural)]
pub enum ConfigError {
    /// The read size is no number of bytes.
    InvalidReadSize(IntErrorKind),
    /// The jitter percentage is above 100.
    JitterTooLarge,
}

/// The read size a file's settings give, the default where they give none.
pub open spec fn effective_read_size(f: ConfigFileView) -> Seq<char> {
    match f.read_size {
        Some(s) => s,
        None => DEFAULT_READ_SIZE_STR@,
    }
}

/// The runtime configuration that a file's settings give: each missing
/// setting takes its default; the read size must parse and the jitter
/// percentage may not exceed 100.
pub open spec fn built(f: ConfigFileView) -> Result<PatrolConfigView, ConfigError> {
    match read_size_value(effective_read_size(f)) {
        Err(k) => Err(ConfigError::InvalidReadSize(k)),
        Ok(read_size) => {
            let jitter = match f.max_jitter_percent {
                Some(p) => p,
                None => DEFAULT_MAX_JITTER_PERCENT,
            };
            if jitter > 100 {
                Err(ConfigError::JitterTooLarge)
            } else {
                Ok(
                    PatrolConfigView {
                        devices: match f.devices {
                            Some(d) => d,
                            None => Seq::empty(),
                        },
                        patrol_period_days: match f.patrol_period_days {
                            Some(d) => d,
                            None => DEFAULT_PATROL_DAYS,
                        },
                        read_size: read_size as u64,
                        state_file: match f.state_file {
                            Some(p) => p,
                            None => DEFAULT_STATE_FILE@,
                        },
                        log_file: f.log_file,
                        verbose: match f.verbose {
                            Some(b) => b,
                            None => DEFAULT_VERBOSE,
                        },
                        debug: match f.debug {
                            Some(b) => b,
                            None => DEFAULT_DEBUG,
                        },
                        use_syslog: match f.use_syslog {
                            Some(b) => b,
                            None => DEFAULT_USE_SYSLOG,
                        },
                        syslog_facility: match f.syslog_facility {
                            Some(s) => s,
                            None => DEFAULT_SYSLOG_FACILITY@,
                        },
                        email_alerts: match f.email_alerts {
                            Some(b) => b,
                            None => DEFAULT_EMAIL_ALERTS,
                        },
                        smtp_server: f.smtp_server,
                        smtp_port: match f.smtp_port {
                            Some(p) => p,
                            None => DEFAULT_SMTP_PORT,
                        },
                        smtp_use_starttls: match f.smtp_use_starttls {
                            Some(b) => b,
                            None => DEFAULT_SMTP_USE_STARTTLS,
                        },
                        smtp_username: f.smtp_username,
                        smtp_password: f.smtp_password,
                        alert_from: f.alert_from,
                        alert_to: match f.alert_to {
                            Some(a) => a,
                            None => Seq::empty(),
                        },
                        error_threshold: match f.error_threshold {
                            Some(t) => t,
                            None => DEFAULT_ERROR_THRESHOLD,
                        },
                        show_progress: match f.show_progress {
                            Some(b) => b,
                            None => DEFAULT_SHOW_PROGRESS,
                        },
                        min_sleep_seconds: f.min_sleep_seconds,
                        max_sleep_seconds: f.max_sleep_seconds,
                        enable_jitter: match f.enable_jitter {
                            Some(b) => b,
                            None => DEFAULT_ENABLE_JITTER,
                        },
                        max_jitter_percent: jitter,
                    },
                )
            }
        },
    }
}

/// Whether `r` is what `built` gives.
pub open spec fn is_built(r: Result<PatrolConfig, ConfigError>, expected: Result<PatrolConfigView, ConfigError>) -> bool {
    match expected {
        Ok(v) => r matches Ok(c) && c@ == v,
        Err(e) => r == Err::<PatrolConfig, ConfigError>(e),
    }
}

/// The settings a builder holds, the example configuration where it holds
/// none.
pub open spec fn file_or_example(f: Option<ConfigFileView>) -> ConfigFileView {
    match f {
        Some(f) => f,
        None => example_config(),
    }
}

/// Merges configuration from a file and the command line.
pub struct ConfigBuilder {
    config_file: Option<ConfigFile>,
}

impl View for ConfigBuilder {
    type V = Option<ConfigFileView>;

    closed spec fn view(&self) -> Option<ConfigFileView> {
        match self.config_file {
            Some(f) => Some(f@),
            None => None,
        }
    }
}

impl ConfigBuilder {
    /// A builder that holds no settings yet.
    pub fn new() -> (b: Self)
        ensures
            b@ is None,
    {
        ConfigBuilder { config_file: None }
    }

    /// Takes the settings read from a configuration file.
    pub fn load_config_file(self, config: ConfigFile) -> (b: Self)
        ensures
            b@ == Some(config@),
    {
        ConfigBuilder { config_file: Some(config) }
    }

    /// The settings held, for writing them out.
    pub fn into_config_file(self) -> (f: Option<ConfigFile>)
        ensures
            match f {
                Some(c) => self@ == Some(c@),
                None => self@ is None,
            },
    {
        self.config_file
    }

    /// Merges the command line into the settings: over a loaded file each
    /// option given on the command line replaces its setting; without one
    /// the command line fills in the example configuration.
    pub fn merge_command_line(self, cli: &CommandLine) -> (b: Self)
        ensures
            b@ == Some(merged(self@, *cli)),
    {
        match self.config_file {
            Some(f) => ConfigBuilder { config_file: Some(merge_into_file(f, cli)) },
            None => ConfigBuilder { config_file: Some(merge_without_file(cli)) },
        }
    }

    /// Builds the runtime configuration from the settings held (the example
    /// configuration where none are held).
    pub fn build(self) -> (r: Result<PatrolConfig, ConfigError>)
        requires
            read_size_in_range(effective_read_size(file_or_example(self@))),
        ensures
            is_built(r, built(file_or_example(self@))),
    {
        let f = match self.config_file {
            Some(f) => f,
            None => ConfigFile::default(),
        };
        let ghost fv = f@;
        let size_text = match f.read_size {
            Some(s) => s,
            None => DEFAULT_READ_SIZE_STR.to_owned(),
        };
        let read_size = match parse_read_size(size_text.as_str()) {
            Ok(n) => n,
            Err(k) => return Err(ConfigError::InvalidReadSize(k)),
        };
        let config = PatrolConfig {
            devices: match f.devices {
                Some(d) => d,
                None => Vec::new(),
            },
            patrol_period_days: f.patrol_period_days.unwrap_or(DEFAULT_PATROL_DAYS),
            read_size,
            state_file: match f.state_file {
                Some(p) => p,
                None => DEFAULT_STATE_FILE.to_owned(),
            },
            log_file: f.log_file,
            verbose: f.verbose.unwrap_or(DEFAULT_VERBOSE),
            debug: f.debug.unwrap_or(DEFAULT_DEBUG),
            use_syslog: f.use_syslog.unwrap_or(DEFAULT_USE_SYSLOG),
            syslog_facility: match f.syslog_facility {
                Some(s) => s,
                None => DEFAULT_SYSLOG_FACILITY.to_owned(),
            },
            email_alerts: f.email_alerts.unwrap_or(DEFAULT_EMAIL_ALERTS),
            smtp_server: f.smtp_server,
            smtp_port: f.smtp_port.unwrap_or(DEFAULT_SMTP_PORT),
            smtp_use_starttls: f.smtp_use_starttls.unwrap_or(DEFAULT_SMTP_USE_STARTTLS),
            smtp_username: f.smtp_username,
            smtp_password: f.smtp_password,
            alert_from: f.alert_from,
            alert_to: match f.alert_to {
                Some(a) => a,
                None => Vec::new(),
            },
            error_threshold: f.error_threshold.unwrap_or(DEFAULT_ERROR_THRESHOLD),
            show_progress: f.show_progress.unwrap_or(DEFAULT_SHOW_PROGRESS),
            min_sleep_seconds: f.min_sleep_seconds,
            max_sleep_seconds: f.max_sleep_seconds,
            enable_jitter: f.enable_jitter.unwrap_or(DEFAULT_ENABLE_JITTER),
            max_jitter_percent: f.max_jitter_percent.unwrap_or(DEFAULT_MAX_JITTER_PERCENT),
        };
        if config.max_jitter_percent > 100 {
            return Err(ConfigError::JitterTooLarge);
        }
        proof {
            assert(strings_view(Seq::<String>::empty()) =~= Seq::<Seq<char>>::empty());
            let v = built(fv)->Ok_0;
            assert(config@.devices == v.devices);
            assert(config@.alert_to == v.alert_to);
            assert(config@.read_size == v.read_size);
            assert(config@ == v);
        }
        Ok(config)
    }
}

/// Builds the runtime configuration from settings read from a file (where
/// one was read) and the command line.
pub struct Config;

impl Config {
    /// The configuration the file's settings and the command line give;
    /// `None` where the read size they give denotes more bytes than a `u64`
    /// holds, which the patrol does not accept.
    pub fn from_args(file: Option<ConfigFile>, cli: &CommandLine) -> (r: Option<
        Result<PatrolConfig, ConfigError>,
    >)
        ensures
            ({
                let m = merged(
                    match file {
                        Some(f) => Some(f@),
                        None => None,
                    },
                    *cli,
                );
                match r {
                    None => !read_size_in_range(effective_read_size(m)),
                    Some(b) => read_size_in_range(effective_read_size(m)) && is_built(b, built(m)),
                }
            }),
    {
        let mut builder = ConfigBuilder::new();
        if let Some(f) = file {
            builder = builder.load_config_file(f);
        }
        let builder = builder.merge_command_line(cli);
        let size_ok = match &builder.config_file {
            Some(f) => match &f.read_size {
                Some(s) => read_size_fits(s.as_str()),
                None => read_size_fits(DEFAULT_READ_SIZE_STR),
            },
            None => true,
        };
        if size_ok {
            Some(builder.build())
        } else {
            None
        }
    }
}

} // verus!
