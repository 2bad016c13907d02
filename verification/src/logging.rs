//! Where messages and alerts go: the log destination, which messages are
//! echoed on the console, and the settings an email alert needs.

use vstd::prelude::*;
use crate::config::PatrolConfig;
use crate::text::opt_view;

verus! {

/// The syslog facilities a configuration can name.
#[derive(Debug, Clone, Copy, PartialEq, Eq, Structural)]
pub enum SyslogFacility {
    Daemon,
    User,
    Local0,
    Local1,
    Local2,
    Local3,
    Local4,
    Local5,
    Local6,
    Local7,
}

/// The facility a name stands for; `daemon` for a name that stands for
/// none.
pub open spec fn facility_named(name: Seq<char>) -> SyslogFacility {
    if name == "user"@ {
        SyslogFacility::User
    } else if name == "local0"@ {
        SyslogFacility::Local0
    } else if name == "local1"@ {
        SyslogFacility::Local1
    } else if name == "local2"@ {
        SyslogFacility::Local2
    } else if name == "local3"@ {
        SyslogFacility::Local3
    } else if name == "local4"@ {
        SyslogFacility::Local4
    } else if name == "local5"@ {
        SyslogFacility::Local5
    } else if name == "local6"@ {
        SyslogFacility::Local6
    } else if name == "local7"@ {
        SyslogFacility::Local7
    } else {
        SyslogFacility::Daemon
    }
}

fn named(name: &String, candidate: &str) -> (b: bool)
    ensures
        b == (name@ == candidate@),
{
    *name == candidate.to_owned()
}

/// The facility `name` stands for; see [`facility_named`].
pub fn facility_from_name(name: &str) -> (f: SyslogFacility)
    ensures
        f == facility_named(name@),
{
    let n = name.to_owned();
    if named(&n, "user") {
        SyslogFacility::User
    } else if named(&n, "local0") {
        SyslogFacility::Local0
    } else if named(&n, "local1") {
        SyslogFacility::Local1
    } else if named(&n, "local2") {
        SyslogFacility::Local2
    } else if named(&n, "local3") {
        SyslogFacility::Local3
    } else if named(&n, "local4") {
        SyslogFacility::Local4
    } else if named(&n, "local5") {
        SyslogFacility::Local5
    } else if named(&n, "local6") {
        SyslogFacility::Local6
    } else if named(&n, "local7") {
        SyslogFacility::Local7
    } else {
        SyslogFacility::Daemon
    }
}

/// Where the log goes.
#[derive(Debug, Clone)]
pub enum LogDestination {
    /// To the file at this path.
    File(String),
    /// To syslog, with this facility.
    Syslog(SyslogFacility),
    /// Nowhere but the console.
    Console,
}

/// Where a configuration sends its log: to its log file where it names one,
/// else to syslog where syslog is on, else nowhere but the console.
pub fn log_destination(config: &PatrolConfig) -> (d: LogDestination)
    ensures
        match config.log_file {
            Some(p) => d matches LogDestination::File(q) && q@ == p@,
            None => if config.use_syslog {
                d == LogDestination::Syslog(facility_named(config.syslog_facility@))
            } else {
                d is Console
            },
        },
{
    match &config.log_file {
        Some(p) => LogDestination::File(p.clone()),
        None => if config.use_syslog {
            LogDestination::Syslog(facility_from_name(config.syslog_facility.as_str()))
        } else {
            LogDestination::Console
        },
    }
}

/// Whether an information message is echoed on the console: in verbose
/// mode, while no progress bars are shown.
pub fn echoes_info(config: &PatrolConfig) -> (b: bool)
    ensures
        b == (!config.show_progress && config.verbose),
{
    !config.show_progress && config.verbose
}

/// Whether a warning or an error is echoed on the console: while no
/// progress bars are shown.
pub fn echoes_problems(config: &PatrolConfig) -> (b: bool)
    ensures
        b == !config.show_progress,
{
    !config.show_progress
}

/// Why an email alert cannot be sent.
#[derive(Debug, Clone, Copy, PartialEq, Eq, Structural)]
pub enum AlertConfigError {
    /// No SMTP server is configured.
    NoSmtpServer,
    /// No sender address is configured.
    NoSender,
    /// No recipient is configured.
    NoRecipients,
}

/// Whether an email alert is to be sent: `Ok(false)` where email alerts are
/// off; else the first setting it lacks (server, sender, recipients), or
/// `Ok(true)` where it lacks none.
pub fn alert_readiness(config: &PatrolConfig) -> (r: Result<bool, AlertConfigError>)
    ensures
        !config.email_alerts ==> r == Ok::<bool, AlertConfigError>(false),
        config.email_alerts ==> r == if config.smtp_server is None {
            Err(AlertConfigError::NoSmtpServer)
        } else if config.alert_from is None {
            Err(AlertConfigError::NoSender)
        } else if config.alert_to@.len() == 0 {
            Err(AlertConfigError::NoRecipients)
        } else {
            Ok::<bool, AlertConfigError>(true)
        },
{
    if !config.email_alerts {
        Ok(false)
    } else if config.smtp_server.is_none() {
        Err(AlertConfigError::NoSmtpServer)
    } else if config.alert_from.is_none() {
        Err(AlertConfigError::NoSender)
    } else if config.alert_to.len() == 0 {
        Err(AlertConfigError::NoRecipients)
    } else {
        Ok(true)
    }
}

/// The SMTP user name and password to log in with: both must be set and
/// the user name not empty.
pub fn smtp_credentials(config: &PatrolConfig) -> (r: Option<(String, String)>)
    ensures
        match (opt_view(config.smtp_username), opt_view(config.smtp_password)) {
            (Some(u), Some(p)) => if u.len() > 0 {
                r matches Some(c) && c.0@ == u && c.1@ == p
            } else {
                r is None
            },
            _ => r is None,
        },
{
    match (&config.smtp_username, &config.smtp_password) {
        (Some(u), Some(p)) => if !u.as_str().is_empty() {
            Some((u.clone(), p.clone()))
        } else {
            None
        },
        _ => None,
    }
}

} // verus!
