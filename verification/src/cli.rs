//! The command line as the configuration logic reads it: for each option its
//! value (as the argument parser reports it, defaults included) and whether
//! the value was given on the command line itself.

use vstd::prelude::*;
use crate::text::{opt_view, opt_strings_view};

verus! {

/// An option that takes one value.
#[derive(Debug, Clone)]
pub struct CliValue {
    /// The value, given or defaulted; `None` where the option has no default
    /// and was not given.
    pub value: Option<String>,
    /// Whether the value was given on the command line.
    pub from_command_line: bool,
}

/// The view of a [`CliValue`].
pub struct CliValueView {
    pub value: Option<Seq<char>>,
    pub from_command_line: bool,
}

impl View for CliValue {
    type V = CliValueView;

    open spec fn view(&self) -> CliValueView {
        CliValueView { value: opt_view(self.value), from_command_line: self.from_command_line }
    }
}

/// An option that collects any number of values.
#[derive(Debug, Clone)]
pub struct CliList {
    /// The values given, `None` where the option did not occur.
    pub values: Option<Vec<String>>,
    /// Whether the values came from the command line.
    pub from_command_line: bool,
}

/// The view of a [`CliList`].
pub struct CliListView {
    pub values: Option<Seq<Seq<char>>>,
    pub from_command_line: bool,
}

impl View for CliList {
    type V = CliListView;

    open spec fn view(&self) -> CliListView {
        CliListView {
            values: opt_strings_view(self.values),
            from_command_line: self.from_command_line,
        }
    }
}

/// The options of the command line that bear on the configuration. A flag
/// is `true` exactly when it was given on the command line.
#[derive(Debug, Clone)]
pub struct CommandLine {
    pub devices: CliList,
    pub period: CliValue,
    pub read_size: CliValue,
    pub state_file: CliValue,
    pub verbose: bool,
    pub no_verbose: bool,
    pub debug: bool,
    pub no_debug: bool,
    pub syslog: bool,
    pub no_syslog: bool,
    pub syslog_facility: CliValue,
    pub email_alerts: bool,
    pub no_email_alerts: bool,
    pub smtp_server: CliValue,
    pub smtp_port: CliValue,
    pub smtp_starttls: bool,
    pub smtp_username: CliValue,
    pub smtp_password: CliValue,
    pub alert_from: CliValue,
    pub alert_to: CliList,
    pub error_threshold: CliValue,
    pub progress: bool,
    pub no_progress: bool,
    pub min_sleep: CliValue,
    pub max_sleep: CliValue,
    pub enable_jitter: bool,
    pub max_jitter: CliValue,
}

} // verus!
