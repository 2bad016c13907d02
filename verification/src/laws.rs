//! Properties that hold across the operations of the library.

use vstd::prelude::*;
use crate::buffer::rounded_size;
use crate::cli::CommandLine;
use crate::config::{built, merged_with_file, ConfigFileView};
use crate::device::{
    alert_due, device_uniq, error_recorded, read_recorded, without_white_space, DeviceInfoView,
};
use crate::schedule::{
    jitter_split, period_ms_spec, read_interval_spec, resume_position_spec, total_reads_spec,
};
use crate::config::SECTOR_SIZE;
use crate::states::{
    add_if_absent, distinct_ids, duplicates_upto, has_id, synced,
    StateEntryView,
};
use crate::text::{is_white_space, parse_unsigned_spec};

verus! {

/// With a configuration file loaded, what the command line gives wins and
/// what it leaves alone stays as the file has it: a state file given on the
/// command line is the state file the patrol uses, an SMTP user name not
/// given is the file's, a patrol period given as a number is the period
/// used, `--verbose` turns verbose output on and `--no-verbose` (alone)
/// turns it off, and devices given replace the file's.
pub proof fn law_command_line_overrides_file(f: ConfigFileView, cli: CommandLine)
    ensures
        ({
            let m = merged_with_file(f, cli);
            &&& (cli.state_file@.from_command_line && cli.state_file@.value is Some) ==> m.state_file
                == cli.state_file@.value
            &&& !cli.state_file@.from_command_line ==> m.state_file == f.state_file
            &&& !cli.smtp_username@.from_command_line ==> m.smtp_username == f.smtp_username
            &&& (cli.period@.from_command_line && cli.period@.value is Some && parse_unsigned_spec(
                cli.period@.value->0,
                u64::MAX as nat,
            ) is Ok) ==> m.patrol_period_days == Some(
                parse_unsigned_spec(cli.period@.value->0, u64::MAX as nat)->Ok_0 as u64,
            )
            &&& !cli.period@.from_command_line ==> m.patrol_period_days == f.patrol_period_days
            &&& cli.verbose ==> m.verbose == Some(true)
            &&& (!cli.verbose && cli.no_verbose) ==> m.verbose == Some(false)
            &&& (!cli.verbose && !cli.no_verbose) ==> m.verbose == f.verbose
            &&& (cli.devices@.from_command_line && cli.devices@.values is Some) ==> m.devices
                == cli.devices@.values
            &&& !cli.devices@.from_command_line ==> m.devices == f.devices
            &&& m.log_file == f.log_file
        }),
{
}

/// A setting that a built configuration takes from the settings is the
/// setting where present: the state file, the user name and the patrol
/// period of the merged settings are those the patrol runs with.
pub proof fn law_built_uses_settings(f: ConfigFileView)
    ensures
        built(f) matches Ok(c) ==> {
            &&& (f.state_file matches Some(p) ==> c.state_file == p)
            &&& c.smtp_username == f.smtp_username
            &&& (f.patrol_period_days matches Some(d) ==> c.patrol_period_days == d)
            &&& c.max_jitter_percent <= 100
        },
{
}

/// A number given on the command line over a configuration file replaces
/// the file's setting whenever it parses as a number of the setting's type;
/// a number that does not parse leaves the file's setting.
pub proof fn law_command_line_numbers_override_file(f: ConfigFileView, cli: CommandLine)
    ensures
        ({
            let m = merged_with_file(f, cli);
            &&& cli.max_jitter@.from_command_line ==> (cli.max_jitter@.value matches Some(v) ==> (
                parse_unsigned_spec(v, 255) matches Ok(n) ==> m.max_jitter_percent == Some(n as u8)))
            &&& cli.max_jitter@.from_command_line ==> (cli.max_jitter@.value matches Some(v) ==> (
                parse_unsigned_spec(v, 255) is Err ==> m.max_jitter_percent == f.max_jitter_percent))
            &&& !cli.max_jitter@.from_command_line ==> m.max_jitter_percent == f.max_jitter_percent
            &&& cli.smtp_port@.from_command_line ==> (cli.smtp_port@.value matches Some(v) ==> (
                parse_unsigned_spec(v, 65535) matches Ok(n) ==> m.smtp_port == Some(n as u16)))
            &&& cli.smtp_port@.from_command_line ==> (cli.smtp_port@.value matches Some(v) ==> (
                parse_unsigned_spec(v, 65535) is Err ==> m.smtp_port == f.smtp_port))
            &&& !cli.smtp_port@.from_command_line ==> m.smtp_port == f.smtp_port
            &&& cli.error_threshold@.from_command_line ==> (cli.error_threshold@.value matches Some(v) ==> (
                parse_unsigned_spec(v, usize::MAX as nat) matches Ok(n) ==> m.error_threshold == Some(n as usize)))
            &&& cli.error_threshold@.from_command_line ==> (cli.error_threshold@.value matches Some(v) ==> (
                parse_unsigned_spec(v, usize::MAX as nat) is Err ==> m.error_threshold == f.error_threshold))
            &&& !cli.error_threshold@.from_command_line ==> m.error_threshold == f.error_threshold
            &&& cli.min_sleep@.from_command_line ==> (cli.min_sleep@.value matches Some(v) ==> (
                parse_unsigned_spec(v, u64::MAX as nat) matches Ok(n) ==> m.min_sleep_seconds == Some(n as u64)))
            &&& cli.min_sleep@.from_command_line ==> (cli.min_sleep@.value matches Some(v) ==> (
                parse_unsigned_spec(v, u64::MAX as nat) is Err ==> m.min_sleep_seconds == f.min_sleep_seconds))
            &&& !cli.min_sleep@.from_command_line ==> m.min_sleep_seconds == f.min_sleep_seconds
            &&& cli.max_sleep@.from_command_line ==> (cli.max_sleep@.value matches Some(v) ==> (
                parse_unsigned_spec(v, u64::MAX as nat) matches Ok(n) ==> m.max_sleep_seconds == Some(n as u64)))
            &&& cli.max_sleep@.from_command_line ==> (cli.max_sleep@.value matches Some(v) ==> (
                parse_unsigned_spec(v, u64::MAX as nat) is Err ==> m.max_sleep_seconds == f.max_sleep_seconds))
            &&& !cli.max_sleep@.from_command_line ==> m.max_sleep_seconds == f.max_sleep_seconds
        }),
{
}

/// A built configuration takes each setting the file gives, and the default
/// for each it leaves out.
pub proof fn law_built_takes_file_settings(f: ConfigFileView)
    ensures
        built(f) matches Ok(c) ==> {
            &&& (f.use_syslog matches Some(b) ==> c.use_syslog == b)
            &&& (f.use_syslog is None ==> c.use_syslog == true)
            &&& (f.verbose matches Some(b) ==> c.verbose == b)
            &&& (f.verbose is None ==> c.verbose == false)
            &&& (f.debug matches Some(b) ==> c.debug == b)
            &&& (f.debug is None ==> c.debug == false)
            &&& (f.email_alerts matches Some(b) ==> c.email_alerts == b)
            &&& (f.email_alerts is None ==> c.email_alerts == true)
            &&& (f.smtp_use_starttls matches Some(b) ==> c.smtp_use_starttls == b)
            &&& (f.smtp_use_starttls is None ==> c.smtp_use_starttls == true)
            &&& (f.show_progress matches Some(b) ==> c.show_progress == b)
            &&& (f.show_progress is None ==> c.show_progress == true)
            &&& (f.enable_jitter matches Some(b) ==> c.enable_jitter == b)
            &&& (f.enable_jitter is None ==> c.enable_jitter == true)
            &&& (f.smtp_port matches Some(p) ==> c.smtp_port == p)
            &&& (f.smtp_port is None ==> c.smtp_port == 587)
            &&& (f.error_threshold matches Some(t) ==> c.error_threshold == t)
            &&& (f.error_threshold is None ==> c.error_threshold == 5)
            &&& (f.max_jitter_percent matches Some(j) ==> c.max_jitter_percent == j)
            &&& (f.max_jitter_percent is None ==> c.max_jitter_percent == 25)
            &&& (f.patrol_period_days is None ==> c.patrol_period_days == 30)
            &&& c.min_sleep_seconds == f.min_sleep_seconds
            &&& c.max_sleep_seconds == f.max_sleep_seconds
            &&& c.log_file == f.log_file
            &&& c.smtp_server == f.smtp_server
            &&& c.smtp_password == f.smtp_password
            &&& c.alert_from == f.alert_from
            &&& (f.devices matches Some(d) ==> c.devices == d)
            &&& (f.devices is None ==> c.devices.len() == 0)
            &&& (f.alert_to matches Some(a) ==> c.alert_to == a)
            &&& (f.alert_to is None ==> c.alert_to.len() == 0)
            &&& (f.syslog_facility matches Some(x) ==> c.syslog_facility == x)
        },
        (match f.max_jitter_percent {
            Some(j) => j > 100,
            None => false,
        }) ==> built(f) is Err,
{
}

/// The reads of a device, at the computed interval, fit in the patrol
/// period whenever the period (in milliseconds) is no shorter than the
/// number of reads.
pub proof fn law_reads_fit_in_period(patrol_period_days: u64, device_size: u64, read_size: u64)
    requires
        read_size > 0,
        period_ms_spec(patrol_period_days) >= total_reads_spec(device_size, read_size),
        total_reads_spec(device_size, read_size) >= 1,
    ensures
        total_reads_spec(device_size, read_size) * read_interval_spec(
            patrol_period_days,
            device_size,
            read_size,
        ) <= period_ms_spec(patrol_period_days),
{
    let reads = total_reads_spec(device_size, read_size);
    let period = period_ms_spec(patrol_period_days);
    assert(period / reads >= 1) by (nonlinear_arith)
        requires
            period >= reads,
            reads >= 1,
    ;
    assert(reads * (period / reads) <= period) by (nonlinear_arith)
        requires
            reads >= 1,
    ;
}

/// Jitter moves the read within its interval but keeps the interval: where
/// the jitter drawn is no longer than the base interval, the sleeps before
/// and after the read add up to the base interval, and the sleep before the
/// read is at most the jitter.
pub proof fn law_jitter_keeps_interval(base_interval_ms: u64, total: u64, pre: u64)
    requires
        total <= base_interval_ms,
        pre <= total,
    ensures
        jitter_split(base_interval_ms, total, pre).0 + jitter_split(base_interval_ms, total, pre).1
            == base_interval_ms,
        jitter_split(base_interval_ms, total, pre).0 <= total,
{
}

/// A patrol resumes at the later of the position it saved and the start of
/// the read chunk `seek` percent into the device: never before either, and
/// at one of them.
pub proof fn law_resume_never_rewinds(size_bytes: u64, read_size: u64, seek: u8, last_position: u64)
    ensures
        ({
            let r = resume_position_spec(size_bytes, read_size, seek, last_position);
            let chunk_start = ((seek as nat * (size_bytes as nat / read_size as nat)) / 100)
                * read_size as nat;
            &&& r >= last_position
            &&& r >= chunk_start
            &&& (r == last_position || r == chunk_start)
        }),
{
}

/// After a successful read the saved position stays inside the device: it
/// is where the read ended, or the beginning once the end is reached.
pub proof fn law_position_stays_inside(info: DeviceInfoView, new_position: u64, device_size: u64, now: u64)
    requires
        device_size > 0,
    ensures
        read_recorded(info, new_position, device_size, now).last_position < device_size,
        read_recorded(info, new_position, device_size, now).errors == info.errors,
{
}

/// An alert reports each error once: after an alert, no alert is due again
/// until new errors are found (for a threshold of at least one), and each
/// failed read brings one more error.
pub proof fn law_alert_reports_once(info: DeviceInfoView, threshold: usize, now: u64, read_position: u64, message: Seq<char>, read_size: u64)
    requires
        threshold >= 1,
        info.errors.len() <= usize::MAX,
    ensures
        !alert_due(DeviceInfoView { reported_errors: info.errors.len() as usize, ..info }, threshold),
        error_recorded(info, now, read_position, message, read_size).errors.len() == info.errors.len()
            + 1,
        error_recorded(info, now, read_position, message, read_size).reported_errors
            == info.reported_errors,
{
}

/// A failed read is recorded with its time, the first sector of that read
/// (whatever the saved position was) and its message, after the errors
/// already recorded; the patrol then moves one read past the saved position.
pub proof fn law_failed_read_recorded(
    info: DeviceInfoView,
    now: u64,
    read_position: u64,
    message: Seq<char>,
    read_size: u64,
)
    requires
        info.last_position + read_size <= u64::MAX,
    ensures
        ({
            let after = error_recorded(info, now, read_position, message, read_size);
            &&& after.errors.len() == info.errors.len() + 1
            &&& after.errors.last().sector == read_position / 512
            &&& after.errors.last().timestamp == now
            &&& after.errors.last().error == message
            &&& after.errors.drop_last() == info.errors
            &&& after.last_position == info.last_position + read_size
            &&& after.path == info.path && after.uniq == info.uniq
            &&& after.reported_errors == info.reported_errors
        }),
{
    assert(SECTOR_SIZE == 512);
    let after = error_recorded(info, now, read_position, message, read_size);
    assert(after.errors.drop_last() =~= info.errors);
}

/// Devices are duplicates only through a value they truly share: where all
/// paths differ and no two devices share a non-empty serial number, WWID,
/// EUI or identifier, the check reports nothing. Conversely, two devices
/// sharing a non-empty serial number are reported.
pub proof fn law_empty_identities_never_duplicate(s: Seq<StateEntryView>)
    ensures
        (forall|i: int, j: int|
            0 <= i < j < s.len() ==> {
                &&& s[i].info.path != s[j].info.path
                &&& (s[i].info.serial.len() > 0 ==> s[i].info.serial != s[j].info.serial)
                &&& (s[i].info.wwid.len() > 0 ==> s[i].info.wwid != s[j].info.wwid)
                &&& (s[i].info.eui.len() > 0 ==> s[i].info.eui != s[j].info.eui)
                &&& (s[i].info.uniq.len() > 0 ==> s[i].info.uniq != s[j].info.uniq)
            }) ==> duplicates_upto(s, s.len() as int).len() == 0,
        (exists|i: int, j: int|
            0 <= i < j < s.len() && s[i].info.serial.len() > 0 && s[i].info.serial
                == s[j].info.serial) ==> duplicates_upto(s, s.len() as int).len() > 0,
{
    crate::states::lemma_report_empty(s, s.len() as int);
    if exists|i: int, j: int|
        0 <= i < j < s.len() && s[i].info.serial.len() > 0 && s[i].info.serial == s[j].info.serial {
        let (i, j) = choose|i: int, j: int|
            0 <= i < j < s.len() && s[i].info.serial.len() > 0 && s[i].info.serial
                == s[j].info.serial;
        assert(crate::states::identity_checked(s[j].info, 1));
        assert(crate::states::identity(s[i].info, 1) == crate::states::identity(s[j].info, 1));
    }
}

/// Syncing the probed devices into the saved states keeps every saved state
/// as it was, at its place, and leaves a state for every probed device.
pub proof fn law_sync_keeps_saved_states(s: Seq<StateEntryView>, infos: Seq<DeviceInfoView>)
    ensures
        synced(s, infos).len() >= s.len(),
        forall|i: int| 0 <= i < s.len() ==> #[trigger] synced(s, infos)[i] == s[i],
        forall|k: int| 0 <= k < infos.len() ==> has_id(synced(s, infos), #[trigger] infos[k].uniq),
    decreases infos.len(),
{
    if infos.len() > 0 {
        let before = synced(s, infos.drop_last());
        law_sync_keeps_saved_states(s, infos.drop_last());
        let last = infos.last();
        assert(synced(s, infos) == add_if_absent(before, last));
        if !has_id(before, last.uniq) {
            assert(before.push(StateEntryView { id: last.uniq, info: last })[before.len() as int].id
                == last.uniq);
        }
        assert forall|k: int| 0 <= k < infos.len() implies has_id(
            synced(s, infos),
            #[trigger] infos[k].uniq,
        ) by {
            if k < infos.len() - 1 {
                assert(infos.drop_last()[k] == infos[k]);
                let j = choose|j: int| 0 <= j < before.len() && before[j].id == infos[k].uniq;
                assert(synced(s, infos)[j] == before[j]);
            }
        }
    }
}

/// After a reset of all states, the states are exactly the configured
/// devices that were found, each under its identifier, one per identifier.
pub proof fn law_reset_all_keeps_configured_devices(infos: Seq<DeviceInfoView>)
    ensures
        forall|i: int|
            0 <= i < synced(Seq::empty(), infos).len() ==> exists|k: int|
                0 <= k < infos.len() && #[trigger] synced(Seq::empty(), infos)[i] == (
                StateEntryView { id: infos[k].uniq, info: infos[k] }),
        forall|k: int| 0 <= k < infos.len() ==> has_id(synced(Seq::empty(), infos), #[trigger] infos[k].uniq),
        distinct_ids(synced(Seq::empty(), infos)),
    decreases infos.len(),
{
    law_sync_keeps_saved_states(Seq::empty(), infos);
    if infos.len() > 0 {
        let rest = infos.drop_last();
        let before = synced(Seq::empty(), rest);
        law_reset_all_keeps_configured_devices(rest);
        let after = synced(Seq::empty(), infos);
        assert forall|i: int| 0 <= i < after.len() implies exists|k: int|
            0 <= k < infos.len() && #[trigger] after[i] == (StateEntryView {
                id: infos[k].uniq,
                info: infos[k],
            }) by {
            if i < before.len() {
                assert(after[i] == before[i]);
                let k = choose|k: int|
                    0 <= k < rest.len() && #[trigger] before[i] == (StateEntryView {
                        id: rest[k].uniq,
                        info: rest[k],
                    });
                assert(rest[k] == infos[k]);
            } else {
                assert(after[i] == (StateEntryView { id: infos.last().uniq, info: infos.last() }));
                assert(infos.last() == infos[infos.len() - 1]);
            }
        }
    }
}

/// A device identifier holds no white space.
pub proof fn law_uniq_has_no_white_space(serial: Seq<char>, wwid: Seq<char>, eui: Seq<char>)
    ensures
        device_uniq(serial, wwid, eui) matches Some(u) ==> forall|i: int|
            0 <= i < u.len() ==> !is_white_space(#[trigger] u[i]),
{
    if device_uniq(serial, wwid, eui) is Some {
        let src = if wwid.len() > 0 {
            wwid
        } else if eui.len() > 0 {
            seq!['e', 'u', 'i', '.'] + eui
        } else {
            seq!['s', 'n', '.'] + serial
        };
        lemma_without_white_space(src);
    }
}

proof fn lemma_without_white_space(s: Seq<char>)
    ensures
        forall|i: int|
            0 <= i < without_white_space(s).len() ==> !is_white_space(
                #[trigger] without_white_space(s)[i],
            ),
    decreases s.len(),
{
    if s.len() > 0 {
        let rest = without_white_space(s.drop_last());
        lemma_without_white_space(s.drop_last());
        if !is_white_space(s.last()) {
            assert forall|i: int| 0 <= i < rest.push(s.last()).len() implies !is_white_space(
                #[trigger] rest.push(s.last())[i],
            ) by {
                if i < rest.len() {
                    assert(rest.push(s.last())[i] == rest[i]);
                }
            }
        }
    }
}

/// The shared buffer is at least as long as asked, a multiple of its
/// alignment, and less than one alignment longer than asked.
pub proof fn law_buffer_rounding(size: usize, alignment: usize)
    requires
        alignment > 0,
    ensures
        rounded_size(size, alignment) >= size,
        rounded_size(size, alignment) < size + alignment,
        rounded_size(size, alignment) % (alignment as nat) == 0,
{
    let a = alignment as nat;
    let n = (size + alignment - 1) as nat;
    let q = n / a;
    assert(q * a <= n && n < q * a + a) by (nonlinear_arith)
        requires
            q == n / a,
            a > 0,
    ;
    assert((q * a) % a == 0) by (nonlinear_arith)
        requires
            a > 0,
    ;
}

} // verus!
