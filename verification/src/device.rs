//! What the patrol knows of a device: its identity, size, position and the
//! read errors found on it.

use vstd::prelude::*;
use crate::config::SECTOR_SIZE;
use crate::text::{
    chars_of, concat_chars, is_white_space, string_of, trim_chars, trimmed, white_space,
};

verus! {

/// A read error found on a device.
#[derive(Debug, Clone)]
pub struct PatrolError {
    /// Seconds since the Unix epoch when the error was found.
    pub timestamp: u64,
    /// The first sector of the failed read.
    pub sector: u64,
    /// What the read reported.
    pub error: String,
}

/// The view of a [`PatrolError`].
pub struct PatrolErrorView {
    pub timestamp: u64,
    pub sector: u64,
    pub error: Seq<char>,
}

impl View for PatrolError {
    type V = PatrolErrorView;

    open spec fn view(&self) -> PatrolErrorView {
        PatrolErrorView { timestamp: self.timestamp, sector: self.sector, error: self.error@ }
    }
}

impl PatrolError {
    /// A copy of this error.
    pub fn copy(&self) -> (e: PatrolError)
        ensures
            e@ == self@,
    {
        PatrolError { timestamp: self.timestamp, sector: self.sector, error: self.error.clone() }
    }
}

/// The views of a sequence of errors.
pub open spec fn errors_view(s: Seq<PatrolError>) -> Seq<PatrolErrorView> {
    s.map_values(|e: PatrolError| e@)
}

/// The state of one device.
#[derive(Debug, Clone)]
pub struct DeviceInfo {
    pub path: String,
    pub size_bytes: u64,
    pub sectors: u64,
    /// Where the next read of the patrol starts, in bytes.
    pub last_position: u64,
    pub errors: Vec<PatrolError>,
    /// How many of the errors have been reported by email.
    pub reported_errors: usize,
    /// Seconds since the Unix epoch when the current patrol cycle began.
    pub patrol_start: u64,
    pub serial: String,
    pub wwid: String,
    pub eui: String,
    /// The identifier the device is known by.
    pub uniq: String,
}

/// The view of a [`DeviceInfo`].
pub struct DeviceInfoView {
    pub path: Seq<char>,
    pub size_bytes: u64,
    pub sectors: u64,
    pub last_position: u64,
    pub errors: Seq<PatrolErrorView>,
    pub reported_errors: usize,
    pub patrol_start: u64,
    pub serial: Seq<char>,
    pub wwid: Seq<char>,
    pub eui: Seq<char>,
    pub uniq: Seq<char>,
}

impl View for DeviceInfo {
    type V = DeviceInfoView;

    open spec fn view(&self) -> DeviceInfoView {
        DeviceInfoView {
            path: self.path@,
            size_bytes: self.size_bytes,
            sectors: self.sectors,
            last_position: self.last_position,
            errors: errors_view(self.errors@),
            reported_errors: self.reported_errors,
            patrol_start: self.patrol_start,
            serial: self.serial@,
            wwid: self.wwid@,
            eui: self.eui@,
            uniq: self.uniq@,
        }
    }
}

/// `s` without its white space characters.
pub open spec fn without_white_space(s: Seq<char>) -> Seq<char>
    decreases s.len(),
{
    if s.len() == 0 {
        s
    } else if is_white_space(s.last()) {
        without_white_space(s.drop_last())
    } else {
        without_white_space(s.drop_last()).push(s.last())
    }
}

/// The identifier of a device, before white space is removed: its WWID,
/// else `eui.` and its EUI, else `sn.` and its serial number; none where
/// all three are empty.
pub open spec fn uniq_source(serial: Seq<char>, wwid: Seq<char>, eui: Seq<char>) -> Option<
    Seq<char>,
> {
    if wwid.len() > 0 {
        Some(wwid)
    } else if eui.len() > 0 {
        Some(seq!['e', 'u', 'i', '.'] + eui)
    } else if serial.len() > 0 {
        Some(seq!['s', 'n', '.'] + serial)
    } else {
        None
    }
}

/// The identifier of a device with the given serial number, WWID and EUI.
pub open spec fn device_uniq(serial: Seq<char>, wwid: Seq<char>, eui: Seq<char>) -> Option<
    Seq<char>,
> {
    match uniq_source(serial, wwid, eui) {
        Some(s) => Some(without_white_space(s)),
        None => None,
    }
}

/// The contents of an identity attribute file: its text trimmed, empty
/// where the file could not be read.
pub open spec fn attribute_text(contents: Option<Seq<char>>) -> Seq<char> {
    match contents {
        Some(c) => trimmed(c),
        None => Seq::empty(),
    }
}

/// `s` without its white space characters.
pub fn remove_white_space(s: &str) -> (out: String)
    ensures
        out@ == without_white_space(s@),
{
    let chars = chars_of(s);
    let mut kept: Vec<char> = Vec::new();
    let mut i: usize = 0;
    while i < chars.len()
        invariant
            i <= chars.len(),
            chars@ == s@,
            kept@ == without_white_space(chars@.take(i as int)),
        decreases chars.len() - i,
    {
        assert(chars@.take(i + 1).drop_last() =~= chars@.take(i as int));
        if !white_space(chars[i]) {
            kept.push(chars[i]);
        }
        i = i + 1;
    }
    assert(chars@.take(chars.len() as int) =~= chars@);
    string_of(&kept)
}

fn attribute_value(contents: &Option<String>) -> (out: String)
    ensures
        out@ == attribute_text(
            match contents {
                Some(c) => Some(c@),
                None => None,
            },
        ),
{
    match contents {
        Some(c) => string_of(&trim_chars(&chars_of(c.as_str()))),
        None => String::new(),
    }
}

/// The identifier of a device with the given serial number, WWID and EUI,
/// where it has one.
pub fn uniq_of(serial: &str, wwid: &str, eui: &str) -> (r: Option<String>)
    ensures
        match device_uniq(serial@, wwid@, eui@) {
            Some(u) => r matches Some(s) && s@ == u,
            None => r is None,
        },
{
    let source = if !wwid.is_empty() {
        wwid.to_owned()
    } else if !eui.is_empty() {
        let mut p: Vec<char> = Vec::new();
        p.push('e');
        p.push('u');
        p.push('i');
        p.push('.');
        assert(p@ =~= seq!['e', 'u', 'i', '.']);
        concat_chars(&p, eui)
    } else if !serial.is_empty() {
        let mut p: Vec<char> = Vec::new();
        p.push('s');
        p.push('n');
        p.push('.');
        assert(p@ =~= seq!['s', 'n', '.']);
        concat_chars(&p, serial)
    } else {
        return None;
    };
    Some(remove_white_space(source.as_str()))
}

impl DeviceInfo {
    /// The state of a device just found: at `path`, `size_bytes` long, with
    /// the contents of its serial, WWID and EUI attribute files (`None` for
    /// a file that could not be read), at time `now`. `None` where the
    /// device has no identifier.
    pub fn from_probe(
        path: String,
        size_bytes: u64,
        serial: Option<String>,
        wwid: Option<String>,
        eui: Option<String>,
        now: u64,
    ) -> (r: Option<DeviceInfo>)
        ensures
            ({
                let s = attribute_text(
                    match serial {
                        Some(c) => Some(c@),
                        None => None,
                    },
                );
                let w = attribute_text(
                    match wwid {
                        Some(c) => Some(c@),
                        None => None,
                    },
                );
                let e = attribute_text(
                    match eui {
                        Some(c) => Some(c@),
                        None => None,
                    },
                );
                match device_uniq(s, w, e) {
                    None => r is None,
                    Some(u) => r matches Some(info) && info@ == (DeviceInfoView {
                        path: path@,
                        size_bytes,
                        sectors: size_bytes / SECTOR_SIZE,
                        last_position: 0,
                        errors: Seq::empty(),
                        reported_errors: 0,
                        patrol_start: now,
                        serial: s,
                        wwid: w,
                        eui: e,
                        uniq: u,
                    }),
                }
            }),
    {
        let serial = attribute_value(&serial);
        let wwid = attribute_value(&wwid);
        let eui = attribute_value(&eui);
        match uniq_of(serial.as_str(), wwid.as_str(), eui.as_str()) {
            None => None,
            Some(uniq) => {
                let errors: Vec<PatrolError> = Vec::new();
                assert(errors_view(errors@) =~= Seq::empty());
                Some(
                    DeviceInfo {
                        path,
                        size_bytes,
                        sectors: size_bytes / SECTOR_SIZE,
                        last_position: 0,
                        errors,
                        reported_errors: 0,
                        patrol_start: now,
                        serial,
                        wwid,
                        eui,
                        uniq,
                    },
                )
            },
        }
    }
}

/// How many of the newest errors an alert lists.
pub const ALERT_RECENT_ERRORS: usize = 10;

/// How many of the newest errors the status shows.
pub const STATUS_RECENT_ERRORS: usize = 3;

/// The `count` newest errors of `errors`, newest first.
pub open spec fn newest_errors(errors: Seq<PatrolErrorView>, count: nat) -> Seq<PatrolErrorView> {
    let n = if count < errors.len() {
        count
    } else {
        errors.len()
    };
    Seq::new(n, |k: int| errors[errors.len() - 1 - k])
}

/// The state after a successful read ending at `new_position`: the patrol
/// continues there, or, where that is the end of the device, restarts at
/// the beginning with a new cycle begun at `now`.
pub open spec fn read_recorded(info: DeviceInfoView, new_position: u64, device_size: u64, now: u64) -> DeviceInfoView {
    if new_position >= device_size {
        DeviceInfoView { last_position: 0, patrol_start: now, ..info }
    } else {
        DeviceInfoView { last_position: new_position, ..info }
    }
}

/// The state after a failed read of `read_size` bytes at `read_position`:
/// the error is recorded with its time and sector, and the patrol moves on
/// past the chunk.
pub open spec fn error_recorded(
    info: DeviceInfoView,
    now: u64,
    read_position: u64,
    message: Seq<char>,
    read_size: u64,
) -> DeviceInfoView {
    DeviceInfoView {
        errors: info.errors.push(
            PatrolErrorView { timestamp: now, sector: read_position / SECTOR_SIZE, error: message },
        ),
        last_position: (info.last_position + read_size) as u64,
        ..info
    }
}

/// Whether the errors of a device not yet reported have reached `threshold`.
pub open spec fn alert_due(info: DeviceInfoView, threshold: usize) -> bool {
    info.errors.len() - info.reported_errors >= threshold
}

/// An alert about the errors found on a device.
#[derive(Debug, Clone)]
pub struct ErrorAlert {
    /// How many errors the device has.
    pub total_errors: usize,
    /// Its newest errors, newest first.
    pub recent: Vec<PatrolError>,
}

impl DeviceInfo {
    /// A copy of this state.
    pub fn copy(&self) -> (r: DeviceInfo)
        ensures
            r@ == self@,
    {
        let mut errors: Vec<PatrolError> = Vec::new();
        let mut k: usize = 0;
        while k < self.errors.len()
            invariant
                k <= self.errors.len(),
                errors_view(errors@) == errors_view(self.errors@.take(k as int)),
            decreases self.errors.len() - k,
        {
            let ghost before = errors@;
            let e = self.errors[k].copy();
            errors.push(e);
            assert(errors_view(errors@) =~= errors_view(before).push(e@));
            assert(self.errors@.take(k + 1) =~= self.errors@.take(k as int).push(self.errors@[k as int]));
            assert(errors_view(self.errors@.take(k + 1)) =~= errors_view(self.errors@.take(k as int)).push(self.errors@[k as int]@));
            k = k + 1;
        }
        assert(self.errors@.take(self.errors.len() as int) =~= self.errors@);
        DeviceInfo {
            path: self.path.clone(),
            size_bytes: self.size_bytes,
            sectors: self.sectors,
            last_position: self.last_position,
            errors,
            reported_errors: self.reported_errors,
            patrol_start: self.patrol_start,
            serial: self.serial.clone(),
            wwid: self.wwid.clone(),
            eui: self.eui.clone(),
            uniq: self.uniq.clone(),
        }
    }

    /// Records a successful read that ends at `new_position`: the patrol
    /// continues there, or, where that is the end of a device of
    /// `device_size` bytes, starts a new cycle at the beginning at time
    /// `now`. Returns whether the cycle was completed.
    pub fn record_read(&mut self, new_position: u64, device_size: u64, now: u64) -> (done: bool)
        ensures
            done == (new_position >= device_size),
            final(self)@ == read_recorded(old(self)@, new_position, device_size, now),
    {
        self.last_position = new_position;
        if self.last_position >= device_size {
            self.last_position = 0;
            self.patrol_start = now;
            true
        } else {
            false
        }
    }

    /// Records a failed read of `read_size` bytes at `read_position`, found
    /// at time `now` with the message `message`; the patrol still moves on
    /// past the failed chunk.
    pub fn record_read_error(&mut self, now: u64, read_position: u64, message: String, read_size: u64)
        requires
            old(self).last_position + read_size <= u64::MAX,
        ensures
            final(self)@ == error_recorded(old(self)@, now, read_position, message@, read_size),
    {
        let ghost before = self.errors@;
        let e = PatrolError { timestamp: now, sector: read_position / SECTOR_SIZE, error: message };
        self.errors.push(e);
        assert(errors_view(self.errors@) =~= errors_view(before).push(e@));
        self.last_position = self.last_position + read_size;
    }

    /// The `count` newest errors, newest first.
    pub fn recent_errors(&self, count: usize) -> (r: Vec<PatrolError>)
        ensures
            errors_view(r@) == newest_errors(self@.errors, count as nat),
    {
        let n = self.errors.len();
        let mut r: Vec<PatrolError> = Vec::new();
        let mut k: usize = 0;
        while k < count && k < n
            invariant
                n == self.errors.len(),
                k <= n,
                k <= count,
                errors_view(r@) == newest_errors(self@.errors, k as nat),
            decreases n - k,
        {
            let ghost before = r@;
            let e = self.errors[n - 1 - k].copy();
            assert(e@ == self@.errors[n - 1 - k]);
            r.push(e);
            assert(errors_view(r@) =~= errors_view(before).push(e@));
            assert(errors_view(r@) =~= newest_errors(self@.errors, (k + 1) as nat));
            k = k + 1;
        }
        assert(newest_errors(self@.errors, k as nat) =~= newest_errors(self@.errors, count as nat));
        r
    }

    /// Takes an alert where the errors not yet reported have reached
    /// `threshold`: all errors then count as reported, and the alert holds
    /// their number and the newest of them.
    pub fn take_alert(&mut self, threshold: usize) -> (r: Option<ErrorAlert>)
        requires
            old(self).reported_errors <= old(self).errors.len(),
        ensures
            alert_due(old(self)@, threshold) ==> (r matches Some(a) && a.total_errors
                == old(self).errors.len() && errors_view(a.recent@) == newest_errors(
                old(self)@.errors,
                ALERT_RECENT_ERRORS as nat,
            ) && final(self)@ == (DeviceInfoView {
                reported_errors: old(self).errors.len(),
                ..old(self)@
            })),
            !alert_due(old(self)@, threshold) ==> r is None && final(self)@ == old(self)@,
    {
        if self.errors.len() - self.reported_errors >= threshold {
            self.reported_errors = self.errors.len();
            Some(
                ErrorAlert {
                    total_errors: self.errors.len(),
                    recent: self.recent_errors(ALERT_RECENT_ERRORS),
                },
            )
        } else {
            None
        }
    }
}

/// The name a device has under `/sys/block`: its path without a leading
/// `/dev/`.
pub open spec fn sysfs_device_name(device: Seq<char>) -> Seq<char> {
    let prefix = "/dev/"@;
    if device.len() >= prefix.len() && device.subrange(0, prefix.len() as int) == prefix {
        device.subrange(prefix.len() as int, device.len() as int)
    } else {
        device
    }
}

/// The files under `/sys/block` that hold the serial number, the WWID and
/// the EUI of `device`.
pub fn identity_files(device: &str) -> (r: (String, String, String))
    ensures
        r.0@ == "/sys/block/"@ + sysfs_device_name(device@) + "/device/serial"@,
        r.1@ == "/sys/block/"@ + sysfs_device_name(device@) + "/device/wwid"@,
        r.2@ == "/sys/block/"@ + sysfs_device_name(device@) + "/eui"@,
{
    let chars = chars_of(device);
    let prefix = chars_of("/dev/");
    let mut starts = chars.len() >= prefix.len();
    let mut k: usize = 0;
    while starts && k < prefix.len()
        invariant
            starts ==> chars.len() >= prefix.len(),
            k <= prefix.len(),
            starts ==> forall|m: int| 0 <= m < k ==> chars@[m] == prefix@[m],
            !starts ==> !(chars@.len() >= prefix@.len() && chars@.subrange(0, prefix@.len() as int)
                == prefix@),
        decreases prefix.len() - k + if starts {
            1int
        } else {
            0int
        },
    {
        if chars[k] != prefix[k] {
            assert(chars@.subrange(0, prefix@.len() as int)[k as int] != prefix@[k as int]);
            starts = false;
        } else {
            k = k + 1;
        }
    }
    let name = if starts {
        assert(chars@.subrange(0, prefix@.len() as int) =~= prefix@);
        string_of(&crate::text::slice_chars(&chars, prefix.len(), chars.len()))
    } else {
        string_of(&chars)
    };
    let mut base = "/sys/block/".to_owned();
    base.append(name.as_str());
    let mut serial = base.clone();
    serial.append("/device/serial");
    let mut wwid = base.clone();
    wwid.append("/device/wwid");
    let mut eui = base;
    eui.append("/eui");
    (serial, wwid, eui)
}

} // verus!
