//! When and where the patrol reads: the starting position of each device,
//! the interval that spreads a device's reads over the patrol period, and
//! the random jitter that spreads the reads of several devices.

use vstd::prelude::*;
use rand::Rng;
use rand::rngs::SmallRng;
use crate::config::SECTOR_SIZE;
use crate::text::{chars_of, parse_unsigned, parse_unsigned_spec, IntErrorKind};

verus! {

/// Makes `rand::rngs::SmallRng` known to the verifier, as an opaque type.
#[verifier::external_type_specification]
#[verifier::external_body]
pub struct ExSmallRng(SmallRng);

/// Calls `Rng::gen_range(0..=max)` on a `SmallRng`: a random number
/// between 0 and `max`, both included (the range is never empty, so the
/// call does not panic).
#[verifier::external_body]
fn random_up_to(rng: &mut SmallRng, max: u64) -> (r: u64)
    ensures
        r <= max,
{
    rng.gen_range(0..=max)
}

/// Where the patrol of a device of `size_bytes` resumes when asked to seek
/// `seek` percent into it: the later of its saved position and the start
/// of the read chunk `seek` percent of the way in.
pub open spec fn resume_position_spec(size_bytes: u64, read_size: u64, seek: u8, last_position: u64) -> nat {
    let chunk = ((seek as nat * (size_bytes as nat / read_size as nat)) / 100) * read_size as nat;
    if last_position as nat >= chunk {
        last_position as nat
    } else {
        chunk
    }
}

/// Whether the resume position of a device can be computed in 64 bits: the
/// read size is not zero and no step of the computation overflows.
pub open spec fn resume_position_defined(size_bytes: u64, read_size: u64, seek: u8) -> bool {
    &&& read_size > 0
    &&& seek as nat * (size_bytes as nat / read_size as nat) <= u64::MAX
    &&& ((seek as nat * (size_bytes as nat / read_size as nat)) / 100) * read_size as nat
        <= u64::MAX
}

/// The position a device's patrol resumes at (see
/// [`resume_position_spec`]); `None` where it cannot be computed in 64 bits.
pub fn resume_position(size_bytes: u64, read_size: u64, seek: u8, last_position: u64) -> (r: Option<u64>)
    ensures
        resume_position_defined(size_bytes, read_size, seek) ==> r == Some(
            resume_position_spec(size_bytes, read_size, seek, last_position) as u64,
        ),
        !resume_position_defined(size_bytes, read_size, seek) ==> r is None,
{
    if read_size == 0 {
        return None;
    }
    let chunks = size_bytes / read_size;
    let scaled = match (seek as u64).checked_mul(chunks) {
        Some(n) => n,
        None => return None,
    };
    let chunk = scaled / 100;
    let start = match chunk.checked_mul(read_size) {
        Some(n) => n,
        None => return None,
    };
    if last_position >= start {
        Some(last_position)
    } else {
        Some(start)
    }
}

/// The number of reads of `read_size` bytes that cover a device of
/// `device_size` bytes.
pub open spec fn total_reads_spec(device_size: u64, read_size: u64) -> nat {
    ((device_size + read_size - 1) as nat) / (read_size as nat)
}

/// The patrol period in milliseconds.
pub open spec fn period_ms_spec(patrol_period_days: u64) -> nat {
    1000 * (patrol_period_days as nat * 24 * 3600)
}

/// The interval between reads, in milliseconds, that spreads all reads of a
/// device over the patrol period: the period divided by the number of
/// reads (at least one), and never below one millisecond.
pub open spec fn read_interval_spec(patrol_period_days: u64, device_size: u64, read_size: u64) -> nat {
    let reads = total_reads_spec(device_size, read_size);
    let q = period_ms_spec(patrol_period_days) / if reads >= 1 {
        reads
    } else {
        1
    };
    if q >= 1 {
        q
    } else {
        1
    }
}

/// Whether the interval between reads can be computed in 64 bits: the read
/// size is not zero and neither the rounded-up read count nor the period in
/// milliseconds overflows.
pub open spec fn read_interval_defined(patrol_period_days: u64, device_size: u64, read_size: u64) -> bool {
    &&& read_size > 0
    &&& device_size + read_size <= u64::MAX
    &&& period_ms_spec(patrol_period_days) <= u64::MAX
}

/// The number of reads that cover the device and the interval between
/// them (see [`read_interval_spec`]); `None` where they cannot be computed
/// in 64 bits.
pub fn read_interval(patrol_period_days: u64, device_size: u64, read_size: u64) -> (r: Option<(u64, u64)>)
    ensures
        read_interval_defined(patrol_period_days, device_size, read_size) ==> (r matches Some(p) && p.0 as nat
            == total_reads_spec(device_size, read_size) && p.1 as nat == read_interval_spec(
            patrol_period_days,
            device_size,
            read_size,
        )),
        !read_interval_defined(patrol_period_days, device_size, read_size) ==> r is None,
{
    if read_size == 0 {
        return None;
    }
    let seconds = match patrol_period_days.checked_mul(24 * 3600) {
        Some(n) => n,
        None => return None,
    };
    let period_ms = match seconds.checked_mul(1000) {
        Some(n) => n,
        None => return None,
    };
    let end = match device_size.checked_add(read_size) {
        Some(n) => n,
        None => return None,
    };
    let total_reads = (end - 1) / read_size;
    let reads = if total_reads >= 1 {
        total_reads
    } else {
        1
    };
    let q = period_ms / reads;
    let interval = if q >= 1 {
        q
    } else {
        1
    };
    Some((total_reads, interval))
}

/// The jitter split: the pre-read sleep is `pre`, the post-read sleep the
/// rest of the base interval after the whole jitter `total`, plus what of
/// the jitter `pre` did not take.
pub open spec fn jitter_split(base_interval_ms: u64, total: u64, pre: u64) -> (u64, u64) {
    let base_post = if base_interval_ms >= total {
        base_interval_ms - total
    } else {
        0
    };
    (pre, (base_post + (total - pre)) as u64)
}

/// Splits the interval into a random pre-read sleep and a post-read sleep:
/// a random jitter of at most `max_jitter_ms` is drawn, then a random share
/// of it goes before the read and the rest after.
pub fn calculate_jittered_timing(base_interval_ms: u64, max_jitter_ms: u64, rng: &mut SmallRng) -> (r: (
    u64,
    u64,
))
    ensures
        exists|total: u64, pre: u64|
            total <= max_jitter_ms && pre <= total && r == jitter_split(base_interval_ms, total, pre),
{
    let total_jitter = random_up_to(rng, max_jitter_ms);
    let pre_jitter = random_up_to(rng, total_jitter);
    let post_jitter = total_jitter - pre_jitter;
    let base_post_sleep = base_interval_ms.saturating_sub(total_jitter);
    assert(base_post_sleep + post_jitter <= u64::MAX);
    let r = (pre_jitter, base_post_sleep + post_jitter);
    assert(r == jitter_split(base_interval_ms, total_jitter, pre_jitter));
    r
}

/// The sleeps around one read: jittered where jitter is on, else none
/// before and the whole interval after.
pub fn read_sleeps(enable_jitter: bool, interval_ms: u64, max_jitter_ms: u64, rng: &mut SmallRng) -> (r: (u64, u64))
    ensures
        enable_jitter ==> exists|total: u64, pre: u64|
            total <= max_jitter_ms && pre <= total && r == jitter_split(interval_ms, total, pre),
        !enable_jitter ==> r == (0u64, interval_ms),
{
    if enable_jitter {
        calculate_jittered_timing(interval_ms, max_jitter_ms, rng)
    } else {
        (0, interval_ms)
    }
}

/// How long one read's step takes in all: the two sleeps where jitter is
/// on, else the interval.
pub fn step_duration(enable_jitter: bool, pre_ms: u64, post_ms: u64, interval_ms: u64) -> (r: u64)
    requires
        enable_jitter ==> pre_ms + post_ms <= u64::MAX,
    ensures
        r == if enable_jitter {
            (pre_ms + post_ms) as u64
        } else {
            interval_ms
        },
{
    if enable_jitter {
        pre_ms + post_ms
    } else {
        interval_ms
    }
}

/// How long to sleep after a read so that the step lasts `target_ms` when
/// `elapsed_ms` have passed: the rest, or nothing once the step has run
/// over.
pub fn remaining_sleep(target_ms: u64, elapsed_ms: u64) -> (r: u64)
    ensures
        r == if elapsed_ms < target_ms {
            (target_ms - elapsed_ms) as u64
        } else {
            0
        },
{
    if elapsed_ms < target_ms {
        target_ms - elapsed_ms
    } else {
        0
    }
}

/// The first and last sector of a read of `read_size` bytes at `position`.
pub fn read_sectors(position: u64, read_size: u64) -> (r: (u64, u64))
    requires
        1 <= position + read_size <= u64::MAX,
    ensures
        r.0 == position / SECTOR_SIZE,
        r.1 == ((position + read_size - 1) as u64) / SECTOR_SIZE,
{
    (position / SECTOR_SIZE, (position + read_size - 1) / SECTOR_SIZE)
}

/// Parses the percentage to seek into each device, a number from 0 to 255
/// (whether it is below 100 is the caller's check).
pub fn parse_seek(s: &str) -> (r: Result<u8, IntErrorKind>)
    ensures
        match parse_unsigned_spec(s@, u8::MAX as nat) {
            Ok(n) => r == Ok::<u8, IntErrorKind>(n as u8),
            Err(k) => r == Err::<u8, IntErrorKind>(k),
        },
{
    match parse_unsigned(&chars_of(s), 255) {
        Ok(n) => Ok(n as u8),
        Err(k) => Err(k),
    }
}

} // verus!
