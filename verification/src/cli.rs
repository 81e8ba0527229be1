//! What the command line of the service says, as far as it is worked out.

use vstd::prelude::*;
use crate::text::parse_unsigned;
use crate::text::unsigned_of_text;

verus! {

/// The port on which the service listens unless another is given.
pub const DEFAULT_LISTEN_PORT: u16 = 1111;

/// The largest size of an uploaded file unless another is given: 2 GiB.
pub const DEFAULT_MAX_FILE_SIZE: u64 = 2147483648;

/// The lifespan of temporary files unless another is given, in seconds.
pub const DEFAULT_TEMPORARY_FILE_LIFESPAN_SECS: u64 = 60;

/// A number of seconds as a number of milliseconds, as far as 64 bits hold
/// it.
pub open spec fn millis_of(seconds: u64) -> u64 {
    if seconds * 1000 > u64::MAX {
        u64::MAX
    } else {
        (seconds * 1000) as u64
    }
}

/// Reads a duration given as a number of seconds.
pub fn parse_duration_sec(arg: &str) -> (r: Option<u64>)
    ensures
        r == unsigned_of_text(arg@, u64::MAX),
{
    parse_unsigned(arg, u64::MAX)
}

/// Turns a number of seconds into a number of milliseconds.
pub fn seconds_to_millis(seconds: u64) -> (r: u64)
    ensures
        r == millis_of(seconds),
{
    if seconds > u64::MAX / 1000 {
        u64::MAX
    } else {
        seconds * 1000
    }
}

} // verus!
