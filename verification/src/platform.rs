//! Plain-value surface of the platform layer: diagnostic error codes, the
//! validity of object names in the platform's native string encoding, and
//! saturation of timeouts to the 32-bit millisecond precision of native wait
//! calls.

use vstd::prelude::*;
use vstd::string::StringSliceAdditionalSpecFns;

verus! {

/// Largest timeout, in milliseconds, that a native wait call can represent
/// (about 49.7 days); longer durations saturate to this ceiling.
pub const MAX_TIMEOUT_MS: u32 = 0xFFFF_FFFF;

/// A diagnostic error code reported by a platform layer alongside a failure.
/// The in-process primitives never produce one themselves; the error variants
/// that carry it exist so that a platform realization can report its causes
/// through the same types.
#[derive(Clone, Copy, Debug, PartialEq, Eq, Structural)]
pub struct OsError {
    /// The platform's raw error code.
    pub code: i32,
}

/// Holds when no byte of `bytes` is a string terminator.
pub open spec fn bytes_have_no_terminator(bytes: Seq<u8>) -> bool {
    forall|i: int| 0 <= i < bytes.len() ==> bytes[i] != 0
}

/// An object name can be handed to a platform's native calls only if no byte
/// of its encoding is a string terminator. An absent or empty name always
/// can: it means "unnamed".
pub open spec fn name_valid(name: Option<&str>) -> bool {
    match name {
        None => true,
        Some(s) => bytes_have_no_terminator(s.spec_bytes()),
    }
}

/// Decides whether `name` can be represented in the platform's native name
/// encoding, which terminates strings with a zero byte.
pub fn name_is_representable(name: Option<&str>) -> (ok: bool)
    ensures
        ok == name_valid(name),
{
    match name {
        None => true,
        Some(s) => {
            let bytes = s.as_bytes();
            let n = bytes.len();
            let mut i: usize = 0;
            while i < n
                invariant
                    name == Some(s),
                    n == bytes@.len(),
                    bytes@ == s.spec_bytes(),
                    i <= n,
                    forall|j: int| 0 <= j < i ==> bytes@[j] != 0,
                decreases n - i,
            {
                if bytes[i] == 0 {
                    proof {
                        assert(!bytes_have_no_terminator(s.spec_bytes()));
                    }
                    return false;
                }
                i += 1;
            }
            true
        },
    }
}

/// The number of whole milliseconds in a duration of `secs` seconds plus
/// `nanos` nanoseconds, saturated at [`MAX_TIMEOUT_MS`].
pub open spec fn spec_timeout_millis(secs: u64, nanos: u32) -> u32 {
    let total = secs * 1000 + nanos / 1_000_000;
    if total > MAX_TIMEOUT_MS {
        MAX_TIMEOUT_MS
    } else {
        total as u32
    }
}

/// Converts a duration, split into whole seconds and the sub-second
/// nanoseconds, to the milliseconds of a native wait call, saturating at
/// [`MAX_TIMEOUT_MS`].
pub fn timeout_millis(secs: u64, nanos: u32) -> (ms: u32)
    ensures
        ms == spec_timeout_millis(secs, nanos),
{
    let total: u128 = (secs as u128) * 1000 + ((nanos / 1_000_000) as u128);
    if total > MAX_TIMEOUT_MS as u128 {
        MAX_TIMEOUT_MS
    } else {
        total as u32
    }
}

} // verus!
