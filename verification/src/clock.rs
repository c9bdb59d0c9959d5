//! Wall-clock reads.
use vstd::prelude::*;

verus! {

/// Seconds since the Unix epoch, read from `SystemTime::now()`; 0 when the
/// clock stands before the epoch. Nothing is claimed of the value.
#[verifier::external_body]
pub fn epoch_seconds() -> u64 {
    std::time::SystemTime::now()
        .duration_since(std::time::UNIX_EPOCH)
        .map(|duration| duration.as_secs())
        .unwrap_or_default()
}

} // verus!
