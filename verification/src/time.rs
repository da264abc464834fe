use vstd::prelude::*;

verus! {

/// A moment of the wall clock: seconds since the start of 1970, and the
/// nanoseconds within the second.
#[derive(Clone, Copy, Debug, PartialEq, Eq)]
pub struct Timestamp {
    pub secs: i64,
    pub nanos: u32,
}

/// Reads the local wall clock with `chrono::Local::now` (and `timestamp`,
/// `timestamp_subsec_nanos` to take the moment apart). Trusted, and nothing
/// is claimed of the moment that comes back.
#[verifier::external_body]
pub(crate) fn local_now() -> (r: Timestamp) {
    let now = chrono::Local::now();
    Timestamp { secs: now.timestamp(), nanos: now.timestamp_subsec_nanos() }
}

} // verus!
