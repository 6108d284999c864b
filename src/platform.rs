//! Thin bridges to the clock, the random source and the platform's directories.
//! Each function here only makes its outside call and converts the result; what it
//! promises is what the called item documents, and nothing more.

use vstd::prelude::*;

verus! {

/// Nanoseconds in one second.
pub const NANOS_PER_SEC: u128 = 1_000_000_000;

/// Relies on `std::time::SystemTime::now`: the wall clock as nanoseconds since the Unix
/// epoch, a clock set before the epoch reading as zero. The value may move backwards
/// between calls; only its range is known, since a `Duration` holds at most `u64::MAX`
/// whole seconds.
#[verifier::external_body]
pub(crate) fn system_time_nanos() -> (r: u128)
    ensures
        r / NANOS_PER_SEC <= u64::MAX,
{
    std::time::SystemTime::now()
        .duration_since(std::time::UNIX_EPOCH)
        .unwrap_or_default()
        .as_nanos()
}

/// Relies on `uuid::Uuid::new_v4` and the hyphenated text form of a `Uuid`: a fresh
/// random identifier. Nothing is promised of its text.
#[verifier::external_body]
pub(crate) fn random_uuid_text() -> (r: String) {
    uuid::Uuid::new_v4().to_string()
}

/// Relies on `num_cpus::get`: the number of logical CPUs this process may use, which
/// its documentation promises to be at least one.
#[verifier::external_body]
pub(crate) fn available_cpus() -> (r: usize)
    ensures
        r >= 1,
{
    num_cpus::get()
}

/// Relies on chrono's conversion of a `SystemTime` into a UTC date-time and on
/// `DateTime::timestamp`: the current time in whole seconds since the Unix epoch.
#[verifier::external_body]
pub(crate) fn utc_timestamp_now() -> (r: i64) {
    chrono::DateTime::<chrono::Utc>::from(std::time::SystemTime::now()).timestamp()
}

/// Relies on `dirs::download_dir`: the user's download directory, when the platform
/// defines one.
#[verifier::external_body]
pub(crate) fn platform_download_dir() -> (r: Option<String>) {
    dirs::download_dir().map(|p| p.to_string_lossy().into_owned())
}

/// Relies on `dirs::home_dir`: the user's home directory, when it can be determined.
#[verifier::external_body]
pub(crate) fn platform_home_dir() -> (r: Option<String>) {
    dirs::home_dir().map(|p| p.to_string_lossy().into_owned())
}

} // verus!
