//! Trusted wrappers around the host platform: directory resolution, the
//! local clock's rendering of timestamps, text recovered from raw bytes,
//! and the worker pool's width.  Each wrapper's contract states only what
//! the wrapped call's documentation promises of every outcome.

use vstd::prelude::*;

verus! {

/// Relies on dirs::cache_dir: the platform cache directory, if the host
/// environment defines one.
#[verifier::external_body]
pub(crate) fn platform_cache_dir() -> (r: Option<String>) {
    dirs::cache_dir().map(|p| p.to_string_lossy().into_owned())
}

/// Relies on dirs::home_dir: the user's home directory, if the host
/// environment defines one.
#[verifier::external_body]
pub(crate) fn platform_home_dir() -> (r: Option<String>) {
    dirs::home_dir().map(|p| p.to_string_lossy().into_owned())
}

/// Relies on chrono's DateTime::from_timestamp and the Local timezone:
/// renders seconds since the epoch as a local-time "YYYY-MM-DD HH:MM:SS"
/// string.  The result depends on the machine's timezone, so nothing is
/// promised of it; seconds outside chrono's representable range come back
/// as an empty string.
#[verifier::external_body]
pub(crate) fn format_local_timestamp(secs: u64) -> (r: String) {
    match i64::try_from(secs).ok().and_then(|s| chrono::DateTime::from_timestamp(s, 0)) {
        Some(t) => t.with_timezone(&chrono::Local).format("%Y-%m-%d %H:%M:%S").to_string(),
        None => String::new(),
    }
}

/// The text `String::from_utf8_lossy` recovers from a byte sequence; a
/// pure function of the bytes alone.
pub uninterp spec fn lossy_chars(bytes: Seq<u8>) -> Seq<char>;

/// Relies on String::from_utf8_lossy: the recovered text depends on the
/// bytes alone, and bytes that are all ASCII come back as exactly the
/// corresponding characters.
#[verifier::external_body]
pub(crate) fn bytes_to_string_lossy(bytes: &Vec<u8>) -> (r: String)
    ensures
        r@ == lossy_chars(bytes@),
        (forall|i: int| 0 <= i < bytes@.len() ==> bytes@[i] < 128) ==> (r@.len() == bytes@.len()
            && (forall|i: int| 0 <= i < bytes@.len() ==> r@[i] == bytes@[i] as char)),
{
    String::from_utf8_lossy(bytes.as_slice()).into_owned()
}

/// Relies on rayon::current_num_threads: the width of the current worker
/// pool, documented to be at least 1.
#[verifier::external_body]
pub(crate) fn worker_count() -> (r: usize)
    ensures
        r >= 1,
{
    rayon::current_num_threads()
}

} // verus!
