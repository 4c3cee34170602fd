//! Wall-clock timestamps rendered as text.

use vstd::prelude::*;

verus! {

/// Relies on chrono's `DateTime::from_timestamp` and `to_rfc3339`: the
/// current wall-clock instant rendered as an RFC 3339 timestamp. The epoch
/// offset is read from std's `SystemTime`, taken as zero for a clock set
/// before the epoch, and an instant chrono cannot represent renders as the
/// empty string, so no clock value can panic here. The result depends on
/// the moment of the call, so nothing is promised of it.
#[verifier::external_body]
pub(crate) fn now_rfc3339() -> String {
    let offset = std::time::SystemTime::now()
        .duration_since(std::time::UNIX_EPOCH)
        .unwrap_or(std::time::Duration::ZERO);
    let secs = i64::try_from(offset.as_secs()).unwrap_or(0);
    match chrono::DateTime::from_timestamp(secs, offset.subsec_nanos()) {
        Some(instant) => instant.to_rfc3339(),
        None => String::new(),
    }
}

} // verus!
