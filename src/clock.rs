//! The station's clock.

use vstd::prelude::*;

verus! {

/// The RFC 3339 text of a UTC instant given in whole seconds since the Unix
/// epoch, with the offset written `+00:00`.
pub uninterp spec fn rfc3339_text(seconds: int) -> Seq<char>;

/// A reading of the clock: whole seconds since the Unix epoch, and the same
/// instant as RFC 3339 text.
pub struct Instant {
    pub seconds: u64,
    pub text: String,
}

/// Relies on std's `SystemTime::now` and `duration_since(UNIX_EPOCH)`, which
/// fails on a clock set before the Unix epoch, and on chrono's
/// `DateTime::from_timestamp`, which fails outside chrono's range, and
/// `DateTime::to_rfc3339_opts` with whole seconds. Gives nothing when either
/// fails; the instant itself is whatever the clock says.
#[verifier::external_body]
pub(crate) fn utc_now() -> (r: Option<Instant>)
    ensures
        r matches Some(i) ==> i.text@ == rfc3339_text(i.seconds as int),
{
    let elapsed = std::time::SystemTime::now().duration_since(std::time::UNIX_EPOCH).ok()?;
    let seconds = elapsed.as_secs();
    let time = chrono::DateTime::from_timestamp(i64::try_from(seconds).ok()?, 0)?;
    Some(Instant { seconds, text: time.to_rfc3339_opts(chrono::SecondsFormat::Secs, false) })
}

} // verus!
