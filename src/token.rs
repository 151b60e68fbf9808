//! The tracker's access token and when to refresh it.

use vstd::prelude::*;

verus! {

/// An installation access token and its expiry time, in RFC 3339.
#[derive(Debug, Default)]
pub struct AccessToken {
    pub token: String,
    pub expires_at: String,
}

/// The Unix time, in seconds, of an RFC 3339 date-time; `None` where the
/// text does not parse.
pub uninterp spec fn rfc3339_timestamp(s: Seq<char>) -> Option<i64>;

/// Relies on chrono's `FromStr` for `DateTime<Utc>` (a relaxed RFC 3339
/// parser) and `DateTime::timestamp`: the seconds since the Unix epoch.
/// Both depend on the text alone.
#[verifier::external_body]
fn parse_timestamp(s: &str) -> (r: Option<i64>)
    ensures
        r == rfc3339_timestamp(s@),
{
    s.parse::<chrono::DateTime<chrono::Utc>>().ok().map(|d| d.timestamp())
}

/// Relies on chrono's `Utc::now` and `DateTime::timestamp`: the current
/// Unix time in seconds, of which nothing is promised here.
#[verifier::external_body]
fn now_timestamp() -> (r: i64) {
    chrono::Utc::now().timestamp()
}

/// A token is refreshed when it expires in 30 seconds or less.
pub open spec fn refresh_due(expires: i64, now: i64) -> bool {
    expires - now <= 30
}

impl AccessToken {
    /// The expiry time in Unix seconds.
    pub fn get_expiration_timestamp(&self) -> (r: Option<i64>)
        ensures
            r == rfc3339_timestamp(self.expires_at@),
    {
        parse_timestamp(self.expires_at.as_str())
    }
}

/// Whether a token expiring at `expires` is refreshed at time `now`.
pub fn should_refresh(expires: i64, now: i64) -> (r: bool)
    ensures
        r == refresh_due(expires, now),
{
    (expires as i128) - (now as i128) <= 30
}

/// Whether `token` is refreshed at time `now`; `None` where its expiry
/// time does not parse.
pub fn token_refresh_due(token: &AccessToken, now: i64) -> (r: Option<bool>)
    ensures
        r == (match rfc3339_timestamp(token.expires_at@) {
            Some(t) => Some(refresh_due(t, now)),
            None => None,
        }),
{
    match token.get_expiration_timestamp() {
        Some(t) => Some(should_refresh(t, now)),
        None => None,
    }
}

/// Whether `token` is refreshed now, by the system clock; `None` where its
/// expiry time does not parse.
pub fn should_refresh_access_token(token: &AccessToken) -> (r: Option<bool>)
    ensures
        r is None <==> rfc3339_timestamp(token.expires_at@) is None,
{
    let now = now_timestamp();
    token_refresh_due(token, now)
}

} // verus!
