//! The checks that run ahead of the protected operations: the login
//! decision, and the admission of a request that presents a bearer token.

use crate::auth::{issued_claims, AuthService, Claims};
use crate::clock::{secs_of, secs_of_millis, unix_time_millis};
use crate::config::{credentials_valid, ConfigService};
use crate::error::AppError;
use crate::ip_ban::{
    after_ban_check,
    ban_active,
    ban_key,
    failure_step,
    record_in,
    remaining_seconds,
    with_record,
    failures_from,
    lemma_banned_within_window,
    within_one_window,
    BAN_DURATION_MS,
    BAN_THRESHOLD,
    FAILURE_WINDOW_MS,
    FailureRecord,
    IpBanService,
};
use crate::models::LoginRequest;
use crate::net::IpAddress;
use crate::text::{decimal_text, i64_to_decimal, joined, owned};
use vstd::prelude::*;

verus! {

/// The advice given to a banned source with `secs` seconds of ban left.
pub open spec fn retry_message(secs: i64) -> Seq<char> {
    "Too many failed login attempts. Please try again in "@ + decimal_text(secs as int)
        + " seconds."@
}

/// The seconds of an active ban.
pub open spec fn ban_seconds(r: Option<i64>) -> i64 {
    match r {
        Some(secs) => secs,
        None => 0,
    }
}

/// The token of an `Authorization` value of the form `Bearer <token>`.
pub open spec fn bearer_token(value: Seq<char>) -> Option<Seq<char>> {
    if value.len() >= 7 && value.take(7) == "Bearer "@ {
        Some(value.skip(7))
    } else {
        None
    }
}

/// The outcome of a login from `client_ip` at `now_ms`: a banned source is turned away, with the seconds its ban has
/// left, and neither its record nor the account is consulted further;
/// valid credentials clear the source's record and are issued claims;
/// anything else counts as one more failure of the source.
pub open spec fn login_outcome(
    guard_before: Map<IpAddress, FailureRecord>,
    guard_after: Map<IpAddress, FailureRecord>,
    config: ConfigService,
    client_ip: IpAddress,
    request: LoginRequest,
    now_ms: i64,
    r: Result<Claims, AppError>,
) -> bool {
    let key = ban_key(client_ip);
    let rec = record_in(guard_before, key);
    let checked = with_record(guard_before, key, after_ban_check(rec, now_ms));
    if ban_active(rec, now_ms) {
        &&& r matches Err(AppError::TooManyRequests(m)) && m@ == retry_message(
            ban_seconds(remaining_seconds(rec, now_ms)),
        )
        &&& ban_seconds(remaining_seconds(rec, now_ms)) > 0
        &&& guard_after == checked
    } else if credentials_valid(config.spec_config().info, request.username@, request.password@) {
        &&& r matches Ok(c) && issued_claims(c, request.username@, secs_of(now_ms))
        &&& guard_after == with_record(checked, key, None)
    } else {
        &&& r matches Err(AppError::Unauthorized)
        &&& guard_after == with_record(
            checked,
            key,
            Some(failure_step(record_in(checked, key), now_ms)),
        )
    }
}

/// A source whose record is what failures at `times` left, at least
/// `BAN_THRESHOLD` of them within one window, is refused at any later login
/// in that window, with a positive number of seconds to wait, whatever its
/// credentials; its record stays as it was.
pub proof fn lemma_login_refused_after_threshold(
    guard_before: Map<IpAddress, FailureRecord>,
    guard_after: Map<IpAddress, FailureRecord>,
    config: ConfigService,
    client_ip: IpAddress,
    request: LoginRequest,
    times: Seq<i64>,
    now_ms: i64,
    r: Result<Claims, AppError>,
)
    requires
        record_in(guard_before, ban_key(client_ip)) == failures_from(None, times),
        times.len() >= BAN_THRESHOLD,
        within_one_window(times),
        times[0] <= times[BAN_THRESHOLD - 1] <= now_ms <= times[0] + FAILURE_WINDOW_MS,
        times[BAN_THRESHOLD - 1] <= i64::MAX - BAN_DURATION_MS,
        login_outcome(guard_before, guard_after, config, client_ip, request, now_ms, r),
    ensures
        r matches Err(AppError::TooManyRequests(m)) && m@ == retry_message(
            ban_seconds(remaining_seconds(record_in(guard_before, ban_key(client_ip)), now_ms)),
        ),
        ban_seconds(remaining_seconds(record_in(guard_before, ban_key(client_ip)), now_ms)) > 0,
        guard_after == guard_before,
{
    lemma_banned_within_window(times, now_ms);
    let key = ban_key(client_ip);
    assert(guard_before.contains_key(key));
    assert(guard_before.insert(key, guard_before[key]) =~= guard_before);
}

/// The refusal of a banned source with `secs` seconds of ban left.
fn too_many_requests(secs: i64) -> (r: AppError)
    ensures
        r matches AppError::TooManyRequests(m) && m@ == retry_message(secs),
{
    let digits = i64_to_decimal(secs);
    let head = joined("Too many failed login attempts. Please try again in ", digits.as_str());
    AppError::TooManyRequests(joined(head.as_str(), " seconds."))
}

/// The outcome of checking the ban of `client_ip` at `now_ms`: an expired
/// ban is cleared; an active one turns the request away with the seconds it
/// has left, which are positive.
pub open spec fn ban_check_outcome(
    guard_before: Map<IpAddress, FailureRecord>,
    guard_after: Map<IpAddress, FailureRecord>,
    client_ip: IpAddress,
    now_ms: i64,
    r: Result<(), AppError>,
) -> bool {
    let key = ban_key(client_ip);
    let rec = record_in(guard_before, key);
    &&& guard_after == with_record(guard_before, key, after_ban_check(rec, now_ms))
    &&& if ban_active(rec, now_ms) {
        &&& r matches Err(AppError::TooManyRequests(m)) && m@ == retry_message(
            ban_seconds(remaining_seconds(rec, now_ms)),
        )
        &&& ban_seconds(remaining_seconds(rec, now_ms)) > 0
    } else {
        r is Ok
    }
}

/// The outcome of settling a login of `username` from `client_ip` once its
/// credentials were found valid or not, at `now_ms`: success clears the
/// source's record and issues claims; failure counts against the source.
pub open spec fn settle_outcome(
    guard_before: Map<IpAddress, FailureRecord>,
    guard_after: Map<IpAddress, FailureRecord>,
    client_ip: IpAddress,
    username: Seq<char>,
    credentials_ok: bool,
    now_ms: i64,
    r: Result<Claims, AppError>,
) -> bool {
    let key = ban_key(client_ip);
    if credentials_ok {
        &&& r matches Ok(c) && issued_claims(c, username, secs_of(now_ms))
        &&& guard_after == with_record(guard_before, key, None)
    } else {
        &&& r matches Err(AppError::Unauthorized)
        &&& guard_after == with_record(
            guard_before,
            key,
            Some(failure_step(record_in(guard_before, key), now_ms)),
        )
    }
}

/// Checks the ban of `client_ip` at `now_ms`; see [`ban_check_outcome`].
pub fn check_ban_at(guard: &mut IpBanService, client_ip: &IpAddress, now_ms: i64) -> (r: Result<(), AppError>)
    ensures
        ban_check_outcome(old(guard)@, final(guard)@, *client_ip, now_ms, r),
{
    let ghost key = ban_key(*client_ip);
    let ghost rec = record_in(guard@, key);
    if guard.is_banned_at(client_ip, now_ms) {
        assert(record_in(guard@, key) == rec);
        match guard.get_ban_remaining_seconds_at(client_ip, now_ms) {
            Some(secs) => {
                return Err(too_many_requests(secs));
            },
            None => {},
        }
    }
    Ok(())
}

/// Settles a login of `username` from `client_ip` whose credentials were
/// checked; see [`settle_outcome`].
pub fn settle_login_at(
    guard: &mut IpBanService,
    auth: &AuthService,
    client_ip: &IpAddress,
    username: &str,
    credentials_ok: bool,
    now_ms: i64,
) -> (r: Result<Claims, AppError>)
    ensures
        settle_outcome(old(guard)@, final(guard)@, *client_ip, username@, credentials_ok, now_ms, r),
{
    if credentials_ok {
        guard.record_success(client_ip);
        Ok(auth.issue_claims_at(username, secs_of_millis(now_ms)))
    } else {
        guard.record_failure_at(client_ip, now_ms);
        Err(AppError::Unauthorized)
    }
}

/// Checks the ban of `client_ip` now; see [`ban_check_outcome`].
pub fn check_ban(guard: &mut IpBanService, client_ip: &IpAddress) -> (r: Result<(), AppError>)
    ensures
        exists|now_ms: i64| ban_check_outcome(old(guard)@, final(guard)@, *client_ip, now_ms, r),
{
    let now_ms = unix_time_millis();
    check_ban_at(guard, client_ip, now_ms)
}

/// Settles a checked login of `username` from `client_ip` now; see
/// [`settle_outcome`].
pub fn settle_login(
    guard: &mut IpBanService,
    auth: &AuthService,
    client_ip: &IpAddress,
    username: &str,
    credentials_ok: bool,
) -> (r: Result<Claims, AppError>)
    ensures
        exists|now_ms: i64|
            settle_outcome(old(guard)@, final(guard)@, *client_ip, username@, credentials_ok, now_ms, r),
{
    let now_ms = unix_time_millis();
    settle_login_at(guard, auth, client_ip, username, credentials_ok, now_ms)
}

/// Decides a login attempt from `client_ip` at `now_ms`: the ban check, then the credentials (only
/// for a source that is not banned), then the settlement.
pub fn login_at(
    guard: &mut IpBanService,
    config: &ConfigService,
    auth: &AuthService,
    client_ip: &IpAddress,
    request: &LoginRequest,
    now_ms: i64,
) -> (r: Result<Claims, AppError>)
    ensures
        login_outcome(old(guard)@, final(guard)@, *config, *client_ip, *request, now_ms, r),
{
    match check_ban_at(guard, client_ip, now_ms) {
        Err(e) => {
            return Err(e);
        },
        Ok(()) => {},
    }
    let credentials_ok = config.verify_user(request.username.as_str(), request.password.as_str());
    settle_login_at(guard, auth, client_ip, request.username.as_str(), credentials_ok, now_ms)
}

/// Decides a login attempt from `client_ip` now; see [`login_at`].
pub fn login(
    guard: &mut IpBanService,
    config: &ConfigService,
    auth: &AuthService,
    client_ip: &IpAddress,
    request: &LoginRequest,
) -> (r: Result<Claims, AppError>)
    ensures
        exists|now_ms: i64|
            login_outcome(old(guard)@, final(guard)@, *config, *client_ip, *request, now_ms, r),
{
    let now_ms = unix_time_millis();
    login_at(guard, config, auth, client_ip, request, now_ms)
}

/// The token of an `Authorization` header value, where it has the form
/// `Bearer <token>`.
pub fn extract_token(authorization: &str) -> (r: Option<String>)
    ensures
        match r {
            Some(t) => bearer_token(authorization@) == Some(t@),
            None => bearer_token(authorization@) is None,
        },
{
    let prefix = "Bearer ";
    proof {
        reveal_strlit("Bearer ");
    }
    let n = authorization.unicode_len();
    if n < 7 {
        return None;
    }
    let mut i: usize = 0;
    while i < 7
        invariant
            i <= 7 <= n,
            n == authorization@.len(),
            prefix@ == "Bearer "@,
            prefix@.len() == 7,
            forall|j: int| 0 <= j < i ==> authorization@[j] == prefix@[j],
        decreases 7 - i,
    {
        if authorization.get_char(i) != prefix.get_char(i) {
            assert(authorization@.take(7)[i as int] != "Bearer "@[i as int]);
            return None;
        }
        i = i + 1;
    }
    assert(authorization@.take(7) =~= "Bearer "@);
    Some(owned(authorization.substring_char(7, n)))
}

/// The outcome of admitting a request from `client_ip` at `now_ms` that
/// presents the `Authorization` value `authorization`: a banned source is
/// turned away; otherwise the bearer token is handed on for decoding, and a
/// request without one is unauthorized. Only the check of the ban touches
/// the guard.
pub open spec fn admission_outcome(
    guard_before: Map<IpAddress, FailureRecord>,
    guard_after: Map<IpAddress, FailureRecord>,
    client_ip: IpAddress,
    authorization: Option<Seq<char>>,
    now_ms: i64,
    r: Result<String, AppError>,
) -> bool {
    let key = ban_key(client_ip);
    let rec = record_in(guard_before, key);
    &&& guard_after == with_record(guard_before, key, after_ban_check(rec, now_ms))
    &&& if ban_active(rec, now_ms) {
        r matches Err(AppError::TooManyRequests(m)) && m@ == retry_message(
            ban_seconds(remaining_seconds(rec, now_ms)),
        )
    } else {
        match authorization {
            Some(value) => match bearer_token(value) {
                Some(t) => r matches Ok(s) && s@ == t,
                None => r matches Err(AppError::Unauthorized),
            },
            None => r matches Err(AppError::Unauthorized),
        }
    }
}

/// The text of an optional header value.
pub open spec fn header_text(value: Option<&str>) -> Option<Seq<char>> {
    match value {
        Some(v) => Some(v@),
        None => None,
    }
}

/// Admits a request from `client_ip` at `now_ms`; see
/// [`admission_outcome`].
pub fn admit_request_at(
    guard: &mut IpBanService,
    client_ip: &IpAddress,
    authorization: Option<&str>,
    now_ms: i64,
) -> (r: Result<String, AppError>)
    ensures
        admission_outcome(old(guard)@, final(guard)@, *client_ip, header_text(authorization), now_ms, r),
{
    match check_ban_at(guard, client_ip, now_ms) {
        Err(e) => {
            return Err(e);
        },
        Ok(()) => {},
    }
    match authorization {
        Some(value) => match extract_token(value) {
            Some(token) => Ok(token),
            None => Err(AppError::Unauthorized),
        },
        None => Err(AppError::Unauthorized),
    }
}

/// Admits a request from `client_ip` now; see [`admission_outcome`].
pub fn admit_request(guard: &mut IpBanService, client_ip: &IpAddress, authorization: Option<&str>) -> (r: Result<String, AppError>)
    ensures
        exists|now_ms: i64|
            admission_outcome(old(guard)@, final(guard)@, *client_ip, header_text(authorization), now_ms, r),
{
    let now_ms = unix_time_millis();
    admit_request_at(guard, client_ip, authorization, now_ms)
}

} // verus!
