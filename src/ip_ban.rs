//! Per-source accounting of failed logins, with a temporary ban once a
//! source fails too often within one window.
//!
//! Sources are aggregated by ban key: an IPv4 address stands for itself, an
//! IPv6 address for its /48 network. Times are milliseconds since the Unix
//! epoch. Expiry is lazy: an expired ban is cleared the next time it is
//! checked.

use crate::clock::unix_time_millis;
use crate::net::IpAddress;
use std::collections::HashMap;
use vstd::arithmetic::div_mod::lemma_fundamental_div_mod;
use vstd::prelude::*;

verus! {

/// Failures further apart than this (since the first of the window) start
/// a new window.
pub const FAILURE_WINDOW_MS: i64 = 3_600_000;

/// The failure count at which a source is banned.
pub const BAN_THRESHOLD: u32 = 5;

/// How long a ban lasts once triggered.
pub const BAN_DURATION_MS: i64 = 86_400_000;

/// 2^80: the part of an IPv6 address below its /48 network prefix.
pub const V6_NET48_SIZE: u128 = 0x1_0000_0000_0000_0000_0000;

/// What the guard remembers of one ban key.
#[derive(Clone, Copy, Debug, PartialEq, Eq, Structural)]
pub struct FailureRecord {
    pub count: u32,
    pub first_failure: i64,
    pub banned_until: Option<i64>,
}

/// The /48 network address of an IPv6 address: its low 80 bits cleared.
pub open spec fn network48(a: u128) -> u128 {
    (a - a % V6_NET48_SIZE) as u128
}

/// The ban key of an address: IPv4 as it is, IPv6 as its /48 network.
pub open spec fn ban_key(ip: IpAddress) -> IpAddress {
    match ip {
        IpAddress::V4(a) => IpAddress::V4(a),
        IpAddress::V6(a) => IpAddress::V6(network48(a)),
    }
}

/// The record kept for `key` in `m`, if any.
pub open spec fn record_in(m: Map<IpAddress, FailureRecord>, key: IpAddress) -> Option<FailureRecord> {
    if m.contains_key(key) {
        Some(m[key])
    } else {
        None
    }
}

/// When a ban triggered at `now` ends (the largest time, where that
/// would overflow).
pub open spec fn ban_end(now: i64) -> i64 {
    if now + BAN_DURATION_MS > i64::MAX {
        i64::MAX
    } else {
        (now + BAN_DURATION_MS) as i64
    }
}

/// A record that opens a new window at `now` with one failure.
pub open spec fn fresh_record(now: i64) -> FailureRecord {
    FailureRecord { count: 1, first_failure: now, banned_until: None }
}

/// The record after one more failure at `now`: a new window where there was
/// none or the window is over; otherwise one more failure, and a ban from
/// `now` where the count reaches the threshold and no ban is set yet.
pub open spec fn failure_step(r: Option<FailureRecord>, now: i64) -> FailureRecord {
    match r {
        None => fresh_record(now),
        Some(rec) => if now - rec.first_failure > FAILURE_WINDOW_MS {
            fresh_record(now)
        } else {
            let count: u32 = if rec.count == u32::MAX {
                u32::MAX
            } else {
                (rec.count + 1) as u32
            };
            FailureRecord {
                count,
                first_failure: rec.first_failure,
                banned_until: if count >= BAN_THRESHOLD && rec.banned_until is None {
                    Some(ban_end(now))
                } else {
                    rec.banned_until
                },
            }
        },
    }
}

/// Whether `r` holds a ban that has not expired at `now`.
pub open spec fn ban_active(r: Option<FailureRecord>, now: i64) -> bool {
    &&& r matches Some(rec)
    &&& rec.banned_until matches Some(until)
    &&& now < until
}

/// The record after a ban check at `now`: an expired ban is cleared together
/// with the failure count; anything else stays.
pub open spec fn after_ban_check(r: Option<FailureRecord>, now: i64) -> Option<FailureRecord> {
    match r {
        Some(rec) => match rec.banned_until {
            Some(until) => if now >= until {
                Some(FailureRecord { count: 0, first_failure: rec.first_failure, banned_until: None })
            } else {
                r
            },
            None => r,
        },
        None => None,
    }
}

/// Whole seconds until an active ban ends, rounded up; none without one.
pub open spec fn remaining_seconds(r: Option<FailureRecord>, now: i64) -> Option<i64> {
    match r {
        Some(rec) => match rec.banned_until {
            Some(until) => if now < until {
                Some(((until - now + 999) / 1000) as i64)
            } else {
                None
            },
            None => None,
        },
        None => None,
    }
}

/// `m` with the record of `key` set to `r`, or removed where `r` is none.
pub open spec fn with_record(
    m: Map<IpAddress, FailureRecord>,
    key: IpAddress,
    r: Option<FailureRecord>,
) -> Map<IpAddress, FailureRecord> {
    match r {
        Some(rec) => m.insert(key, rec),
        None => m.remove(key),
    }
}

/// The record left by failures at the times of `times`, one after another,
/// starting from `r`.
pub open spec fn failures_from(r: Option<FailureRecord>, times: Seq<i64>) -> Option<FailureRecord>
    decreases times.len(),
{
    if times.len() == 0 {
        r
    } else {
        Some(failure_step(failures_from(r, times.drop_last()), times.last()))
    }
}

/// Every time of `times` lies at most one failure window after the first.
pub open spec fn within_one_window(times: Seq<i64>) -> bool {
    forall|i: int| 0 <= i < times.len() ==> #[trigger] times[i] - times[0] <= FAILURE_WINDOW_MS
}

proof fn lemma_failures_in_window(times: Seq<i64>)
    requires
        times.len() > 0,
        within_one_window(times),
    ensures
        failures_from(None, times) == Some(
            FailureRecord {
                count: if times.len() >= u32::MAX {
                    u32::MAX
                } else {
                    times.len() as u32
                },
                first_failure: times[0],
                banned_until: if times.len() >= BAN_THRESHOLD {
                    Some(ban_end(times[BAN_THRESHOLD - 1]))
                } else {
                    None
                },
            },
        ),
    decreases times.len(),
{
    if times.len() > 1 {
        let prev = times.drop_last();
        assert(within_one_window(prev)) by {
            assert forall|i: int| 0 <= i < prev.len() implies #[trigger] prev[i] - prev[0] <= FAILURE_WINDOW_MS by {
                assert(prev[i] == times[i]);
            }
        }
        lemma_failures_in_window(prev);
        if prev.len() >= BAN_THRESHOLD {
            assert(prev[BAN_THRESHOLD - 1] == times[BAN_THRESHOLD - 1]);
        }
        assert(times.last() - times[0] <= FAILURE_WINDOW_MS);
    } else {
        assert(failures_from(None, times.drop_last()) == None::<FailureRecord>);
    }
}

/// Failures of one ban key, all within one failure window of the first and
/// starting from no record, trigger a ban exactly when there are at least
/// `BAN_THRESHOLD` of them: never earlier.
pub proof fn lemma_ban_exactly_at_threshold(times: Seq<i64>)
    requires
        times.len() > 0,
        within_one_window(times),
    ensures
        failures_from(None, times) matches Some(rec) && (rec.banned_until is Some <==> times.len()
            >= BAN_THRESHOLD),
{
    lemma_failures_in_window(times);
}

/// After at least `BAN_THRESHOLD` failures within one window (the ban
/// triggered no earlier than the first failure), the source is banned at
/// every time from the triggering failure to the end of that window; with
/// fewer failures it is banned at no time. Only a ban ending past the
/// largest time is left out, where its end is cut to that time.
pub proof fn lemma_banned_within_window(times: Seq<i64>, now: i64)
    requires
        times.len() > 0,
        within_one_window(times),
        times.len() >= BAN_THRESHOLD ==> {
            &&& times[0] <= times[BAN_THRESHOLD - 1] <= now
            &&& now <= times[0] + FAILURE_WINDOW_MS
            &&& times[BAN_THRESHOLD - 1] <= i64::MAX - BAN_DURATION_MS
        },
    ensures
        ban_active(failures_from(None, times), now) <==> times.len() >= BAN_THRESHOLD,
{
    lemma_failures_in_window(times);
}

/// A success removes the record of the ban key, whatever it held; the next
/// failure then starts a new window with a count of one.
pub proof fn lemma_success_clears_record(m: Map<IpAddress, FailureRecord>, ip: IpAddress, now: i64)
    ensures
        record_in(with_record(m, ban_key(ip), None), ban_key(ip)) is None,
        failure_step(record_in(with_record(m, ban_key(ip), None), ban_key(ip)), now) == fresh_record(
            now,
        ),
        fresh_record(now).count == 1,
{
}

/// A ban ending at `until` is active at every time before `until` and at
/// none from `until` on. The check that finds it expired clears it and
/// resets the failure count to zero; a check before then changes nothing.
pub proof fn lemma_ban_lasts_until_end(rec: FailureRecord, until: i64, now: i64)
    requires
        rec.banned_until == Some(until),
    ensures
        ban_active(Some(rec), now) <==> now < until,
        now < until ==> after_ban_check(Some(rec), now) == Some(rec),
        now >= until ==> after_ban_check(Some(rec), now) == Some(
            FailureRecord { count: 0, first_failure: rec.first_failure, banned_until: None },
        ),
{
}

/// A failure within the window while a ban is set leaves the ban's end
/// where it was.
pub proof fn lemma_ban_not_extended(rec: FailureRecord, until: i64, now: i64)
    requires
        rec.banned_until == Some(until),
        now - rec.first_failure <= FAILURE_WINDOW_MS,
    ensures
        failure_step(Some(rec), now).banned_until == Some(until),
{
}

/// Two IPv6 addresses share a ban key exactly when their first 48 bits are
/// equal: addresses that differ only after them are one source, with one
/// record in every state of the guard.
pub proof fn lemma_v6_ban_key_is_prefix48(a: u128, b: u128)
    ensures
        ban_key(IpAddress::V6(a)) == ban_key(IpAddress::V6(b)) <==> a / V6_NET48_SIZE == b
            / V6_NET48_SIZE,
        a / V6_NET48_SIZE == b / V6_NET48_SIZE ==> forall|m: Map<IpAddress, FailureRecord>|
            #[trigger] record_in(m, ban_key(IpAddress::V6(a))) == record_in(m, ban_key(IpAddress::V6(b))),
{
    let d = V6_NET48_SIZE as int;
    lemma_fundamental_div_mod(a as int, d);
    lemma_fundamental_div_mod(b as int, d);
    let qa = a as int / d;
    let qb = b as int / d;
    assert(network48(a) == d * qa);
    assert(network48(b) == d * qb);
    assert(d * qa == d * qb ==> qa == qb) by (nonlinear_arith)
        requires
            d > 0,
    ;
}

/// The failed-login accounting of all sources. Each operation holds for the
/// one ban key of the address it is given and leaves every other key alone.
pub struct IpBanService {
    v4: HashMap<u32, FailureRecord>,
    v6: HashMap<u128, FailureRecord>,
}

impl View for IpBanService {
    type V = Map<IpAddress, FailureRecord>;

    closed spec fn view(&self) -> Map<IpAddress, FailureRecord> {
        Map::new(
            |k: IpAddress|
                match k {
                    IpAddress::V4(a) => self.v4@.contains_key(a),
                    IpAddress::V6(a) => self.v6@.contains_key(a),
                },
            |k: IpAddress|
                match k {
                    IpAddress::V4(a) => self.v4@[a],
                    IpAddress::V6(a) => self.v6@[a],
                },
        )
    }
}

impl Default for IpBanService {
    fn default() -> (r: Self)
        ensures
            r@ == Map::<IpAddress, FailureRecord>::empty(),
    {
        Self::new()
    }
}

impl IpBanService {
    /// A guard that remembers no failures.
    pub fn new() -> (r: Self)
        ensures
            r@ == Map::<IpAddress, FailureRecord>::empty(),
    {
        let r = IpBanService { v4: HashMap::new(), v6: HashMap::new() };
        assert(r@ =~= Map::<IpAddress, FailureRecord>::empty());
        r
    }

    /// The ban key of `ip`: an IPv4 address itself, the /48 network of an
    /// IPv6 address.
    pub fn get_ban_key(ip: &IpAddress) -> (r: IpAddress)
        ensures
            r == ban_key(*ip),
    {
        match *ip {
            IpAddress::V4(a) => IpAddress::V4(a),
            IpAddress::V6(a) => IpAddress::V6(a - a % V6_NET48_SIZE),
        }
    }

    /// Whether `ip` is banned at `now`. A ban that has expired by `now` is
    /// cleared, and the failure count with it.
    pub fn is_banned_at(&mut self, ip: &IpAddress, now: i64) -> (r: bool)
        ensures
            r == ban_active(record_in(old(self)@, ban_key(*ip)), now),
            final(self)@ == with_record(
                old(self)@,
                ban_key(*ip),
                after_ban_check(record_in(old(self)@, ban_key(*ip)), now),
            ),
    {
        let key = Self::get_ban_key(ip);
        match self.lookup(key) {
            Some(rec) => match rec.banned_until {
                Some(until) => {
                    if now >= until {
                        self.store(
                            key,
                            FailureRecord { count: 0, first_failure: rec.first_failure, banned_until: None },
                        );
                        false
                    } else {
                        assert(self@.insert(key, rec) =~= self@);
                        true
                    }
                },
                None => {
                    assert(self@.insert(key, rec) =~= self@);
                    false
                },
            },
            None => {
                assert(self@.remove(key) =~= self@);
                false
            },
        }
    }

    /// Whether `ip` is banned now; see [`Self::is_banned_at`].
    pub fn is_banned(&mut self, ip: &IpAddress) -> (r: bool)
        ensures
            exists|now: i64|
                r == ban_active(record_in(old(self)@, ban_key(*ip)), now) && final(self)@
                    == with_record(
                    old(self)@,
                    ban_key(*ip),
                    after_ban_check(record_in(old(self)@, ban_key(*ip)), now),
                ),
    {
        let now = unix_time_millis();
        self.is_banned_at(ip, now)
    }

    /// Records a failed login from `ip` at `now`.
    pub fn record_failure_at(&mut self, ip: &IpAddress, now: i64)
        ensures
            final(self)@ == with_record(
                old(self)@,
                ban_key(*ip),
                Some(failure_step(record_in(old(self)@, ban_key(*ip)), now)),
            ),
    {
        let key = Self::get_ban_key(ip);
        let next = match self.lookup(key) {
            None => FailureRecord { count: 1, first_failure: now, banned_until: None },
            Some(rec) => {
                if (now as i128) - (rec.first_failure as i128) > FAILURE_WINDOW_MS as i128 {
                    FailureRecord { count: 1, first_failure: now, banned_until: None }
                } else {
                    let count: u32 = if rec.count == u32::MAX {
                        u32::MAX
                    } else {
                        rec.count + 1
                    };
                    let banned_until = if count >= BAN_THRESHOLD && rec.banned_until.is_none() {
                        if now > i64::MAX - BAN_DURATION_MS {
                            Some(i64::MAX)
                        } else {
                            Some(now + BAN_DURATION_MS)
                        }
                    } else {
                        rec.banned_until
                    };
                    FailureRecord { count, first_failure: rec.first_failure, banned_until }
                }
            },
        };
        self.store(key, next);
    }

    /// Records a failed login from `ip` now; see [`Self::record_failure_at`].
    pub fn record_failure(&mut self, ip: &IpAddress)
        ensures
            exists|now: i64|
                final(self)@ == with_record(
                    old(self)@,
                    ban_key(*ip),
                    Some(failure_step(record_in(old(self)@, ban_key(*ip)), now)),
                ),
    {
        let now = unix_time_millis();
        self.record_failure_at(ip, now);
    }

    /// Forgets every failure of the ban key of `ip`.
    pub fn record_success(&mut self, ip: &IpAddress)
        ensures
            final(self)@ == with_record(old(self)@, ban_key(*ip), None),
    {
        let key = Self::get_ban_key(ip);
        self.forget(key);
    }

    /// Whole seconds, rounded up, until the ban of `ip` ends; none where `ip`
    /// is not banned at `now`.
    pub fn get_ban_remaining_seconds_at(&self, ip: &IpAddress, now: i64) -> (r: Option<i64>)
        ensures
            r == remaining_seconds(record_in(self@, ban_key(*ip)), now),
            r is Some <==> ban_active(record_in(self@, ban_key(*ip)), now),
            r matches Some(secs) ==> secs > 0,
    {
        let key = Self::get_ban_key(ip);
        match self.lookup(key) {
            Some(rec) => match rec.banned_until {
                Some(until) => {
                    if now < until {
                        let diff: i128 = until as i128 - now as i128;
                        let secs: i128 = (diff + 999) / 1000;
                        Some(secs as i64)
                    } else {
                        None
                    }
                },
                None => None,
            },
            None => None,
        }
    }

    /// Whole seconds until the ban of `ip` ends, as seen now; see
    /// [`Self::get_ban_remaining_seconds_at`].
    pub fn get_ban_remaining_seconds(&self, ip: &IpAddress) -> (r: Option<i64>)
        ensures
            exists|now: i64| r == remaining_seconds(record_in(self@, ban_key(*ip)), now),
    {
        let now = unix_time_millis();
        self.get_ban_remaining_seconds_at(ip, now)
    }

    fn lookup(&self, key: IpAddress) -> (r: Option<FailureRecord>)
        ensures
            r == record_in(self@, key),
    {
        match key {
            IpAddress::V4(a) => match self.v4.get(&a) {
                Some(rec) => Some(*rec),
                None => None,
            },
            IpAddress::V6(a) => match self.v6.get(&a) {
                Some(rec) => Some(*rec),
                None => None,
            },
        }
    }

    fn store(&mut self, key: IpAddress, rec: FailureRecord)
        ensures
            final(self)@ == old(self)@.insert(key, rec),
    {
        match key {
            IpAddress::V4(a) => {
                self.v4.insert(a, rec);
            },
            IpAddress::V6(a) => {
                self.v6.insert(a, rec);
            },
        }
        assert(self@ =~= old(self)@.insert(key, rec));
    }

    fn forget(&mut self, key: IpAddress)
        ensures
            final(self)@ == old(self)@.remove(key),
    {
        match key {
            IpAddress::V4(a) => {
                self.v4.remove(&a);
            },
            IpAddress::V6(a) => {
                self.v6.remove(&a);
            },
        }
        assert(self@ =~= old(self)@.remove(key));
    }
}

} // verus!
