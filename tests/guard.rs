use zt_gateway::ip_ban::{IpBanService, BAN_DURATION_MS, FAILURE_WINDOW_MS};
use zt_gateway::net::IpAddress;

const T0: i64 = 1_700_000_000_000;

fn source() -> IpAddress {
    IpAddress::V4(0xCB00_7105)
}

#[test]
fn four_failures_do_not_ban() {
    let mut guard = IpBanService::new();
    let ip = source();
    for i in 0..4 {
        guard.record_failure_at(&ip, T0 + i * 1000);
    }
    assert!(!guard.is_banned_at(&ip, T0 + 4000));
    assert_eq!(guard.get_ban_remaining_seconds_at(&ip, T0 + 4000), None);
}

#[test]
fn fifth_failure_bans_for_a_day() {
    let mut guard = IpBanService::new();
    let ip = source();
    for i in 0..5 {
        guard.record_failure_at(&ip, T0 + i * 1000);
    }
    let banned_at = T0 + 4000;
    assert!(guard.is_banned_at(&ip, banned_at));
    assert_eq!(guard.get_ban_remaining_seconds_at(&ip, banned_at), Some(86_400));
    assert!(guard.is_banned_at(&ip, banned_at + BAN_DURATION_MS - 1));
}

#[test]
fn remaining_seconds_round_up() {
    let mut guard = IpBanService::new();
    let ip = source();
    for _ in 0..5 {
        guard.record_failure_at(&ip, T0);
    }
    assert_eq!(guard.get_ban_remaining_seconds_at(&ip, T0 + 1), Some(86_400));
    assert_eq!(guard.get_ban_remaining_seconds_at(&ip, T0 + BAN_DURATION_MS - 1), Some(1));
    assert_eq!(guard.get_ban_remaining_seconds_at(&ip, T0 + BAN_DURATION_MS), None);
}

#[test]
fn ban_expires_at_its_end_and_resets_the_count() {
    let mut guard = IpBanService::new();
    let ip = source();
    for _ in 0..5 {
        guard.record_failure_at(&ip, T0);
    }
    let end = T0 + BAN_DURATION_MS;
    assert!(guard.is_banned_at(&ip, end - 1));
    assert!(!guard.is_banned_at(&ip, end));
    assert!(!guard.is_banned_at(&ip, end + 1));
    // The count restarted: four more failures (in a new window) do not ban.
    for i in 0..4 {
        guard.record_failure_at(&ip, end + i);
    }
    assert!(!guard.is_banned_at(&ip, end + 10));
    guard.record_failure_at(&ip, end + 11);
    assert!(guard.is_banned_at(&ip, end + 12));
}

#[test]
fn success_clears_failures() {
    let mut guard = IpBanService::new();
    let ip = source();
    for i in 0..4 {
        guard.record_failure_at(&ip, T0 + i);
    }
    guard.record_success(&ip);
    for i in 0..4 {
        guard.record_failure_at(&ip, T0 + 10 + i);
    }
    assert!(!guard.is_banned_at(&ip, T0 + 20));
    guard.record_failure_at(&ip, T0 + 21);
    assert!(guard.is_banned_at(&ip, T0 + 22));
}

#[test]
fn failures_outside_the_window_start_over() {
    let mut guard = IpBanService::new();
    let ip = source();
    for i in 0..4 {
        guard.record_failure_at(&ip, T0 + i);
    }
    guard.record_failure_at(&ip, T0 + FAILURE_WINDOW_MS + 1);
    assert!(!guard.is_banned_at(&ip, T0 + FAILURE_WINDOW_MS + 2));
    // Exactly one window after the first failure still counts.
    let mut other = IpBanService::new();
    for i in 0..4 {
        other.record_failure_at(&ip, T0 + i);
    }
    other.record_failure_at(&ip, T0 + FAILURE_WINDOW_MS);
    assert!(other.is_banned_at(&ip, T0 + FAILURE_WINDOW_MS));
}

#[test]
fn further_failures_do_not_extend_a_ban() {
    let mut guard = IpBanService::new();
    let ip = source();
    for _ in 0..5 {
        guard.record_failure_at(&ip, T0);
    }
    guard.record_failure_at(&ip, T0 + 60_000);
    guard.record_failure_at(&ip, T0 + 120_000);
    assert!(!guard.is_banned_at(&ip, T0 + BAN_DURATION_MS));
}

#[test]
fn sources_are_independent() {
    let mut guard = IpBanService::new();
    let ip = source();
    let other = IpAddress::V4(0x0808_0808);
    for _ in 0..5 {
        guard.record_failure_at(&ip, T0);
    }
    assert!(guard.is_banned_at(&ip, T0 + 1));
    assert!(!guard.is_banned_at(&other, T0 + 1));
}

#[test]
fn ipv6_sources_in_one_48_share_a_record() {
    let mut guard = IpBanService::new();
    let base: u128 = 0x2001_0db8_abcd_0000_0000_0000_0000_0000;
    for i in 0..5u128 {
        guard.record_failure_at(&IpAddress::V6(base + (i << 64) + i), T0);
    }
    assert!(guard.is_banned_at(&IpAddress::V6(base + 0xffff), T0 + 1));
    assert!(!guard.is_banned_at(&IpAddress::V6(base + (1u128 << 80)), T0 + 1));
}

#[test]
fn ban_near_the_end_of_time_saturates() {
    let mut guard = IpBanService::new();
    let ip = source();
    let late = i64::MAX - 10;
    for _ in 0..5 {
        guard.record_failure_at(&ip, late);
    }
    assert!(guard.is_banned_at(&ip, late));
    assert_eq!(guard.get_ban_remaining_seconds_at(&ip, late), Some(1));
}

#[test]
fn checks_against_the_clock() {
    let mut guard = IpBanService::default();
    let ip = source();
    assert!(!guard.is_banned(&ip));
    assert_eq!(guard.get_ban_remaining_seconds(&ip), None);
    for _ in 0..5 {
        guard.record_failure(&ip);
    }
    assert!(guard.is_banned(&ip));
    let left = guard.get_ban_remaining_seconds(&ip).unwrap();
    assert!(left > 86_000 && left <= 86_400);
}
