use zt_gateway::auth::AuthService;
use zt_gateway::config::ConfigService;
use zt_gateway::error::AppError;
use zt_gateway::gate::{admit_request, admit_request_at, check_ban, extract_token, login, login_at, settle_login};
use zt_gateway::ip_ban::IpBanService;
use zt_gateway::models::{AppConfig, LoginRequest, UserInfo, ZeroTierConfig};
use zt_gateway::net::IpAddress;

const T0_MS: i64 = 1_700_000_000_000;
const T0_S: i64 = 1_700_000_000;

fn accounts() -> ConfigService {
    let config = AppConfig {
        info: UserInfo { username: "admin".to_string(), password: bcrypt::hash("s3cret", 4).unwrap() },
        listen: "127.0.0.1:3000".to_string(),
        zerotier: ZeroTierConfig { auth_token: "SECRET-REDACTED".to_string(), address: "http://127.0.0.1:9993".to_string() },
    };
    ConfigService::new("config.json".to_string(), config)
}

fn request(username: &str, password: &str) -> LoginRequest {
    LoginRequest { username: username.to_string(), password: password.to_string() }
}

fn client() -> IpAddress {
    IpAddress::V4(0x5DB8_D822)
}

#[test]
fn login_with_right_credentials_issues_claims() {
    let mut guard = IpBanService::new();
    let auth = AuthService::new("SECRET-REDACTED".to_string());
    let claims = login_at(&mut guard, &accounts(), &auth, &client(), &request("admin", "s3cret"), T0_MS).unwrap();
    assert_eq!(claims.sub, "admin");
    assert_eq!(claims.exp, T0_S + 604_800);
}

#[test]
fn five_wrong_logins_then_too_many_requests() {
    let mut guard = IpBanService::new();
    let auth = AuthService::new("SECRET-REDACTED".to_string());
    let accounts = accounts();
    for i in 0..5 {
        let r = login_at(&mut guard, &accounts, &auth, &client(), &request("admin", "wrong"), T0_MS + i * 1000);
        assert!(matches!(r, Err(AppError::Unauthorized)));
    }
    let sixth = login_at(&mut guard, &accounts, &auth, &client(), &request("admin", "s3cret"), T0_MS + 5000);
    match sixth {
        Err(AppError::TooManyRequests(message)) => {
            assert_eq!(message, "Too many failed login attempts. Please try again in 86399 seconds.");
        },
        other => panic!("expected a ban, got {:?}", other),
    }
}

#[test]
fn ban_message_counts_down() {
    let mut guard = IpBanService::new();
    let auth = AuthService::new("SECRET-REDACTED".to_string());
    let accounts = accounts();
    for _ in 0..5 {
        let _ = login_at(&mut guard, &accounts, &auth, &client(), &request("admin", "wrong"), T0_MS);
    }
    let late = login_at(&mut guard, &accounts, &auth, &client(), &request("admin", "wrong"), T0_MS + 86_400_000 - 1500);
    assert_eq!(late.unwrap_err().response_parts(), (429, "Too many failed login attempts. Please try again in 2 seconds.".to_string()));
}

#[test]
fn login_after_ban_expiry_succeeds() {
    let mut guard = IpBanService::new();
    let auth = AuthService::new("SECRET-REDACTED".to_string());
    let accounts = accounts();
    for _ in 0..5 {
        let _ = login_at(&mut guard, &accounts, &auth, &client(), &request("admin", "wrong"), T0_MS);
    }
    let later = T0_MS + 86_400_000;
    assert!(login_at(&mut guard, &accounts, &auth, &client(), &request("admin", "s3cret"), later).is_ok());
}

#[test]
fn success_forgives_earlier_failures() {
    let mut guard = IpBanService::new();
    let auth = AuthService::new("SECRET-REDACTED".to_string());
    let accounts = accounts();
    for _ in 0..4 {
        let _ = login_at(&mut guard, &accounts, &auth, &client(), &request("admin", "wrong"), T0_MS);
    }
    assert!(login_at(&mut guard, &accounts, &auth, &client(), &request("admin", "s3cret"), T0_MS).is_ok());
    for _ in 0..4 {
        let _ = login_at(&mut guard, &accounts, &auth, &client(), &request("admin", "wrong"), T0_MS);
    }
    assert!(!guard.is_banned_at(&client(), T0_MS));
}

#[test]
fn login_against_the_clock() {
    let mut guard = IpBanService::new();
    let auth = AuthService::new("SECRET-REDACTED".to_string());
    let claims = login(&mut guard, &accounts(), &auth, &client(), &request("admin", "s3cret")).unwrap();
    assert_eq!(claims.username, "admin");
}

#[test]
fn expired_credential_is_refused_before_forwarding() {
    let mut guard = IpBanService::new();
    let auth = AuthService::new("SECRET-REDACTED".to_string());
    let claims = auth.issue_claims_at("admin", T0_S);
    let token = admit_request_at(&mut guard, &client(), Some("Bearer abc.def.ghi"), T0_MS).unwrap();
    assert_eq!(token, "abc.def.ghi");
    let expired_at = claims.exp;
    assert!(matches!(auth.validate_token_at(Ok(claims), expired_at), Err(AppError::Unauthorized)));
}

#[test]
fn requests_need_a_bearer_token() {
    let mut guard = IpBanService::new();
    assert!(matches!(admit_request_at(&mut guard, &client(), None, T0_MS), Err(AppError::Unauthorized)));
    assert!(matches!(admit_request_at(&mut guard, &client(), Some("Basic abc"), T0_MS), Err(AppError::Unauthorized)));
    assert!(matches!(admit_request_at(&mut guard, &client(), Some("bearer abc"), T0_MS), Err(AppError::Unauthorized)));
}

#[test]
fn banned_sources_are_refused_even_with_a_token() {
    let mut guard = IpBanService::new();
    for _ in 0..5 {
        guard.record_failure_at(&client(), T0_MS);
    }
    let r = admit_request_at(&mut guard, &client(), Some("Bearer abc"), T0_MS + 1000);
    assert!(matches!(r, Err(AppError::TooManyRequests(_))));
}

#[test]
fn bearer_prefix_is_stripped() {
    assert_eq!(extract_token("Bearer abc"), Some("abc".to_string()));
    assert_eq!(extract_token("Bearer "), Some(String::new()));
    assert_eq!(extract_token("Bearer"), None);
    assert_eq!(extract_token("Token abc"), None);
    assert_eq!(extract_token(" Bearer abc"), None);
}

#[test]
fn split_login_steps_against_the_clock() {
    let mut guard = IpBanService::new();
    let auth = AuthService::new("SECRET-REDACTED".to_string());
    let accounts = accounts();
    for _ in 0..5 {
        assert!(check_ban(&mut guard, &client()).is_ok());
        let ok = accounts.verify_user("admin", "nope");
        assert!(matches!(settle_login(&mut guard, &auth, &client(), "admin", ok), Err(AppError::Unauthorized)));
    }
    assert!(matches!(check_ban(&mut guard, &client()), Err(AppError::TooManyRequests(_))));
    assert!(matches!(admit_request(&mut guard, &client(), Some("Bearer abc")), Err(AppError::TooManyRequests(_))));
    let other = IpAddress::V4(0x0101_0101);
    let claims = settle_login(&mut guard, &auth, &other, "admin", accounts.verify_user("admin", "s3cret")).unwrap();
    assert_eq!(claims.sub, "admin");
    assert_eq!(admit_request(&mut guard, &other, Some("Bearer xyz")).unwrap(), "xyz");
}
