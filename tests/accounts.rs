use zt_gateway::config::{password_verdict_accepts, ConfigService};
use zt_gateway::error::AppError;
use zt_gateway::models::{AppConfig, UserInfo, ZeroTierConfig};

fn config_with(username: &str, password: &str) -> AppConfig {
    AppConfig {
        info: UserInfo { username: username.to_string(), password: bcrypt::hash(password, 4).unwrap() },
        listen: "0.0.0.0:8080".to_string(),
        zerotier: ZeroTierConfig { auth_token: "SECRET-REDACTED".to_string(), address: "http://127.0.0.1:9993".to_string() },
    }
}

#[test]
fn default_config_listens_on_loopback() {
    let config = AppConfig::default();
    assert_eq!(config.listen, "127.0.0.1:3000");
    assert_eq!(config.info.username, "");
    assert_eq!(config.info.password, "");
    assert_eq!(config.zerotier.address, "");
    assert_eq!(config.zerotier.auth_token, "");
}

#[test]
fn right_credentials_verify() {
    let service = ConfigService::new("config.json".to_string(), config_with("admin", "hunter2"));
    assert!(service.verify_user("admin", "hunter2"));
}

#[test]
fn wrong_password_or_username_fails() {
    let service = ConfigService::new("config.json".to_string(), config_with("admin", "hunter2"));
    assert!(!service.verify_user("admin", "hunter3"));
    assert!(!service.verify_user("root", "hunter2"));
    assert!(!service.verify_user("", ""));
}

#[test]
fn unreadable_stored_hash_fails() {
    let mut config = config_with("admin", "hunter2");
    config.info.password = "hunter2".to_string();
    let service = ConfigService::new("config.json".to_string(), config);
    assert!(!service.verify_user("admin", "hunter2"));
}

#[test]
fn password_verdicts() {
    assert!(password_verdict_accepts(Some(true)));
    assert!(!password_verdict_accepts(Some(false)));
    assert!(!password_verdict_accepts(None));
}

#[test]
fn update_replaces_the_account_only() {
    let mut service = ConfigService::new("config.json".to_string(), config_with("admin", "hunter2"));
    let result: Result<(), AppError> = service.update_user_info("operator", "correct horse");
    assert!(result.is_ok());
    let config = service.get_config();
    assert_eq!(config.info.username, "operator");
    assert_ne!(config.info.password, "correct horse");
    assert!(bcrypt::verify("correct horse", &config.info.password).unwrap());
    assert_eq!(service.get_listen_address(), "0.0.0.0:8080");
    assert_eq!(service.get_zerotier_config().address, "http://127.0.0.1:9993");
    assert_eq!(service.get_config_path(), "config.json");
}
