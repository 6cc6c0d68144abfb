use zt_gateway::error::AppError;
use zt_gateway::models::ZeroTierConfig;
use zt_gateway::static_files::StaticFileService;
use zt_gateway::zerotier::{endpoint_with_query, ZeroTierService};

fn upstream() -> ZeroTierService {
    ZeroTierService::new(ZeroTierConfig { auth_token: "SECRET-REDACTED".to_string(), address: "http://127.0.0.1:9993/".to_string() })
}

#[test]
fn endpoint_without_query_is_the_path() {
    assert_eq!(endpoint_with_query("status", &vec![]), "status");
}

#[test]
fn endpoint_with_query_joins_parameters_in_order() {
    let params = vec![("a".to_string(), "1".to_string()), ("b".to_string(), "two".to_string())];
    assert_eq!(endpoint_with_query("controller/network", &params), "controller/network?a=1&b=two");
    let one = vec![("k".to_string(), "".to_string())];
    assert_eq!(endpoint_with_query("x", &one), "x?k=");
}

#[test]
fn upstream_url_and_credential() {
    let zt = upstream();
    assert_eq!(zt.request_url("status"), "http://127.0.0.1:9993/status");
    assert_eq!(zt.auth_header_name(), "X-ZT1-AUTH");
    assert_eq!(zt.auth_token(), "SECRET-REDACTED");
}

#[test]
fn asset_paths() {
    assert_eq!(StaticFileService::file_path("/"), "index.html");
    assert_eq!(StaticFileService::file_path(""), "index.html");
    assert_eq!(StaticFileService::file_path("/assets/app.js"), "assets/app.js");
    assert_eq!(StaticFileService::file_path("/favicon.ico"), "favicon.ico");
    assert_eq!(StaticFileService::entry_page(), "index.html");
}

#[test]
fn error_responses_hide_internal_detail() {
    assert_eq!(AppError::Unauthorized.response_parts(), (401, "Unauthorized".to_string()));
    assert_eq!(AppError::TooManyRequests("wait".to_string()).response_parts(), (429, "wait".to_string()));
    assert_eq!(
        AppError::InternalServerError("db password wrong".to_string()).response_parts(),
        (500, "Internal server error".to_string())
    );
    assert_eq!(AppError::ZeroTierError("connection refused".to_string()).response_parts(), (502, "Bad gateway".to_string()));
    assert_eq!(AppError::ConfigError("missing file".to_string()).response_parts(), (500, "Internal server error".to_string()));
    assert_eq!(AppError::IoError("disk full".to_string()).response_parts(), (500, "Internal server error".to_string()));
    assert_eq!(AppError::JsonError("expected value".to_string()).response_parts(), (400, "expected value".to_string()));
    assert_eq!(AppError::ReqwestError("timeout".to_string()).response_parts(), (502, "Bad gateway".to_string()));
}
