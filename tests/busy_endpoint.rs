use std::sync::Arc;

use busyapi::config::{Args, Config};
use busyapi::handler::{Action, AuditRecord, ConnectionHandler};
use busyapi::request::{ParseError, ParsedRequest};
use busyapi::response::{response_text, Status};
use busyapi::text::{same_text, same_text_ignore_ascii_case};
use busyapi::timeout::{effective_timeout, parse_timeout_path};
use busyapi::validator::{RequestValidator, ValidationError};

fn buffer_of(text: &[u8]) -> Vec<u8> {
    let mut buf = vec![0u8; 1024];
    buf[..text.len()].copy_from_slice(text);
    buf
}

fn audit_config() -> Config {
    let mut c = Config::new();
    c.mongo_user = Some("user".to_string());
    c.mongo_password = Some("pw".to_string());
    c.mongo_host = Some("db.example".to_string());
    c.mongo_database = Some("busy".to_string());
    c.mongo_collection = Some("requests".to_string());
    c
}

fn handle(config: Config, peer: &str, text: &[u8]) -> Action {
    let handler = ConnectionHandler::new(Arc::new(config), peer.to_string());
    let buf = buffer_of(text);
    handler.handle_connection(Some(&buf))
}

fn no_args() -> Args {
    Args {
        address: None,
        port: None,
        max_timeout: None,
        config_file: None,
        mongo_user: None,
        mongo_password: None,
        mongo_host: None,
        mongo_database: None,
        mongo_collection: None,
    }
}

#[test]
fn get_five_seconds_is_served_after_five_seconds() {
    let action = handle(Config::new(), "10.0.0.1", b"GET /5 HTTP/1.1\r\n\r\n");
    assert_eq!(action, Action::Serve { delay_secs: 5, audit: None });
}

#[test]
fn get_five_seconds_with_audit_records_five() {
    let action = handle(audit_config(), "10.0.0.1", b"GET /5 HTTP/1.1\r\n\r\n");
    assert_eq!(
        action,
        Action::Serve {
            delay_secs: 5,
            audit: Some(AuditRecord { ip_address: "10.0.0.1".to_string(), timeout_used: 5 }),
        }
    );
}

#[test]
fn oversized_timeout_is_served_at_once() {
    let action = handle(Config::new(), "10.0.0.1", b"GET /999 HTTP/1.1\r\n\r\n");
    assert_eq!(action, Action::Serve { delay_secs: 0, audit: None });
    let action = handle(Config::new(), "10.0.0.1", b"GET /300 HTTP/1.1\r\n\r\n");
    assert_eq!(action, Action::Serve { delay_secs: 0, audit: None });
}

#[test]
fn trace_method_is_bad_request() {
    let action = handle(audit_config(), "10.0.0.1", b"TRACE / HTTP/1.1\r\n\r\n");
    assert_eq!(action, Action::Reply(Status::BadRequest));
}

#[test]
fn method_is_checked_before_path() {
    let action = handle(Config::new(), "10.0.0.1", b"TRACE /abc HTTP/1.1\r\n\r\n");
    assert_eq!(action, Action::Reply(Status::BadRequest));
    let action = handle(Config::new(), "10.0.0.1", b"get /5 HTTP/1.1\r\n\r\n");
    assert_eq!(action, Action::Reply(Status::BadRequest));
}

#[test]
fn non_digit_path_is_bad_request() {
    let action = handle(Config::new(), "10.0.0.1", b"GET /abc HTTP/1.1\r\n\r\n");
    assert_eq!(action, Action::Reply(Status::BadRequest));
    let action = handle(Config::new(), "10.0.0.1", b"GET /5/ HTTP/1.1\r\n\r\n");
    assert_eq!(action, Action::Reply(Status::BadRequest));
}

#[test]
fn all_allowed_methods_are_served() {
    for m in ["GET", "POST", "PUT", "PATCH", "DELETE", "OPTIONS"] {
        let text = format!("{} /2 HTTP/1.0\r\n\r\n", m);
        let action = handle(Config::new(), "10.0.0.1", text.as_bytes());
        assert_eq!(action, Action::Serve { delay_secs: 2, audit: None });
    }
}

#[test]
fn requested_timeout_is_clamped_to_ceiling() {
    let mut config = Config::new();
    config.max_timeout = 10;
    let action = handle(config, "10.0.0.1", b"GET /200 HTTP/1.1\r\n\r\n");
    assert_eq!(action, Action::Serve { delay_secs: 10, audit: None });
}

#[test]
fn bare_slash_asks_for_no_delay() {
    let action = handle(Config::new(), "10.0.0.1", b"POST / HTTP/1.1\r\n\r\n");
    assert_eq!(action, Action::Serve { delay_secs: 0, audit: None });
}

#[test]
fn empty_connection_is_ignored() {
    let action = handle(audit_config(), "10.0.0.1", b"");
    assert_eq!(action, Action::Ignore);
    let handler = ConnectionHandler::new(Arc::new(Config::new()), "10.0.0.1".to_string());
    let empty: [u8; 0] = [];
    assert_eq!(handler.handle_connection(Some(&empty[..])), Action::Ignore);
}

#[test]
fn failed_read_is_internal_error() {
    let handler = ConnectionHandler::new(Arc::new(audit_config()), "10.0.0.1".to_string());
    assert_eq!(handler.handle_connection(None), Action::Reply(Status::InternalServerError));
}

#[test]
fn incomplete_request_is_bad_request() {
    let action = handle(Config::new(), "10.0.0.1", b"GET /5 HTTP/1.1\r\nHost: x");
    assert_eq!(action, Action::Reply(Status::BadRequest));
    let action = handle(Config::new(), "10.0.0.1", b"GET /5 HTTP/2.0\r\n\r\n");
    assert_eq!(action, Action::Reply(Status::BadRequest));
}

#[test]
fn forwarded_address_is_recorded() {
    let action = handle(
        audit_config(),
        "10.0.0.1",
        b"GET /3 HTTP/1.1\r\nHost: a\r\nx-real-ip: 192.0.2.7\r\nX-Real-IP: 192.0.2.8\r\n\r\n",
    );
    assert_eq!(
        action,
        Action::Serve {
            delay_secs: 3,
            audit: Some(AuditRecord { ip_address: "192.0.2.7".to_string(), timeout_used: 3 }),
        }
    );
}

#[test]
fn non_utf8_forwarded_address_is_rejected() {
    let buf = buffer_of(b"GET /3 HTTP/1.1\r\nX-Real-IP: \xff\xfe\r\n\r\n");
    assert_eq!(ParsedRequest::parse(&buf).err(), Some(ParseError::BadHeaderValue));
    let action = handle(Config::new(), "10.0.0.1", b"GET /3 HTTP/1.1\r\nX-Real-IP: \xff\xfe\r\n\r\n");
    assert_eq!(action, Action::Reply(Status::BadRequest));
}

#[test]
fn parse_extracts_method_path_and_header() {
    let buf = buffer_of(b"PATCH /42 HTTP/1.1\r\nX-REAL-IP: 198.51.100.1\r\n\r\n");
    let r = ParsedRequest::parse(&buf).ok().unwrap();
    assert_eq!(r.method, "PATCH");
    assert_eq!(r.path, "/42");
    assert_eq!(r.real_ip, Some("198.51.100.1".to_string()));
    let buf = buffer_of(b"GET / HTTP/1.1\r\nHost: a\r\n\r\n");
    assert_eq!(ParsedRequest::parse(&buf).ok().unwrap().real_ip, None);
    assert_eq!(ParsedRequest::parse(b"garbage").err(), Some(ParseError::Malformed));
}

#[test]
fn timeout_path_reading() {
    assert_eq!(parse_timeout_path("/"), Some(0));
    assert_eq!(parse_timeout_path("/5"), Some(5));
    assert_eq!(parse_timeout_path("/007"), Some(7));
    assert_eq!(parse_timeout_path("/255"), Some(255));
    assert_eq!(parse_timeout_path("/256"), Some(0));
    assert_eq!(parse_timeout_path("/99999999999999999999"), Some(0));
    assert_eq!(parse_timeout_path(""), None);
    assert_eq!(parse_timeout_path("5"), None);
    assert_eq!(parse_timeout_path("/-1"), None);
    assert_eq!(parse_timeout_path("/1a"), None);
    assert_eq!(parse_timeout_path("/5?x=1"), None);
}

#[test]
fn effective_timeout_is_minimum() {
    assert_eq!(effective_timeout(5, 60), 5);
    assert_eq!(effective_timeout(60, 60), 60);
    assert_eq!(effective_timeout(200, 60), 60);
    assert_eq!(effective_timeout(0, 0), 0);
    assert_eq!(effective_timeout(255, 0), 0);
}

#[test]
fn validator_allow_list() {
    let req = |m: &str| ParsedRequest { method: m.to_string(), path: "/".to_string(), real_ip: None };
    assert!(RequestValidator::validate(&req("OPTIONS")).is_ok());
    assert!(RequestValidator::validate(&req("DELETE")).is_ok());
    assert_eq!(RequestValidator::validate(&req("TRACE")).err(), Some(ValidationError::InvalidMethod));
    assert_eq!(RequestValidator::validate(&req("Get")).err(), Some(ValidationError::InvalidMethod));
    assert_eq!(RequestValidator::validate(&req("")).err(), Some(ValidationError::InvalidMethod));
}

#[test]
fn response_texts() {
    let headers = "\r\nServer: mayo\r\nVary: Accept-Language\r\nContent-Type: text/html; charset=UTF-8\r\nContent-Length: 0\r\nCache-Control: no-store, no-cache, must-revalidate\r\nPragma: no-cache\r\n\r\n";
    assert_eq!(response_text(204), Some(format!("HTTP/1.1 204 No Content{}", headers)));
    assert_eq!(response_text(200), Some(format!("HTTP/1.1 200 OK{}", headers)));
    assert_eq!(response_text(400), Some(format!("HTTP/1.1 400 Bad Request{}", headers)));
    assert_eq!(response_text(500), Some(format!("HTTP/1.1 500 Internal Server Error{}", headers)));
    assert_eq!(response_text(404), None);
    assert_eq!(response_text(0), None);
    assert_eq!(Status::NoContent.code(), 204);
    assert_eq!(Status::Success.code(), 200);
}

#[test]
fn config_defaults() {
    let c = Config::new();
    assert_eq!(c.address, "localhost");
    assert_eq!(c.port, 7878);
    assert_eq!(c.max_timeout, 60);
    assert_eq!(c.config_file, "/etc/busyapi.conf");
    assert!(!c.can_log());
}

#[test]
fn config_from_args_overrides_given_settings() {
    let mut c = audit_config();
    let mut args = no_args();
    args.port = Some(8080);
    args.max_timeout = Some(5);
    c.from_args(args);
    assert_eq!(c.address, "localhost");
    assert_eq!(c.port, 8080);
    assert_eq!(c.max_timeout, 5);
    assert_eq!(c.mongo_user, None);
    assert!(!c.can_log());
}

#[test]
fn can_log_needs_all_five_settings() {
    assert!(audit_config().can_log());
    let mut c = audit_config();
    c.mongo_database = None;
    assert!(!c.can_log());
    let mut c = audit_config();
    c.mongo_collection = None;
    assert!(!c.can_log());
}

#[test]
fn text_comparisons() {
    assert!(same_text("GET", "GET"));
    assert!(!same_text("GET", "GETS"));
    assert!(same_text_ignore_ascii_case("x-REAL-ip", "X-Real-IP"));
    assert!(!same_text_ignore_ascii_case("X-Real-IPs", "X-Real-IP"));
}
