use fullstack_app::config::Config;
use fullstack_app::email::service::{EmailService, TransportPlan};
use fullstack_app::email::templates::password_reset_email;
use fullstack_app::errors::AppError;

fn config() -> Config {
    Config {
        host: "127.0.0.1".to_string(),
        port: 0,
        database_url: ":memory:".to_string(),
        jwt_secret: "s".to_string(),
        jwt_access_expiry_secs: 900,
        jwt_refresh_expiry_secs: 604800,
        smtp_host: None,
        smtp_port: None,
        smtp_username: None,
        smtp_password: None,
        smtp_from: "test@example.com".to_string(),
        frontend_url: "http://localhost:3000".to_string(),
        static_dir: "/tmp/nonexistent".to_string(),
    }
}

#[test]
fn reset_email_embeds_url() {
    let html = password_reset_email("http://x/reset-password?token=abc");
    assert!(html.starts_with("<!DOCTYPE html>\n<html>"));
    assert!(html.contains("<a href=\"http://x/reset-password?token=abc\" style="));
    assert!(html.ends_with("</html>"));
    assert!(html.contains("This link expires in 1 hour."));
}

#[test]
fn reset_email_escapes_link_in_attribute() {
    let html = password_reset_email("http://x/r?a=1&b=\"2\"<i>'");
    assert!(html.contains(
        "<a href=\"http://x/r?a=1&amp;b=&quot;2&quot;&lt;i&gt;&#x27;\" style="
    ));
    assert!(!html.contains("b=\"2"));
}

#[test]
fn console_transport_without_host() {
    let s = EmailService::from_config(&config());
    assert!(matches!(s.transport(), TransportPlan::Console));
    assert_eq!(s.from_address(), "test@example.com");
}

#[test]
fn smtp_transport_with_host() {
    let mut c = config();
    c.smtp_host = Some("smtp.example.com".to_string());
    c.smtp_port = Some(2525);
    c.smtp_username = Some("user".to_string());
    let s = EmailService::from_config(&c);
    match s.transport() {
        TransportPlan::Smtp { host, credentials, port } => {
            assert_eq!(host, "smtp.example.com");
            assert!(credentials.is_none());
            assert_eq!(*port, Some(2525));
        }
        _ => panic!("expected smtp"),
    }
    c.smtp_password = Some("pw".to_string());
    let s = EmailService::from_config(&c);
    match s.transport() {
        TransportPlan::Smtp { credentials: Some((u, p)), .. } => {
            assert_eq!(u, "user");
            assert_eq!(p, "pw");
        }
        _ => panic!("expected credentials"),
    }
}

#[test]
fn reset_message_carries_link() {
    let s = EmailService::from_config(&config());
    assert_eq!(s.reset_url("tok-1"), "http://localhost:3000/reset-password?token=tok-1");
    let m = s.password_reset_message("user@example.com", "tok-1");
    assert_eq!(m.to, "user@example.com");
    assert_eq!(m.from, "test@example.com");
    assert_eq!(m.subject, "Password Reset Request");
    assert_eq!(m.reset_url, "http://localhost:3000/reset-password?token=tok-1");
    assert_eq!(m.html, password_reset_email(&m.reset_url));
}

#[test]
fn console_entry_lists_recipient_and_link() {
    let s = EmailService::from_config(&config());
    let m = s.password_reset_message("user@example.com", "tok-1");
    assert_eq!(
        m.console_text(),
        "=== EMAIL (console mode) ===\nTo: user@example.com\nSubject: Password Reset Request\nReset URL: http://localhost:3000/reset-password?token=tok-1\n==========================="
    );
}

#[test]
fn reset_message_addresses_are_checked() {
    let s = EmailService::from_config(&config());
    assert!(s.password_reset_message("user@example.com", "tok-1").check_addresses().is_ok());
    match s.password_reset_message("not an address", "tok-1").check_addresses() {
        Err(AppError::Internal(m)) => assert_eq!(m, "Invalid to address: Invalid input"),
        _ => panic!("expected the recipient to be refused"),
    }
    let mut c = config();
    c.smtp_from = "nobody".to_string();
    let s = EmailService::from_config(&c);
    match s.password_reset_message("also bad", "tok-1").check_addresses() {
        Err(AppError::Internal(m)) => assert!(m.starts_with("Invalid from address: ")),
        _ => panic!("expected the sender to be refused"),
    }
}

#[test]
fn reset_url_encodes_token_and_trims_frontend() {
    let mut c = config();
    c.frontend_url = "http://localhost:3000//".to_string();
    let s = EmailService::from_config(&c);
    assert_eq!(
        s.reset_url("0f8fad5b-d9cb-469f-a165-70867728950e"),
        "http://localhost:3000/reset-password?token=0f8fad5b-d9cb-469f-a165-70867728950e"
    );
    assert_eq!(
        s.reset_url("a b&c=d/\u{e9}~._"),
        "http://localhost:3000/reset-password?token=a%20b%26c%3Dd%2F%C3%A9~._"
    );
    let m = s.password_reset_message("user@example.com", "x\"y");
    assert_eq!(m.reset_url, "http://localhost:3000/reset-password?token=x%22y");
    assert!(m.html.contains("<a href=\"http://localhost:3000/reset-password?token=x%22y\" style="));
}
