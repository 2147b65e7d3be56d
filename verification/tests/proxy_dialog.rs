use telegrand::proxy_handle_dialog::{
    handle_proxy_result, is_non_ascii_digit, parse_port, sanitize_port_text, ProxyHandleDialog,
    ProxyTypes,
};
use telegrand::proxy_window::StackPage;
use telegrand::telegram::ProxyType;

#[test]
fn digits_are_ascii_digits_only() {
    for c in '0'..='9' {
        assert!(!is_non_ascii_digit(c));
    }
    assert!(is_non_ascii_digit('a'));
    assert!(is_non_ascii_digit(' '));
    assert!(is_non_ascii_digit('/'));
    assert!(is_non_ascii_digit(':'));
    // An Arabic-Indic digit is a digit, but not an ASCII one.
    assert!(is_non_ascii_digit('\u{0663}'));
}

#[test]
fn port_text_of_digits_is_left_alone() {
    assert_eq!(sanitize_port_text("1080"), None);
    assert_eq!(sanitize_port_text(""), None);
}

#[test]
fn port_text_keeps_its_digits_only() {
    assert_eq!(sanitize_port_text("10a8b0"), Some("1080".to_string()));
    assert_eq!(sanitize_port_text(" 443 "), Some("443".to_string()));
    assert_eq!(sanitize_port_text("abc"), Some(String::new()));
    assert_eq!(sanitize_port_text("8é0"), Some("80".to_string()));
}

#[test]
fn sanitizing_twice_changes_nothing_more() {
    for text in ["12:34", "x", "9 9 9", "port 8080!"] {
        let once = sanitize_port_text(text).unwrap();
        assert_eq!(sanitize_port_text(&once), None);
    }
}

#[test]
fn port_parses_as_an_i32() {
    assert_eq!(parse_port("8080"), Some(8080));
    assert_eq!(parse_port("0"), Some(0));
    assert_eq!(parse_port("+12"), Some(12));
    assert_eq!(parse_port("-12"), Some(-12));
    assert_eq!(parse_port("0001"), Some(1));
    assert_eq!(parse_port("2147483647"), Some(i32::MAX));
    assert_eq!(parse_port("-2147483648"), Some(i32::MIN));
}

#[test]
fn port_that_is_not_an_i32_is_refused() {
    assert_eq!(parse_port(""), None);
    assert_eq!(parse_port("+"), None);
    assert_eq!(parse_port("-"), None);
    assert_eq!(parse_port("12a"), None);
    assert_eq!(parse_port(" 12"), None);
    assert_eq!(parse_port("2147483648"), None);
    assert_eq!(parse_port("-2147483649"), None);
    assert_eq!(parse_port("99999999999999999999"), None);
    assert_eq!(parse_port("99999999999x"), None);
}

#[test]
fn port_parsing_agrees_with_std() {
    for text in ["8080", "", "+", "-0", "+7", "007", "1e3", "2147483647", "2147483648", "-2147483648", "-2147483649", "１２"] {
        assert_eq!(parse_port(text), text.parse::<i32>().ok(), "{}", text);
    }
}

fn credentials(t: &ProxyType) -> (&str, &str) {
    match t {
        ProxyType::Socks5 { username, password } => (username, password),
        ProxyType::Http { username, password, .. } => (username, password),
        ProxyType::Mtproto { .. } => panic!("not a credential proxy"),
    }
}

#[test]
fn socks5_selection_gives_socks5_with_its_credentials() {
    let t = ProxyHandleDialog::proxy_type(Some("socks5"));
    assert!(matches!(t, ProxyType::Socks5 { .. }));
    assert_eq!(credentials(&t), ("123", "123"));
}

#[test]
fn http_selection_gives_plain_http() {
    let t = ProxyHandleDialog::proxy_type(Some("http"));
    assert!(matches!(t, ProxyType::Http { http_only: false, .. }));
    assert_eq!(credentials(&t), ("", ""));
}

#[test]
fn unknown_or_no_selection_gives_default_socks5() {
    for nick in [None, Some("mtproto"), Some(""), Some("SOCKS5")] {
        let t = ProxyHandleDialog::proxy_type(nick);
        assert!(matches!(t, ProxyType::Socks5 { .. }));
        assert_eq!(credentials(&t), ("", ""));
    }
}

#[test]
fn proxy_kinds_and_their_nicknames() {
    assert_eq!(ProxyTypes::default(), ProxyTypes::Http);
    assert_eq!(ProxyTypes::Socks5.nick(), "socks5");
    assert_eq!(ProxyTypes::Http.nick(), "http");
    assert!(matches!(ProxyHandleDialog::proxy_type(Some(ProxyTypes::Http.nick())), ProxyType::Http { .. }));
}

#[test]
fn dialog_keeps_its_client() {
    let mut d = ProxyHandleDialog::new();
    assert_eq!(d.client_id(), 0);
    d.set_client_id(42);
    assert_eq!(d.client_id(), 42);
}

#[test]
fn saving_sends_the_entered_proxy_to_the_client() {
    let mut d = ProxyHandleDialog::new();
    d.set_client_id(7);
    let saved = d.add_save_proxy("proxy.example.org".to_string(), "1080", Some("socks5"));
    assert_eq!(saved.client_id, 7);
    assert_eq!(saved.request.server, "proxy.example.org");
    assert_eq!(saved.request.port, 1080);
    assert!(!saved.request.enable);
    assert_eq!(credentials(&saved.request.proxy_type), ("123", "123"));
    assert_eq!(saved.next_page, StackPage::MainPage);
    // Saving leaves the dialog as it was.
    assert_eq!(d.client_id(), 7);
}

#[test]
fn request_outcome_keeps_the_value_or_nothing() {
    assert_eq!(handle_proxy_result::<i32, String>(Ok(5)), Some(5));
    assert_eq!(handle_proxy_result::<i32, String>(Err("no".to_string())), None);
}

#[test]
fn sanitized_port_text_parses_to_its_digits() {
    let text = sanitize_port_text("80a80").unwrap();
    assert_eq!(text, "8080");
    assert_eq!(parse_port(&text), Some(8080));
    // Digits alone can still be too many for a port.
    let long = sanitize_port_text("9999999999x").unwrap();
    assert_eq!(parse_port(&long), None);
}

