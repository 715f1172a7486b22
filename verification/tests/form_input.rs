use shrieker::input::{parse_host_port, parse_local_port, parse_optional_u32, should_hide_on_close, LocalPort};
use shrieker::number::IntErrorKind;
use shrieker::settings::CloseAction;

#[test]
fn parses_empty_optional_number() {
    assert_eq!(parse_optional_u32(""), Ok(None));
}

#[test]
fn parses_present_optional_number() {
    assert_eq!(parse_optional_u32("8"), Ok(Some(8)));
}

#[test]
fn rejects_invalid_optional_number() {
    assert!(parse_optional_u32("eight").is_err());
    assert!(parse_optional_u32("0").is_err());
}

#[test]
fn uses_auto_local_port_without_parsing_input() {
    assert_eq!(parse_local_port(true, "invalid"), Ok(LocalPort::Auto));
}

#[test]
fn parses_fixed_local_port() {
    assert!(matches!(
        parse_local_port(false, "30000"),
        Ok(LocalPort::Fixed(port)) if port == 30000
    ));
    assert!(parse_local_port(false, "0").is_err());
}

#[test]
fn parses_minecraft_host_port() {
    assert_eq!(parse_host_port("25565"), Ok(25_565));
    assert!(parse_host_port("0").is_err());
    assert!(parse_host_port("65536").is_err());
    assert!(parse_host_port("invalid").is_err());
}

#[test]
fn hides_only_for_user_close_with_available_tray() {
    assert!(should_hide_on_close(true, false, CloseAction::HideToTray, true));
    assert!(!should_hide_on_close(true, false, CloseAction::Exit, true));
    assert!(!should_hide_on_close(true, true, CloseAction::HideToTray, true));
    assert!(!should_hide_on_close(true, false, CloseAction::HideToTray, false));
    assert!(!should_hide_on_close(false, false, CloseAction::HideToTray, true));
}

#[test]
fn integer_errors_follow_the_standard_kinds() {
    assert_eq!(parse_host_port(""), Err(IntErrorKind::Empty));
    assert_eq!(parse_host_port("+"), Err(IntErrorKind::InvalidDigit));
    assert_eq!(parse_host_port("-1"), Err(IntErrorKind::InvalidDigit));
    assert_eq!(parse_host_port("65536"), Err(IntErrorKind::PosOverflow));
    assert_eq!(parse_host_port("0"), Err(IntErrorKind::Zero));
    assert_eq!(parse_host_port("+25565"), Ok(25565));
    assert_eq!(parse_host_port("99999999999999999999x"), Err(IntErrorKind::PosOverflow));
    assert_eq!(parse_host_port("1x99999999999999999999"), Err(IntErrorKind::InvalidDigit));
    assert_eq!(parse_optional_u32("4294967295"), Ok(Some(u32::MAX)));
    assert_eq!(parse_optional_u32("4294967296"), Err(IntErrorKind::PosOverflow));
}

#[test]
fn integer_error_messages_match_the_standard_library() {
    for (text, kind) in [
        ("", IntErrorKind::Empty),
        ("x", IntErrorKind::InvalidDigit),
        ("70000", IntErrorKind::PosOverflow),
    ] {
        let expected = text.parse::<u16>().unwrap_err().to_string();
        assert_eq!(kind.message(), expected);
    }
    let zero = "0".parse::<std::num::NonZeroU16>().unwrap_err().to_string();
    assert_eq!(IntErrorKind::Zero.message(), zero);
}

#[test]
fn integer_parsing_agrees_with_the_standard_library() {
    for text in ["", "+", "-", "0", "1", "+7", "-7", "65535", "65536", "0065535", " 1", "1 ", "12a", "９"] {
        let ours = parse_host_port(text).ok();
        let std = text.parse::<std::num::NonZeroU16>().ok().map(|p| p.get());
        assert_eq!(ours, std, "{text:?}");
    }
}
