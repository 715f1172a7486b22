use shrieker::settings::{parse_preferences, preferences_content, CloseAction, GuiPreferences};

#[test]
fn preferences_without_reconnect_policy_default_to_unlimited() {
    let preferences = parse_preferences("locale=zh-CN\n");

    assert_eq!(preferences.theme, "system");
    assert_eq!(preferences.locale, "zh-CN");
    assert!(preferences.remember_window_state);
    assert_eq!(preferences.close_action, CloseAction::Exit);
    assert!(preferences.join_uri.is_empty());
    assert_eq!(preferences.reconnect_timeout_secs, None);
}

#[test]
fn parses_reconnect_timeout_policy() {
    let finite = parse_preferences("reconnect_timeout_secs=30\n");
    let unlimited = parse_preferences("reconnect_timeout_secs=unlimited\n");
    let zero = parse_preferences("reconnect_timeout_secs=0\n");
    let unsupported = parse_preferences("reconnect_timeout_secs=45\n");

    assert_eq!(finite.reconnect_timeout_secs, Some(30));
    assert_eq!(unlimited.reconnect_timeout_secs, None);
    assert_eq!(zero.reconnect_timeout_secs, None);
    assert_eq!(unsupported.reconnect_timeout_secs, None);
}

#[test]
fn stored_preferences_read_back_unchanged() {
    let preferences = GuiPreferences {
        theme: "dark".to_owned(),
        locale: "en".to_owned(),
        remember_window_state: false,
        close_action: CloseAction::HideToTray,
        join_uri: "sculk://join/v1/abc".to_owned(),
        reconnect_timeout_secs: Some(60),
    };
    let content = preferences_content(&preferences);
    assert_eq!(
        content,
        "theme=dark\nlocale=en\nremember_window_state=false\nclose_action=hide_to_tray\njoin_uri=sculk://join/v1/abc\nreconnect_timeout_secs=60\n"
    );
    assert_eq!(parse_preferences(&content), preferences);
    assert_eq!(parse_preferences(&preferences_content(&GuiPreferences::default())), GuiPreferences::default());
}

#[test]
fn lines_are_trimmed_and_carriage_returns_dropped() {
    let p = parse_preferences("theme= light \r\nclose_action=hide_to_tray\r\nremember_window_state=yes\nunknown=1\njoin_uri=  x  ");
    assert_eq!(p.theme, "light");
    assert_eq!(p.close_action, CloseAction::HideToTray);
    assert!(!p.remember_window_state);
    assert_eq!(p.join_uri, "x");
}

#[test]
fn unknown_theme_keeps_the_default_and_later_lines_win() {
    let p = parse_preferences("theme=blue\nlocale=en\nlocale=de\nreconnect_timeout_secs=+15\n");
    assert_eq!(p.theme, "system");
    assert_eq!(p.locale, "de");
    assert_eq!(p.reconnect_timeout_secs, Some(15));
    assert_eq!(parse_preferences(""), GuiPreferences::default());
}
