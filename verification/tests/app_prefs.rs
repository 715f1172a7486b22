use shrieker::persist::{app_prefs_content, parse_app_prefs, AppPrefs};

#[test]
fn appearance_defaults_to_dark_english() {
    let prefs = AppPrefs::default();
    assert!(prefs.dark_mode);
    assert_eq!(prefs.locale, "en");
    assert_eq!(parse_app_prefs(""), prefs);
}

#[test]
fn appearance_file_sets_each_preference() {
    let prefs = parse_app_prefs("dark_mode=false\nlocale= zh-CN \n");
    assert!(!prefs.dark_mode);
    assert_eq!(prefs.locale, "zh-CN");
    let prefs = parse_app_prefs("dark_mode=yes\r\nunknown=1\n");
    assert!(!prefs.dark_mode);
    assert_eq!(prefs.locale, "en");
    let prefs = parse_app_prefs("locale=fr");
    assert!(prefs.dark_mode);
    assert_eq!(prefs.locale, "fr");
}

#[test]
fn appearance_file_text() {
    assert_eq!(app_prefs_content(true, "en"), "dark_mode=true\nlocale=en\n");
    assert_eq!(app_prefs_content(false, "zh-CN"), "dark_mode=false\nlocale=zh-CN\n");
}

#[test]
fn appearance_reads_back_what_was_written() {
    for (dark_mode, locale) in [(true, "en"), (false, "zh-CN"), (false, "")] {
        let prefs = parse_app_prefs(&app_prefs_content(dark_mode, locale));
        assert_eq!(prefs, AppPrefs { dark_mode, locale: locale.to_owned() });
    }
}
