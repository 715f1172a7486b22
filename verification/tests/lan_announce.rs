use shrieker::lan::{build_packet, sanitize_name, MOTD_CHARS_MAX, MOTD_FALLBACK};

#[test]
fn builds_java_edition_lan_packet() {
    assert_eq!(
        build_packet("shrieker", 25_565),
        b"[MOTD]shrieker[/MOTD][AD]25565[/AD]"
    );
}

#[test]
fn sanitizes_lan_display_name() {
    assert_eq!(sanitize_name("  房间[一]\n[/MOTD]  "), "房间 一 /MOTD");
    assert_eq!(sanitize_name("\0\n"), MOTD_FALLBACK);

    let long_name = "界".repeat(MOTD_CHARS_MAX + 1);
    assert_eq!(sanitize_name(&long_name).chars().count(), MOTD_CHARS_MAX);
}

#[test]
fn sanitizing_twice_changes_nothing() {
    for name in ["  房间[一]\n[/MOTD]  ", "\0\n", "a\u{3000}b\u{85}c", "", "[x]", "a  b\t\tc"] {
        let once = sanitize_name(name);
        assert_eq!(sanitize_name(&once), once);
    }
}

#[test]
fn packet_carries_utf8_name_and_port() {
    let packet = build_packet("房间", 1);
    assert_eq!(packet, "[MOTD]房间[/MOTD][AD]1[/AD]".as_bytes());
    assert_eq!(build_packet("", 65535), b"[MOTD]shrieker[/MOTD][AD]65535[/AD]");
}

#[test]
fn cut_happens_before_white_space_collapses() {
    let name = format!("{}{}", " ".repeat(63), "ab");
    assert_eq!(sanitize_name(&name), "a");
}

#[test]
fn the_name_field_ends_at_the_name() {
    let packet = String::from_utf8(build_packet("a]b[/MOTD]c", 25565)).unwrap();
    let field_end = packet[6..].find('[').unwrap() + 6;
    assert_eq!(&packet[6..field_end], "a b /MOTD c");
    assert!(packet[field_end..].starts_with("[/MOTD]"));
}
