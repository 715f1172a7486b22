use shrieker::format::{format_bytes, format_remaining, format_remaining_secs, log_tone, LogTone};
use shrieker::logs::{clear_logs, copy_logs};
use std::time::{Duration, SystemTime};

#[test]
fn formats_byte_boundaries() {
    assert_eq!(format_bytes(0), "0 B");
    assert_eq!(format_bytes(1023), "1023 B");
    assert_eq!(format_bytes(1024), "1.0 KB");
    assert_eq!(format_bytes(1024 * 1024), "1.0 MB");
    assert_eq!(format_bytes(1024 * 1024 * 1024), "1.0 GB");
}

#[test]
fn formats_remaining_time() {
    let now = SystemTime::UNIX_EPOCH;
    assert_eq!(format_remaining(now + Duration::from_secs(90), now), "1m");
    assert_eq!(
        format_remaining(now + Duration::from_secs(3 * 3600 + 120), now),
        "3h 2m"
    );
    assert_eq!(format_remaining(now, now + Duration::from_secs(1)), "0s");
}

fn float_text(bytes: u64) -> String {
    const KB: u64 = 1024;
    const MB: u64 = 1024 * KB;
    const GB: u64 = 1024 * MB;
    if bytes >= GB {
        format!("{:.1} GB", bytes as f64 / GB as f64)
    } else if bytes >= MB {
        format!("{:.1} MB", bytes as f64 / MB as f64)
    } else if bytes >= KB {
        format!("{:.1} KB", bytes as f64 / KB as f64)
    } else {
        format!("{bytes} B")
    }
}

#[test]
fn byte_text_rounds_like_floating_point_formatting() {
    let mut samples = vec![
        1280, 1331, 1382, 1535, 1536, 1024 * 1024 * 5 / 4, 3 * 1024 * 1024 * 1024 / 4 * 5,
        (1u64 << 53) + 1, (1u64 << 53) + 3, (1u64 << 60) + 12345, u64::MAX, u64::MAX - 2047,
        (1u64 << 63) + (1u64 << 10), 1024 * 1024 - 1, 1024 * 1024 * 1024 - 1,
    ];
    let mut x: u64 = 0x9E37_79B9_7F4A_7C15;
    for _ in 0..2000 {
        x ^= x << 13;
        x ^= x >> 7;
        x ^= x << 17;
        samples.push(x >> (x % 60));
    }
    for bytes in samples {
        assert_eq!(format_bytes(bytes), float_text(bytes), "{bytes}");
    }
}

#[test]
fn remaining_time_units() {
    assert_eq!(format_remaining_secs(59), "59s");
    assert_eq!(format_remaining_secs(60), "1m");
    assert_eq!(format_remaining_secs(3599), "59m");
    assert_eq!(format_remaining_secs(3600), "1h 0m");
    assert_eq!(format_remaining_secs(90_061), "25h 1m");
}

#[test]
fn log_lines_are_toned_by_their_marker() {
    assert_eq!(log_tone("[+] done"), LogTone::Success);
    assert_eq!(log_tone("[-] failed"), LogTone::Failure);
    assert_eq!(log_tone("[*] working"), LogTone::Progress);
    assert_eq!(log_tone("[?] other"), LogTone::Plain);
    assert_eq!(log_tone("[+"), LogTone::Plain);
    assert_eq!(log_tone(""), LogTone::Plain);
}

#[test]
fn copying_logs_drops_earlier_confirmations() {
    let mut logs = vec![
        "[+] ready".to_owned(),
        "Logs copied".to_owned(),
        "[-] failed".to_owned(),
        "日志已复制".to_owned(),
    ];
    let confirmations = vec!["Logs copied".to_owned(), "日志已复制".to_owned()];
    let text = copy_logs(&mut logs, &confirmations, "Logs copied".to_owned());
    assert_eq!(
        logs,
        vec!["[+] ready".to_owned(), "[-] failed".to_owned(), "Logs copied".to_owned()]
    );
    assert_eq!(text, "[+] ready\n[-] failed");
    let again = copy_logs(&mut logs, &confirmations, "Logs copied".to_owned());
    assert_eq!(again, "[+] ready\n[-] failed");
    assert_eq!(logs.len(), 3);
    clear_logs(&mut logs);
    assert!(logs.is_empty());
}

#[test]
fn copying_an_empty_log_copies_nothing() {
    let mut logs: Vec<String> = vec!["Logs copied".to_owned()];
    let text = copy_logs(&mut logs, &vec!["Logs copied".to_owned()], "Logs copied".to_owned());
    assert_eq!(logs, vec!["Logs copied".to_owned()]);
    assert_eq!(text, "");
}

#[test]
fn a_deadline_now_or_past_shows_zero_seconds() {
    let now = SystemTime::UNIX_EPOCH + Duration::from_secs(100);
    assert_eq!(format_remaining(now, now), "0s");
    assert_eq!(format_remaining(now - Duration::from_secs(5), now), "0s");
    assert_eq!(format_remaining(now + Duration::from_millis(59_999), now), "59s");
}
