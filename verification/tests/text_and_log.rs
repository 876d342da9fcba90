use glowkey::default_exclusions::Platform;
use glowkey::log::{format_line, path, previous_path, LogSize, MAX_BYTES};
use glowkey::text::{decimal_string, decode_utf16_units, encode_utf16, str_eq};
use glowkey::windows::clipboard::{lowercase, transform, uppercase, CaseTool};

#[test]
fn numbers_are_written_in_decimal() {
    assert_eq!(decimal_string(0), "0");
    assert_eq!(decimal_string(7), "7");
    assert_eq!(decimal_string(1203), "1203");
    assert_eq!(decimal_string(usize::MAX), usize::MAX.to_string());
}

#[test]
fn utf16_round_trips() {
    let units = encode_utf16("hồng 😀");
    assert_eq!(units, "hồng 😀".encode_utf16().collect::<Vec<_>>());
    let chars = decode_utf16_units(&units).expect("valid");
    assert_eq!(chars.into_iter().collect::<String>(), "hồng 😀");
    assert!(decode_utf16_units(&[0xDC00]).is_none());
    assert!(str_eq("a", "a") && !str_eq("a", "b"));
}

#[test]
fn the_log_lives_under_the_platform_directory() {
    assert_eq!(
        path(Some("/Users/an"), Platform::MacOs).as_deref(),
        Some("/Users/an/Library/Logs/GlowKey/glowkey.log")
    );
    assert_eq!(
        path(Some(r"C:\Users\an\AppData\Local\GlowKey\Logs"), Platform::Windows).as_deref(),
        Some(r"C:\Users\an\AppData\Local\GlowKey\Logs\glowkey.log")
    );
    assert_eq!(path(None, Platform::MacOs), None);
    assert_eq!(previous_path("/tmp/glowkey.log"), "/tmp/glowkey.log.1");
}

#[test]
fn a_log_line_matches_the_file_format() {
    assert_eq!(format_line(3, 1500, "KEY a"), "#3     +   1.500s  KEY a\n");
    assert_eq!(format_line(123456, 98_765_432, "x"), "#123456 +98765.432s  x\n");
    assert_eq!(format_line(0, 5, ""), "#0     +   0.005s  \n");
}

#[test]
fn the_byte_count_is_seeded_from_the_existing_file() {
    let mut size = LogSize::opened(MAX_BYTES);
    assert!(size.after_write(1, true), "an existing log counts toward the cap");
    let mut fresh = LogSize::opened(13);
    assert!(!fresh.after_write(100, true));
    assert!(!fresh.after_write(MAX_BYTES, false), "a failed write adds nothing");
}

#[test]
fn the_clipboard_tools_change_case_or_leave_it() {
    assert_eq!(uppercase(Some("việt nam")), Some("VIỆT NAM".to_string()));
    assert_eq!(lowercase(Some("ABC")), Some("abc".to_string()));
    assert_eq!(lowercase(Some("abc")), None, "an unchanged clipboard is not rewritten");
    assert_eq!(transform(None, CaseTool::Upper), None);
}
