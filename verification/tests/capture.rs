use context_capture::bridge::app_name_field;
use context_capture::bridge::foreground_script;
use context_capture::bridge::url_field;
use context_capture::bridge::BridgeOutcome;
use context_capture::browser::detect_browser;
use context_capture::browser::Browser;
use context_capture::snapshot::assemble_at;
use context_capture::snapshot::capture;
use context_capture::snapshot::clipboard_field;

fn ok_output(text: &str) -> BridgeOutcome {
    BridgeOutcome { exit_success: true, stdout: Some(text.to_string()) }
}

fn failed_query() -> BridgeOutcome {
    BridgeOutcome { exit_success: false, stdout: Some(String::new()) }
}

fn unreadable_output() -> BridgeOutcome {
    BridgeOutcome { exit_success: true, stdout: None }
}

#[test]
fn plain_editor_has_no_url() {
    let c = capture(Some("hello".to_string()), ok_output("TextEdit\n"), None);
    assert_eq!(c.clipboard.as_str(), "hello");
    assert_eq!(c.app_name.as_str(), "TextEdit");
    assert!(c.url.is_none());
}

#[test]
fn safari_active_tab_url_is_reported() {
    let c = capture(
        Some("hello".to_string()),
        ok_output("Safari\n"),
        Some(ok_output("https://example.com\n")),
    );
    assert_eq!(c.app_name.as_str(), "Safari");
    assert_eq!(c.url.as_deref(), Some("https://example.com"));
}

#[test]
fn chrome_with_no_windows_has_no_url() {
    let c = capture(None, ok_output("Google Chrome\n"), Some(ok_output("")));
    assert_eq!(c.app_name.as_str(), "Google Chrome");
    assert!(c.url.is_none());
}

#[test]
fn failed_app_query_falls_back_to_unknown() {
    let c = capture(Some("x".to_string()), failed_query(), None);
    assert_eq!(c.app_name.as_str(), "Unknown");
    assert!(c.url.is_none());
}

#[test]
fn unreadable_app_output_falls_back_to_unknown() {
    let c = capture(None, unreadable_output(), None);
    assert_eq!(c.app_name.as_str(), "Unknown");
}

#[test]
fn empty_app_output_falls_back_to_unknown() {
    let c = capture(None, ok_output("  \n"), None);
    assert_eq!(c.app_name.as_str(), "Unknown");
}

#[test]
fn unreadable_clipboard_becomes_empty_string() {
    let c = capture(None, ok_output("TextEdit\n"), None);
    assert_eq!(c.clipboard.as_str(), "");
}

#[test]
fn whitespace_only_url_output_is_absent() {
    let c = capture(None, ok_output("Safari\n"), Some(ok_output("  \n ")));
    assert!(c.url.is_none());
}

#[test]
fn failed_url_query_is_absent() {
    let c = capture(None, ok_output("Safari\n"), Some(failed_query()));
    assert!(c.url.is_none());
}

#[test]
fn unreadable_url_output_is_absent() {
    let c = capture(None, ok_output("Safari\n"), Some(unreadable_output()));
    assert!(c.url.is_none());
}

#[test]
fn url_query_for_non_browser_is_ignored() {
    let c = capture(None, ok_output("TextEdit\n"), Some(ok_output("https://example.com\n")));
    assert!(c.url.is_none());
}

#[test]
fn browser_without_url_query_has_no_url() {
    let c = capture(None, ok_output("Safari\n"), None);
    assert!(c.url.is_none());
}

#[test]
fn app_name_is_trimmed() {
    let name = app_name_field(&ok_output("  Safari  \n"));
    assert_eq!(name.as_str(), "Safari");
}

#[test]
fn url_is_trimmed() {
    let url = url_field(&ok_output(" https://example.com/a?b=1 \n"));
    assert_eq!(url.as_deref(), Some("https://example.com/a?b=1"));
}

#[test]
fn clipboard_text_is_kept_verbatim() {
    let text = clipboard_field(Some("  spaced  ".to_string()));
    assert_eq!(text.as_str(), "  spaced  ");
    let empty = clipboard_field(None);
    assert_eq!(empty.as_str(), "");
}

#[test]
fn timestamp_parses_as_rfc3339_utc() {
    let c = capture(None, ok_output("TextEdit\n"), None);
    let parsed = chrono::DateTime::parse_from_rfc3339(&c.timestamp)
        .expect("timestamp must be RFC 3339 text");
    assert_eq!(parsed.offset().local_minus_utc(), 0);
}

#[test]
fn timestamps_of_successive_captures_do_not_decrease() {
    let c1 = capture(None, ok_output("TextEdit\n"), None);
    let c2 = capture(None, ok_output("TextEdit\n"), None);
    let t1 = chrono::DateTime::parse_from_rfc3339(&c1.timestamp).expect("first timestamp");
    let t2 = chrono::DateTime::parse_from_rfc3339(&c2.timestamp).expect("second timestamp");
    assert!(t1 <= t2);
}

#[test]
fn repeated_capture_with_unchanged_sources_is_stable() {
    let c1 = capture(Some("hello".to_string()), ok_output("TextEdit\n"), None);
    let c2 = capture(Some("hello".to_string()), ok_output("TextEdit\n"), None);
    assert_eq!(c1.clipboard, c2.clipboard);
    assert_eq!(c1.app_name, c2.app_name);
}

#[test]
fn assemble_at_keeps_the_given_timestamp() {
    let c = assemble_at(None, ok_output("TextEdit\n"), None, "2001-02-03T04:05:06+00:00".to_string());
    assert_eq!(c.timestamp.as_str(), "2001-02-03T04:05:06+00:00");
}

#[test]
fn detect_prefers_safari_over_chrome() {
    assert_eq!(detect_browser("Safari and Chrome"), Some(Browser::Safari));
}

#[test]
fn detect_matches_by_substring() {
    assert_eq!(detect_browser("Safari"), Some(Browser::Safari));
    assert_eq!(detect_browser("Safari Technology Preview"), Some(Browser::Safari));
    assert_eq!(detect_browser("Google Chrome"), Some(Browser::Chrome));
    assert_eq!(detect_browser("Google Chrome Beta"), Some(Browser::Chrome));
}

#[test]
fn detect_rejects_other_applications() {
    assert_eq!(detect_browser("TextEdit"), None);
    assert_eq!(detect_browser("safari"), None);
    assert_eq!(detect_browser(""), None);
}

#[test]
fn scripts_address_the_right_application() {
    assert!(Browser::Safari.script().contains("tell application \"Safari\""));
    assert!(Browser::Chrome.script().contains("tell application \"Google Chrome\""));
    assert!(Browser::Safari.script().contains("count of windows"));
    assert!(Browser::Chrome.script().contains("count of windows"));
    assert!(foreground_script().contains("System Events"));
    assert!(foreground_script().contains("frontmost"));
}

#[test]
fn markers_name_the_browsers() {
    assert_eq!(Browser::Safari.marker(), "Safari");
    assert_eq!(Browser::Chrome.marker(), "Chrome");
}
