//! Page fragments.

use agora::text::escape;
use agora::views::{ag_initial, fmt_ts, iso8601, monogram, rel_time, replies_label};

#[test]
fn formats_epoch_as_utc() {
    // 2023-11-14T22:13:20Z = 1_700_000_000 s.
    assert_eq!(fmt_ts(1_700_000_000), "2023-11-14 22:13 UTC");
    assert_eq!(iso8601(1_700_000_000), "2023-11-14T22:13:20Z");
}

#[test]
fn replies_label_pluralises() {
    assert_eq!(replies_label(1), "0 replies");
    assert_eq!(replies_label(2), "1 reply");
    assert_eq!(replies_label(4), "3 replies");
}

#[test]
fn monogram_never_carries_tone() {
    let tile = monogram("éclair@example.com");
    assert!(tile.contains('É'));
    assert!(!tile.contains("ag-tone"));
}

#[test]
fn mod_escapes_html_metacharacters() {
    assert_eq!(escape("<b>&\"'"), "&lt;b&gt;&amp;&quot;&#x27;");
}

#[test]
fn shell_escapes_html_metacharacters() {
    assert_eq!(escape("<b>&\"'"), "&lt;b&gt;&amp;&quot;&#x27;");
}

#[test]
fn a_timestamp_out_of_range_is_shown_as_it_is() {
    assert_eq!(fmt_ts(i64::MAX), i64::MAX.to_string());
}

#[test]
fn initials_are_upper_case_letters() {
    assert_eq!(ag_initial("bob"), "B");
    assert!(!rel_time(0, 59).is_empty());
}
