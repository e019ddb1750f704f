use swaybar::handlers::{battery, volume, wifi};
use swaybar::strutil::{contains_str, remove_char, split_char, str_ends_with, trim_spaces};

#[test]
fn battery_fields_are_cleaned() {
    let m = battery::probe_fields("\"80\"\n", " Not charging \n");
    assert_eq!(m.get("capacity").unwrap(), "80");
    // Trimmed, lowercased by the real std call, spaces removed: if the
    // lowercase wrapper handed its argument back, this would fail.
    assert_eq!(m.get("status").unwrap(), "notcharging");
    assert_eq!(battery::render(&m), "\u{1f50c} 80%");
}

#[test]
fn wifi_interface_is_sixth_line_last_token() {
    let out = "phy#0\n\tUnnamed device\n\ttype managed\n\taddr 00:11\n\tchannel 36\n\tInterface wlan0\nrest";
    assert_eq!(wifi::parse_interface(out).unwrap(), "wlan0");
    assert_eq!(wifi::parse_interface("one\ntwo\nthree"), None);
}

#[test]
fn wifi_connection_status_by_report() {
    let m = wifi::connection_fields("Connected to aa:bb:cc (on wlan0)");
    assert_eq!(m.get("connect_status").unwrap(), "connected");
    assert_eq!(wifi::render(&m), "\u{1f4f6}");
    let m = wifi::connection_fields("Not connected.");
    assert_eq!(m.get("connect_status").unwrap(), "disconnected");
    assert_eq!(wifi::render(&m), "\u{274c}");
}

#[test]
fn volume_fields_from_sink_reports() {
    // The sixth token is a slash, so the fifth carries the level.
    let vol = "Volume: front-left: 39322 / 60% / -13.31 dB";
    let m = volume::probe_fields(vol, "Mute: no\n").unwrap();
    assert_eq!(m.get("volume_level").unwrap(), "60");
    assert_eq!(m.get("is_muted").unwrap(), "not muted");
    assert_eq!(volume::render(&m), "\u{1f509}60%");

    let m = volume::probe_fields(vol, "Mute: yes\n").unwrap();
    assert_eq!(m.get("is_muted").unwrap(), "muted");
    assert_eq!(volume::render(&m), "\u{1f507}60%");

    // The sixth token carries the level itself.
    let vol = "Volume: front-left: x y 50 70%";
    let m = volume::probe_fields(vol, "Mute: no").unwrap();
    assert_eq!(m.get("volume_level").unwrap(), "70");

    // Too few tokens: no fields.
    assert!(volume::probe_fields("Volume: 60%", "Mute: no").is_none());
}

#[test]
fn string_cleaners() {
    assert_eq!(trim_spaces("  a b \n\t"), "a b");
    assert_eq!(trim_spaces(""), "");
    assert_eq!(trim_spaces(" \n "), "");
    assert_eq!(remove_char("a%b%%c", '%'), "abc");
    assert_eq!(remove_char("", '%'), "");
    assert_eq!(split_char("a b", ' '), vec!["a", "b"]);
    assert_eq!(split_char(" a  b ", ' '), vec!["", "a", "", "b", ""]);
    assert_eq!(split_char("", ' '), vec![""]);
    assert!(contains_str("Not connected.", "connected"));
    assert!(!contains_str("Not connected.", "Connected"));
    assert!(contains_str("abc", ""));
    assert!(!contains_str("ab", "abc"));
    assert!(str_ends_with("photo.png", ".png"));
    assert!(!str_ends_with("png", ".png"));
}
