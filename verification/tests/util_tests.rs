use swaybar::fields::FieldMap;
use swaybar::handlers::bg_changer::{is_image_name, pick_wallpaper};
use swaybar::handlers::quote::{build_prompt, pick_random_line};
use swaybar::numfmt::{num2, pad2, parse_i32};
use swaybar::persist::PersistGate;
use swaybar::str_eq;
use swaybar::types::Meta;

#[test]
fn parse_i32_accepts_signed_decimals() {
    assert_eq!(parse_i32("0"), Some(0));
    assert_eq!(parse_i32("42"), Some(42));
    assert_eq!(parse_i32("+42"), Some(42));
    assert_eq!(parse_i32("-42"), Some(-42));
    assert_eq!(parse_i32("007"), Some(7));
    assert_eq!(parse_i32("2147483647"), Some(i32::MAX));
    assert_eq!(parse_i32("-2147483648"), Some(i32::MIN));
}

#[test]
fn parse_i32_rejects_what_std_rejects() {
    for s in ["", "+", "-", "12a", "a12", "1 2", " 12", "12 ", "--5", "1.5", "2147483648",
        "-2147483649", "99999999999999999999"] {
        assert_eq!(parse_i32(s), s.parse::<i32>().ok(), "input {:?}", s);
    }
    // And it agrees with std on what it accepts.
    for s in ["0", "42", "+42", "-42", "007", "2147483647", "-2147483648"] {
        assert_eq!(parse_i32(s), s.parse::<i32>().ok(), "input {:?}", s);
    }
}

#[test]
fn two_digit_formatting() {
    assert_eq!(pad2(0), "00");
    assert_eq!(pad2(7), "07");
    assert_eq!(pad2(59), "59");
    assert_eq!(num2(7), "7");
    assert_eq!(num2(31), "31");
}

#[test]
fn str_eq_compares_by_characters() {
    assert!(str_eq("", ""));
    assert!(str_eq("abc", "abc"));
    assert!(!str_eq("abc", "abd"));
    assert!(!str_eq("abc", "ab"));
    assert!(str_eq("\u{1f50b} 80%", "\u{1f50b} 80%"));
}

#[test]
fn image_names_by_suffix() {
    assert!(is_image_name("a.jpg"));
    assert!(is_image_name("b.jpeg"));
    assert!(is_image_name("c.png"));
    assert!(!is_image_name("c.gif"));
    assert!(!is_image_name("png"));
    assert!(!is_image_name(""));
    assert!(is_image_name("weird.name.png"));
}

#[test]
fn field_map_insert_get_and_overwrite() {
    let mut m = FieldMap::new();
    assert!(m.get("k").is_none());
    m.insert("k".to_string(), "1".to_string());
    m.insert("other".to_string(), "x".to_string());
    assert_eq!(m.get("k").unwrap(), "1");
    m.insert("k".to_string(), "2".to_string());
    assert_eq!(m.get("k").unwrap(), "2");
    assert_eq!(m.len(), 2);
}

#[test]
fn field_map_extend_prefers_incoming() {
    let mut a = FieldMap::new();
    a.insert("keep".to_string(), "old".to_string());
    a.insert("swap".to_string(), "old".to_string());
    let mut b = FieldMap::new();
    b.insert("swap".to_string(), "new".to_string());
    b.insert("add".to_string(), "new".to_string());
    a.extend(b);
    assert_eq!(a.get("keep").unwrap(), "old");
    assert_eq!(a.get("swap").unwrap(), "new");
    assert_eq!(a.get("add").unwrap(), "new");
    assert_eq!(a.len(), 3);
}

#[test]
fn field_map_pairs_walk_the_entries() {
    let mut m = FieldMap::new();
    m.insert("a".to_string(), "1".to_string());
    m.insert("b".to_string(), "2".to_string());
    let mut seen = Vec::new();
    for i in 0..m.len() {
        let (k, v) = m.pair_at(i);
        seen.push((k.clone(), v.clone()));
    }
    seen.sort();
    assert_eq!(seen, vec![("a".to_string(), "1".to_string()), ("b".to_string(), "2".to_string())]);
}

#[test]
fn persist_gate_admits_every_nth() {
    let mut gate = PersistGate::new(3);
    let mut written = Vec::new();
    for _ in 0..7 {
        written.push(gate.should_write());
    }
    assert_eq!(written, vec![true, false, false, true, false, false, true]);
    let mut gate = PersistGate::new(1);
    assert!(gate.should_write());
    assert!(gate.should_write());
}

#[test]
fn pick_random_line_is_none_only_when_empty() {
    let empty: Vec<String> = Vec::new();
    assert!(pick_random_line(&empty).is_none());
    let one = vec!["only".to_string()];
    assert_eq!(pick_random_line(&one).unwrap(), "only");
    let lines = vec!["a".to_string(), "b".to_string(), "c".to_string()];
    for _ in 0..20 {
        let picked = pick_random_line(&lines).unwrap();
        assert!(lines.contains(&picked));
    }
}

#[test]
fn prompt_wraps_the_topic_twice() {
    assert_eq!(
        build_prompt("ducks"),
        "Give me a very short inspirational quote about ducks \
         with a fictional author with a pun about ducks"
    );
}

#[test]
fn idle_meta_is_fresh() {
    let m = Meta::idle();
    assert!(!m.is_processing);
    assert_eq!(m.start_time, 0);
    assert_eq!(m.data.len(), 0);
}

#[test]
fn field_map_from_pairs_last_wins() {
    let m = FieldMap::from_pairs(vec![
        ("a".to_string(), "1".to_string()),
        ("b".to_string(), "2".to_string()),
        ("a".to_string(), "3".to_string()),
    ]);
    assert_eq!(m.get("a").unwrap(), "3");
    assert_eq!(m.get("b").unwrap(), "2");
    assert_eq!(m.len(), 2);
}

#[test]
fn pick_wallpaper_only_images() {
    let names: Vec<String> = Vec::new();
    assert!(pick_wallpaper(&names).is_none());
    let names = vec!["notes.txt".to_string(), "a.log".to_string()];
    assert!(pick_wallpaper(&names).is_none());
    let names = vec![
        "notes.txt".to_string(),
        "sunset.jpg".to_string(),
        "hill.png".to_string(),
    ];
    for _ in 0..20 {
        let chosen = pick_wallpaper(&names).unwrap();
        assert!(chosen == "sunset.jpg" || chosen == "hill.png");
    }
}
