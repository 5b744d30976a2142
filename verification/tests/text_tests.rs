use cookbook_fetch::text::{blank, join_path, push_decimal, same_text, strip_suffix};

#[test]
fn decimal_notation() {
    let mut s = String::from("n=");
    push_decimal(&mut s, 0);
    assert_eq!(s, "n=0");
    let mut s = String::new();
    push_decimal(&mut s, 1234567890);
    assert_eq!(s, "1234567890");
    let mut s = String::new();
    push_decimal(&mut s, u64::MAX);
    assert_eq!(s, u64::MAX.to_string());
}

#[test]
fn joining_paths() {
    assert_eq!(join_path("build/remotes", "a.toml"), "build/remotes/a.toml");
    assert_eq!(join_path("build/remotes", "/abs/a.toml"), "/abs/a.toml");
    assert_eq!(join_path("build/remotes", ""), "build/remotes/");
}

#[test]
fn suffixes_and_blanks() {
    assert_eq!(strip_suffix("a/index.json", "/index.json"), Some("a".to_string()));
    assert_eq!(strip_suffix("/index.json", "/index.json"), Some(String::new()));
    assert_eq!(strip_suffix("index.json", "/index.json"), None);
    assert_eq!(strip_suffix("é/index.json", "/index.json"), Some("é".to_string()));
    assert!(blank(""));
    assert!(blank(" \u{2028}\r"));
    assert!(!blank(" a "));
    assert!(same_text("ab", "ab"));
    assert!(!same_text("ab", "abc"));
}
