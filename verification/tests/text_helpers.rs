use fresh::text::{trim_chars, push_decimal, str_less, chars_of, string_from_chars};
use fresh::query::{find_position, contains_name};

#[test]
fn trimming_whitespace() {
    let cs: Vec<char> = " \t a b \n".chars().collect();
    assert_eq!(trim_chars(&cs), vec!['a', ' ', 'b']);
    assert!(trim_chars(&[' ', ' ']).is_empty());
}

#[test]
fn decimals_and_order() {
    let mut s = "n=".to_string();
    push_decimal(&mut s, 1207);
    assert_eq!(s, "n=1207");
    let mut z = String::new();
    push_decimal(&mut z, 0);
    assert_eq!(z, "0");
    assert!(str_less("apple", "banana"));
    assert!(str_less("ab", "abc"));
    assert!(!str_less("b", "b"));
    assert_eq!(string_from_chars(&chars_of("héllo")), "héllo");
}

#[test]
fn column_lookup() {
    let names = vec!["a".to_string(), "b".to_string(), "a".to_string()];
    assert_eq!(find_position(&names, "a"), Some(0));
    assert_eq!(find_position(&names, "b"), Some(1));
    assert_eq!(find_position(&names, "c"), None);
    assert!(contains_name(&names, "b"));
}

#[test]
fn unicode_whitespace_is_trimmed() {
    let cs: Vec<char> = "\u{3000}\u{85}x\u{a0}y\u{2029}".chars().collect();
    assert_eq!(trim_chars(&cs), vec!['x', '\u{a0}', 'y']);
    let kept: Vec<char> = "\u{200b}x\u{180e}".chars().collect();
    assert_eq!(trim_chars(&kept), kept);
}

#[test]
fn string_equality_and_numbers() {
    assert!(fresh::text::str_eq("abc", "abc"));
    assert!(!fresh::text::str_eq("abc", "abd"));
    assert!(!fresh::text::str_eq("ab", "abc"));
    assert!(fresh::text::str_eq("", ""));
    assert!(fresh::text::is_number_text("3.5e-2"));
    assert!(!fresh::text::is_number_text("3.5e"));
    assert_eq!(fresh::text::joined3("a", "-", "b"), "a-b");
}
