use speedy_transform::str_ext::StringExtend;

#[test]
fn compare_handle_removes_spaces_and_newlines() {
    let s = String::from("  import a from 'b';\n  const x = 1;\n");
    assert_eq!(s.compare_handle(), "importafrom'b';constx=1;");
}

#[test]
fn compare_handle_trims_other_whitespace() {
    let s = String::from("\t a b \t\r");
    assert_eq!(s.compare_handle(), "ab");
}

#[test]
fn compare_handle_keeps_inner_tabs() {
    let s = String::from("a\tb\nc");
    assert_eq!(s.compare_handle(), "a\tbc");
}

#[test]
fn compare_handle_is_idempotent_on_example() {
    let s = String::from(" \t x \n y \r\n");
    let once = s.compare_handle();
    let twice = once.compare_handle();
    assert_eq!(once, twice);
    assert_eq!(once, "xy");
}

#[test]
fn compare_handle_empty() {
    assert_eq!(String::new().compare_handle(), "");
    assert_eq!(String::from(" \n \n").compare_handle(), "");
}

#[test]
fn compare_handle_trims_unicode_whitespace() {
    let s = String::from("\u{3000}a b\u{a0}");
    assert_eq!(s.compare_handle(), "ab");
}

#[test]
fn compare_handle_trims_every_white_space_code_point() {
    let s = String::from("\u{85}\u{1680}\u{2000}\u{200a}\u{2028}\u{2029}\u{202f}\u{205f}x\u{9}\u{d}\u{b}\u{c}");
    assert_eq!(s.compare_handle(), "x");
    let kept = String::from("\u{200b}x\u{feff}");
    assert_eq!(kept.compare_handle(), "\u{200b}x\u{feff}");
}
