use speedy_transform::speedy_macro::{drawstring, rs_fn_parser, speedydebug, DEBUG_TEMPLATE};

fn pieces(s: &str) -> Vec<String> {
    s.chars().map(|c| c.to_string()).collect()
}

#[test]
fn drawstring_between_markers() {
    let list = pieces("pub fn add(a: i32) -> i32 { a }");
    assert_eq!(drawstring(&list, Some("fn"), Some("{")), " add(a: i32) -> i32 ");
}

#[test]
fn drawstring_without_begin_stops_before_end() {
    let list = pieces("add(a: i32)");
    assert_eq!(drawstring(&list, None, Some("(")), "add");
}

#[test]
fn drawstring_without_end_runs_to_the_end() {
    let list = pieces("fn f() { x }");
    assert_eq!(drawstring(&list, Some("{"), None), " x }");
}

#[test]
fn drawstring_end_before_begin_gives_nothing() {
    let list = pieces("fn f() { x }");
    assert_eq!(drawstring(&list, Some("->"), Some("{")), "");
}

#[test]
fn drawstring_begin_never_found_gives_nothing() {
    let list = pieces("abc");
    assert_eq!(drawstring(&list, Some("z"), None), "");
}

#[test]
fn drawstring_no_markers_gives_everything() {
    let list = pieces("abc");
    assert_eq!(drawstring(&list, None, None), "abc");
}

#[test]
fn drawstring_multi_char_pieces() {
    let list = vec!["ab".to_string(), "cd".to_string(), "ef".to_string(), "gh".to_string()];
    // "abcd" holds "c": the text starts after the second piece; "ef" holds "f".
    assert_eq!(drawstring(&list, Some("c"), Some("f")), "");
    assert_eq!(drawstring(&list, Some("c"), Some("h")), "ef");
}

#[test]
fn rs_fn_parser_with_return_type() {
    let (name, args, content, res, mac) = rs_fn_parser("pub fn add(a: i32) -> i32 { a }");
    assert_eq!(name, "add");
    assert_eq!(args, "a: i32");
    assert_eq!(content, "a ");
    assert_eq!(res, " -> i32");
    assert_eq!(mac, "pub ");
}

#[test]
fn rs_fn_parser_without_return_type() {
    let (name, args, content, res, mac) = rs_fn_parser("fn go(x: u8, y: u8) { run(x, y); }");
    assert_eq!(name, "go");
    assert_eq!(args, "x: u8, y: u8");
    assert_eq!(content, "run(x, y); ");
    assert_eq!(res, "");
    assert_eq!(mac, "");
}

#[test]
fn speedydebug_rebuilds_function() {
    let out = speedydebug("fn debugmacro(num : i32, txt : & str) -> i32 { num }");
    let expected_body = DEBUG_TEMPLATE.replace("@@@", "(\"debugmacro\",&num,&txt)");
    let expected = format!("{}{}{}", " fn debugmacro(num : i32, txt : & str) -> i32{", expected_body, "num }");
    assert_eq!(out, expected);
    assert!(out.contains("let args = (\"debugmacro\",&num,&txt);"));
}

#[test]
fn speedydebug_without_arguments() {
    let out = speedydebug("pub fn f() { 1 }");
    assert!(out.starts_with("pub  fn f(){"));
    assert!(out.contains("let args = (\"f\",);"));
    assert!(out.ends_with("1 }"));
}

#[test]
fn drawstring_empty_begin_marker_skips_first_piece() {
    let list = pieces("abc");
    assert_eq!(drawstring(&list, Some(""), None), "bc");
}
