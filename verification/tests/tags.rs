use std::collections::HashMap;

use zoomies::tags::render_tags;
use zoomies::{DatagramFormat, Renderable, Tag};

#[test]
fn test_empty_tag() {
    let timber_resources: HashMap<&str, i32> = [].iter().cloned().collect();
    assert_eq!(timber_resources.format(), String::new());
}

#[test]
fn test_single_tag() {
    let timber_resources: HashMap<&str, i32> = [("Norway", 100)].iter().cloned().collect();
    assert_eq!(timber_resources.format(), "|#Norway:100");
}

#[test]
fn multiple_tags_in_a_map_come_in_some_order() {
    let timber_resources: HashMap<&str, i32> =
        [("Norway", 100), ("Denmark", 50), ("Iceland", 10)].iter().cloned().collect();
    let text = timber_resources.format();
    let rest = text.strip_prefix("|#").unwrap();
    let mut tags: Vec<&str> = rest.split(',').collect();
    tags.sort();
    assert_eq!(tags, vec!["Denmark:50", "Iceland:10", "Norway:100"]);
}

#[test]
fn multiple_tags_in_a_sequence_keep_their_order() {
    let timber_resources = vec![("Norway", 100), ("Denmark", 50)];
    assert_eq!(timber_resources.format(), "|#Norway:100,Denmark:50");
    let timber_resources = [("Norway", 100), ("Denmark", 50), ("Iceland", 10)];
    assert_eq!(render_tags(&timber_resources), "|#Norway:100,Denmark:50,Iceland:10");
}

#[test]
fn no_tags_in_a_sequence() {
    let none: Vec<(String, u8)> = Vec::new();
    assert_eq!(none.format(), "");
    assert_eq!(render_tags(&none), "");
}

#[test]
fn duplicate_keys_pass_through() {
    assert_eq!(render_tags(&[("a", 1), ("a", 1), ("a", 2)]), "|#a:1,a:1,a:2");
}

#[test]
fn nothing_in_a_tag_is_escaped() {
    assert_eq!(render_tags(&[("a:b", "c,d"), ("e|f", "g#h")]), "|#a:b:c,d,e|f:g#h");
    assert_eq!(render_tags(&[("k", "v,")]), "|#k:v,");
    assert_eq!(render_tags(&[("", "")]), "|#:");
}

#[test]
fn keys_and_values_of_any_text_form() {
    assert_eq!(render_tags(&[(7u64, "x".to_string())]), "|#7:x");
    assert_eq!(render_tags(&[(-7i64, i128::MIN)]), "|#-7:-170141183460469231731687303715884105728");
}

#[test]
fn one_tag_written_to_a_buffer() {
    let mut buf = String::from("abc");
    ("Norway", 100).write(&mut buf);
    assert_eq!(buf, "abcNorway:100");
}

#[test]
fn text_forms() {
    let mut buf = String::new();
    "ab".render_into(&mut buf);
    "cd".to_string().render_into(&mut buf);
    0u8.render_into(&mut buf);
    (-1i8).render_into(&mut buf);
    assert_eq!(buf, "abcd0-1");
}
