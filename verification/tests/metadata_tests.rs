use ftml_metadata::decimal::i32_to_string;
use ftml_metadata::decimal::u64_to_string;
use ftml_metadata::metadata::has_tag;
use ftml_metadata::metadata::render_tags;
use ftml_metadata::metadata::tags_subset;
use ftml_metadata::metadata::MetadataObject;
use ftml_metadata::metadata::User;

fn tags(names: &[&str]) -> Vec<String> {
    names.iter().map(|n| String::from(*n)).collect()
}

fn object(rating: i32, tag_names: &[&str]) -> MetadataObject {
    MetadataObject {
        url: String::from("the-little-robot-that-could"),
        title: String::from("The Little Robot that Could"),
        rating,
        tags: tags(tag_names),
    }
}

#[test]
fn equal_objects_ignore_tag_order() {
    let a = object(4, &["robot", "story", "short"]);
    let b = object(4, &["short", "robot", "story"]);
    assert!(a == b);
}

#[test]
fn equal_objects_collapse_duplicate_tags() {
    let a = object(4, &["robot", "robot", "story"]);
    let b = object(4, &["story", "robot"]);
    assert!(a == b);
}

#[test]
fn objects_differ_on_rating() {
    let a = object(4, &["robot"]);
    let b = object(-4, &["robot"]);
    assert!(a != b);
}

#[test]
fn objects_differ_on_tags() {
    let a = object(4, &["robot", "story"]);
    let b = object(4, &["robot"]);
    assert!(a != b);
}

#[test]
fn has_tag_finds_only_present_tags() {
    let ts = tags(&["robot", "story"]);
    assert!(has_tag(&ts, &String::from("robot")));
    assert!(has_tag(&ts, &String::from("story")));
    assert!(!has_tag(&ts, &String::from("rob")));
}

#[test]
fn tags_subset_checks_containment() {
    let small = tags(&["story"]);
    let big = tags(&["robot", "story"]);
    assert!(tags_subset(&small, &big));
    assert!(!tags_subset(&big, &small));
    assert!(tags_subset(&tags(&[]), &small));
}

#[test]
fn render_tags_lists_each_tag() {
    assert_eq!(render_tags(&tags(&["a", "b"])), "[ a, b,]");
    assert_eq!(render_tags(&tags(&[])), "[]");
}

#[test]
fn metadata_describe_renders_every_field() {
    let m = object(-3, &["a", "b"]);
    assert_eq!(
        m.describe(),
        "MetadataObject { url: the-little-robot-that-could, \
         title: The Little Robot that Could, rating: -3, tags: [ a, b,] }"
    );
}

#[test]
fn user_describe_renders_every_field() {
    let u = User {
        name: "alice",
        id: 7,
        avatar: String::from("cat.png"),
    };
    assert_eq!(u.describe(), "User { name: alice, id: 7, avatar: cat.png }");
}

#[test]
fn unsigned_decimal_rendering() {
    assert_eq!(u64_to_string(0), "0");
    assert_eq!(u64_to_string(7), "7");
    assert_eq!(u64_to_string(207), "207");
    assert_eq!(u64_to_string(u64::MAX), "18446744073709551615");
}

#[test]
fn signed_decimal_rendering() {
    assert_eq!(i32_to_string(0), "0");
    assert_eq!(i32_to_string(-1), "-1");
    assert_eq!(i32_to_string(2026), "2026");
    assert_eq!(i32_to_string(i32::MIN), "-2147483648");
    assert_eq!(i32_to_string(i32::MAX), "2147483647");
}
