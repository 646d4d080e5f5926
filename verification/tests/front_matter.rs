use blog_posts::front_matter::{read_front_matter, FrontMatter, Reading};
use gray_matter::Pod;

fn text(value: &str) -> Pod {
    Pod::String(value.to_string())
}

fn table(entries: Vec<(&str, Pod)>) -> Pod {
    let mut pod = Pod::new_hash();
    for (key, value) in entries {
        pod.insert(key.to_string(), value).unwrap();
    }
    pod
}

fn complete() -> Vec<(&'static str, Pod)> {
    vec![
        ("title", text("Hello")),
        ("date", text("2025-06-01")),
        ("excerpt", text("A first post")),
        ("categories", Pod::Array(vec![text("intro"), text("rust")])),
        ("read_time", text("3 min")),
        ("slug", text("hello")),
    ]
}

fn without(key: &str) -> Pod {
    table(complete().into_iter().filter(|entry| entry.0 != key).collect())
}

fn with(key: &'static str, value: Pod) -> Pod {
    let mut entries: Vec<(&str, Pod)> = complete().into_iter().filter(|entry| entry.0 != key).collect();
    entries.push((key, value));
    table(entries)
}

#[test]
fn complete_front_matter_is_read_as_written() {
    let front = read_front_matter(&table(complete())).unwrap();
    assert_eq!(
        front,
        FrontMatter {
            title: "Hello".to_string(),
            date: "2025-06-01".to_string(),
            excerpt: Some("A first post".to_string()),
            categories: Some(vec!["intro".to_string(), "rust".to_string()]),
            read_time: Some("3 min".to_string()),
            slug: Some("hello".to_string()),
        }
    );
}

#[test]
fn title_and_date_alone_are_enough() {
    let front = read_front_matter(&table(vec![("title", text("T")), ("date", text("D"))])).unwrap();
    assert_eq!(
        front,
        FrontMatter {
            title: "T".to_string(),
            date: "D".to_string(),
            excerpt: None,
            categories: None,
            read_time: None,
            slug: None,
        }
    );
}

#[test]
fn missing_title_gives_no_front_matter() {
    assert_eq!(read_front_matter(&without("title")), None);
}

#[test]
fn missing_date_gives_no_front_matter() {
    assert_eq!(read_front_matter(&without("date")), None);
}

#[test]
fn each_optional_field_may_be_left_out() {
    assert_eq!(read_front_matter(&without("excerpt")).unwrap().excerpt, None);
    assert_eq!(read_front_matter(&without("categories")).unwrap().categories, None);
    assert_eq!(read_front_matter(&without("read_time")).unwrap().read_time, None);
    assert_eq!(read_front_matter(&without("slug")).unwrap().slug, None);
}

#[test]
fn null_optional_field_counts_as_left_out() {
    assert_eq!(read_front_matter(&with("excerpt", Pod::Null)).unwrap().excerpt, None);
    assert_eq!(read_front_matter(&with("categories", Pod::Null)).unwrap().categories, None);
    assert_eq!(read_front_matter(&with("read_time", Pod::Null)).unwrap().read_time, None);
    assert_eq!(read_front_matter(&with("slug", Pod::Null)).unwrap().slug, None);
}

#[test]
fn null_required_field_gives_no_front_matter() {
    assert_eq!(read_front_matter(&with("title", Pod::Null)), None);
    assert_eq!(read_front_matter(&with("date", Pod::Null)), None);
}

#[test]
fn field_of_the_wrong_kind_gives_no_front_matter() {
    assert_eq!(read_front_matter(&with("title", Pod::Integer(42))), None);
    assert_eq!(read_front_matter(&with("date", Pod::Integer(2025))), None);
    assert_eq!(read_front_matter(&with("excerpt", Pod::Boolean(true))), None);
    assert_eq!(read_front_matter(&with("read_time", Pod::Integer(3))), None);
    assert_eq!(read_front_matter(&with("slug", Pod::Array(vec![text("a")]))), None);
    assert_eq!(read_front_matter(&with("categories", text("intro"))), None);
    assert_eq!(read_front_matter(&with("categories", Pod::new_hash())), None);
}

#[test]
fn categories_must_all_be_text() {
    let mixed = Pod::Array(vec![text("intro"), Pod::Integer(1)]);
    assert_eq!(read_front_matter(&with("categories", mixed)), None);
    let nulled = Pod::Array(vec![Pod::Null]);
    assert_eq!(read_front_matter(&with("categories", nulled)), None);
}

#[test]
fn empty_categories_are_an_empty_list() {
    let front = read_front_matter(&with("categories", Pod::new_array())).unwrap();
    assert_eq!(front.categories, Some(Vec::<String>::new()));
}

#[test]
fn categories_keep_their_order() {
    let list = Pod::Array(vec![text("c"), text("a"), text("b"), text("a")]);
    let front = read_front_matter(&with("categories", list)).unwrap();
    assert_eq!(
        front.categories,
        Some(vec!["c".to_string(), "a".to_string(), "b".to_string(), "a".to_string()])
    );
}

#[test]
fn other_keys_are_not_looked_at() {
    let mut entries = complete();
    entries.push(("category", text("legacy")));
    entries.push(("draft", Pod::Boolean(true)));
    entries.push(("weight", Pod::Integer(7)));
    let front = read_front_matter(&table(entries)).unwrap();
    assert_eq!(front.title, "Hello");
    assert_eq!(front.categories, Some(vec!["intro".to_string(), "rust".to_string()]));
}

#[test]
fn metadata_that_is_no_table_gives_no_front_matter() {
    assert_eq!(read_front_matter(&Pod::Null), None);
    assert_eq!(read_front_matter(&text("title: Hello")), None);
    assert_eq!(read_front_matter(&Pod::Integer(1)), None);
    assert_eq!(read_front_matter(&Pod::Array(vec![text("title")])), None);
    assert_eq!(read_front_matter(&Pod::new_hash()), None);
}

#[test]
fn empty_texts_are_kept() {
    let front = read_front_matter(&table(vec![
        ("title", text("")),
        ("date", text("")),
        ("slug", text("")),
    ]))
    .unwrap();
    assert_eq!(front.title, "");
    assert_eq!(front.date, "");
    assert_eq!(front.slug, Some(String::new()));
}

#[test]
fn reading_into_option_keeps_what_was_given() {
    assert_eq!(Reading::Given(5).into_option(), Some(5));
    assert_eq!(Reading::<i32>::Absent.into_option(), None);
    assert_eq!(Reading::<i32>::Unfit.into_option(), None);
}
