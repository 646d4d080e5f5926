use blog_posts::date::Date;
use blog_posts::front_matter::FrontMatter;
use blog_posts::post::{
    assemble, build_post, categories_or_none, excerpt_or_empty, read_time_or_five_minutes,
    resolve_slug, Post,
};

fn bare(title: &str, date: &str) -> FrontMatter {
    FrontMatter {
        title: title.to_string(),
        date: date.to_string(),
        excerpt: None,
        categories: None,
        read_time: None,
        slug: None,
    }
}

fn complete() -> FrontMatter {
    FrontMatter {
        title: "Hello".to_string(),
        date: "2025-06-01".to_string(),
        excerpt: Some("A first post".to_string()),
        categories: Some(vec!["intro".to_string(), "rust".to_string()]),
        read_time: Some("3 min".to_string()),
        slug: Some("hello".to_string()),
    }
}

#[test]
fn defaults_fill_what_is_left_out() {
    assert_eq!(excerpt_or_empty(None), "");
    assert_eq!(categories_or_none(None), Vec::<String>::new());
    assert_eq!(read_time_or_five_minutes(None), "5 min");
}

#[test]
fn what_is_stated_is_kept() {
    assert_eq!(excerpt_or_empty(Some("text".to_string())), "text");
    assert_eq!(excerpt_or_empty(Some(String::new())), "");
    assert_eq!(categories_or_none(Some(vec!["a".to_string()])), vec!["a".to_string()]);
    assert_eq!(read_time_or_five_minutes(Some("12 min".to_string())), "12 min");
    assert_eq!(read_time_or_five_minutes(Some(String::new())), "");
}

#[test]
fn slug_of_the_front_matter_is_used() {
    assert_eq!(resolve_slug(Some("my-post".to_string()), "file-name"), "my-post");
}

#[test]
fn slug_is_not_trimmed_or_cleaned() {
    assert_eq!(resolve_slug(Some("  my post ".to_string()), "file-name"), "  my post ");
    assert_eq!(resolve_slug(Some("a/b".to_string()), "file-name"), "a/b");
}

#[test]
fn missing_slug_falls_back_to_the_file_name() {
    assert_eq!(resolve_slug(None, "file-name"), "file-name");
}

#[test]
fn blank_slug_falls_back_to_the_file_name() {
    assert_eq!(resolve_slug(Some(String::new()), "file-name"), "file-name");
    assert_eq!(resolve_slug(Some("   ".to_string()), "file-name"), "file-name");
    assert_eq!(resolve_slug(Some("\t\n".to_string()), "file-name"), "file-name");
}

#[test]
fn assemble_takes_every_field_over() {
    let date = Date::from_ymd_opt(2025, 6, 1).unwrap();
    let post = assemble(complete(), "<p>body</p>\n".to_string(), date, "file-name");
    assert_eq!(
        post,
        Post {
            title: "Hello".to_string(),
            date,
            excerpt: "A first post".to_string(),
            categories: vec!["intro".to_string(), "rust".to_string()],
            read_time: "3 min".to_string(),
            slug: "hello".to_string(),
            html: "<p>body</p>\n".to_string(),
        }
    );
}

#[test]
fn assemble_defaults_every_optional_field() {
    let post = assemble(bare("T", "2025-06-01"), String::new(), Date::epoch(), "file-name");
    assert_eq!(
        post,
        Post {
            title: "T".to_string(),
            date: Date::epoch(),
            excerpt: String::new(),
            categories: Vec::new(),
            read_time: "5 min".to_string(),
            slug: "file-name".to_string(),
            html: String::new(),
        }
    );
}

#[test]
fn build_post_renders_and_dates() {
    let post = build_post(complete(), "\n# Title\n", "file-name");
    assert_eq!(post.html, "<h1>Title</h1>\n");
    assert_eq!(post.date, Date::from_ymd_opt(2025, 6, 1).unwrap());
    assert_eq!(post.slug, "hello");
    assert_eq!(post.title, "Hello");
}

#[test]
fn build_post_with_unreadable_date_is_dated_at_the_epoch() {
    let post = build_post(bare("T", "yesterday"), "text", "file-name");
    assert_eq!(post.date, Date::epoch());
    assert_eq!(post.title, "T");
    assert_eq!(post.html, "<p>text</p>\n");
    assert_eq!(post.slug, "file-name");
}
