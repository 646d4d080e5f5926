use blog_posts::date::Date;
use blog_posts::page::{lookup_status, reply_for, Reply, Status};
use blog_posts::post::Post;

#[test]
fn status_codes_are_those_of_http() {
    assert_eq!(Status::Found.code(), 200);
    assert_eq!(Status::NotFound.code(), 404);
    assert_eq!(Status::InternalServerError.code(), 500);
}

#[test]
fn rendered_page_goes_out_under_the_status_asked_for() {
    assert_eq!(
        reply_for(Ok("<p>hi</p>".to_string()), Status::Found),
        Reply { status: Status::Found, body: "<p>hi</p>".to_string(), html: true }
    );
    assert_eq!(
        reply_for(Ok("<p>no such post</p>".to_string()), Status::NotFound),
        Reply { status: Status::NotFound, body: "<p>no such post</p>".to_string(), html: true }
    );
}

#[test]
fn failed_template_is_an_internal_error() {
    assert_eq!(
        reply_for(Err("missing field".to_string()), Status::Found),
        Reply {
            status: Status::InternalServerError,
            body: "Template error: missing field".to_string(),
            html: false,
        }
    );
    assert_eq!(
        reply_for(Err(String::new()), Status::NotFound),
        Reply {
            status: Status::InternalServerError,
            body: "Template error: ".to_string(),
            html: false,
        }
    );
}

#[test]
fn lookup_is_found_or_not_found() {
    let post = Post {
        title: "T".to_string(),
        date: Date::epoch(),
        excerpt: String::new(),
        categories: Vec::new(),
        read_time: "5 min".to_string(),
        slug: "t".to_string(),
        html: String::new(),
    };
    assert_eq!(lookup_status(&Some(post)), Status::Found);
    assert_eq!(lookup_status(&None), Status::NotFound);
}
