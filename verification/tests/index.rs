use blog_posts::date::Date;
use blog_posts::index::sort_newest_first;
use blog_posts::post::Post;

fn post(title: &str, year: i32, month: u32, day: u32) -> Post {
    Post {
        title: title.to_string(),
        date: Date::from_ymd_opt(year, month, day).unwrap(),
        excerpt: String::new(),
        categories: Vec::new(),
        read_time: "5 min".to_string(),
        slug: title.to_string(),
        html: String::new(),
    }
}

fn titles(posts: &[Post]) -> Vec<&str> {
    posts.iter().map(|post| post.title.as_str()).collect()
}

#[test]
fn newest_comes_first_and_ties_keep_their_order() {
    let posts = vec![
        post("first", 2025, 1, 1),
        post("second", 2025, 6, 1),
        post("third", 2025, 6, 1),
    ];
    let index = sort_newest_first(posts);
    assert_eq!(titles(&index), vec!["second", "third", "first"]);
}

#[test]
fn empty_and_single_stay_as_they_are() {
    assert_eq!(sort_newest_first(Vec::new()), Vec::<Post>::new());
    let one = vec![post("only", 2025, 1, 1)];
    assert_eq!(sort_newest_first(one.clone()), one);
}

#[test]
fn oldest_first_input_is_turned_round() {
    let posts = vec![
        post("a", 2023, 1, 1),
        post("b", 2024, 1, 1),
        post("c", 2025, 1, 1),
        post("d", 2025, 1, 2),
    ];
    assert_eq!(titles(&sort_newest_first(posts)), vec!["d", "c", "b", "a"]);
}

#[test]
fn newest_first_input_is_left_alone() {
    let posts = vec![post("d", 2025, 2, 1), post("c", 2025, 1, 31), post("b", 2024, 12, 31)];
    assert_eq!(sort_newest_first(posts.clone()), posts);
}

#[test]
fn posts_of_one_day_keep_their_order_among_others() {
    let posts = vec![
        post("a1", 2025, 3, 1),
        post("b1", 2025, 5, 1),
        post("a2", 2025, 3, 1),
        post("c1", 2025, 1, 1),
        post("b2", 2025, 5, 1),
        post("a3", 2025, 3, 1),
        post("c2", 2025, 1, 1),
    ];
    assert_eq!(
        titles(&sort_newest_first(posts)),
        vec!["b1", "b2", "a1", "a2", "a3", "c1", "c2"]
    );
}

#[test]
fn posts_dated_at_the_epoch_come_last() {
    let mut undated = post("undated", 1970, 1, 1);
    undated.date = Date::epoch();
    let posts = vec![undated, post("old", 1999, 12, 31), post("new", 2025, 1, 1)];
    assert_eq!(titles(&sort_newest_first(posts)), vec!["new", "old", "undated"]);
}

#[test]
fn index_agrees_with_a_stable_sort() {
    let mut posts = Vec::new();
    let mut seed: u32 = 12345;
    for n in 0..60 {
        seed = seed.wrapping_mul(1103515245).wrapping_add(12345);
        let month = 1 + (seed >> 16) % 3;
        let day = 1 + (seed >> 8) % 4;
        posts.push(post(&format!("p{}", n), 2025, month, day));
    }
    let mut expected = posts.clone();
    expected.sort_by(|a, b| b.date.cmp(&a.date));
    assert_eq!(sort_newest_first(posts), expected);
}
