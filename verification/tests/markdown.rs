use blog_posts::markdown::render_body;

#[test]
fn heading_and_paragraph_are_rendered() {
    assert_eq!(render_body("# Hello"), "<h1>Hello</h1>\n");
    assert_eq!(render_body("Some *text*."), "<p>Some <em>text</em>.</p>\n");
}

#[test]
fn body_is_trimmed_before_rendering() {
    assert_eq!(render_body("\n\n  # Hello  \n\n"), "<h1>Hello</h1>\n");
    // Four leading spaces would make a code block if they were kept.
    assert_eq!(render_body("    plain"), "<p>plain</p>\n");
}

#[test]
fn empty_body_renders_to_nothing() {
    assert_eq!(render_body(""), "");
    assert_eq!(render_body(" \n "), "");
}

#[test]
fn strikethrough_is_enabled() {
    assert_eq!(render_body("~~gone~~"), "<p><del>gone</del></p>\n");
}

#[test]
fn tables_are_enabled() {
    let html = render_body("| a | b |\n|---|---|\n| 1 | 2 |");
    assert_eq!(
        html,
        "<table><thead><tr><th>a</th><th>b</th></tr></thead><tbody>\n<tr><td>1</td><td>2</td></tr>\n</tbody></table>\n"
    );
}

#[test]
fn other_extensions_stay_off() {
    // Task lists are not enabled: the marker stays as text.
    assert_eq!(render_body("- [ ] todo"), "<ul>\n<li>[ ] todo</li>\n</ul>\n");
}

#[test]
fn raw_html_is_passed_through() {
    assert_eq!(render_body("<b>bold</b> text"), "<p><b>bold</b> text</p>\n");
}

#[test]
fn rendering_twice_gives_the_same_html() {
    let body = "# Title\n\nA paragraph with ~~old~~ *new* text.\n\n| x | y |\n|---|---|\n| 1 | 2 |\n";
    let first = render_body(body);
    let second = render_body(body);
    assert_eq!(first, second);
    assert_eq!(first.as_bytes(), second.as_bytes());
}
