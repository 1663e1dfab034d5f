use webplay::render::render_video_page;
use webplay::search::find_first;
use webplay::search::replace_first;
use webplay::search::str_eq;

const PLACEHOLDER: &str = "<video id=\"videoPlayer\" preload=\"metadata\"></video>";

fn video_template() -> String {
    format!("<html><body>{}</body></html>", PLACEHOLDER)
}

#[test]
fn renders_url_into_video_element() {
    let template = video_template();
    let rendered = render_video_page(&template, "http://example.com/a.mp4");
    assert_eq!(
        rendered,
        "<html><body><video id=\"videoPlayer\" src=\"http://example.com/a.mp4\" \
         preload=\"metadata\"></video></body></html>"
    );
}

#[test]
fn rendered_page_contains_exact_src_attribute() {
    let template = video_template();
    let rendered = render_video_page(&template, "http://example.com/a.mp4");
    assert!(rendered.contains("src=\"http://example.com/a.mp4\""));
}

#[test]
fn renders_empty_url() {
    let template = video_template();
    let rendered = render_video_page(&template, "");
    assert_eq!(
        rendered,
        "<html><body><video id=\"videoPlayer\" src=\"\" preload=\"metadata\"></video></body></html>"
    );
}

#[test]
fn renders_url_with_markup_characters_unescaped() {
    let template = video_template();
    let rendered = render_video_page(&template, "a\"<b>&c");
    assert_eq!(
        rendered,
        "<html><body><video id=\"videoPlayer\" src=\"a\"<b>&c\" \
         preload=\"metadata\"></video></body></html>"
    );
}

#[test]
fn rendering_twice_gives_the_same_document() {
    let template = video_template();
    let first = render_video_page(&template, "http://example.com/a.mp4");
    let second = render_video_page(&template, "http://example.com/a.mp4");
    assert_eq!(first, second);
}

#[test]
fn missing_placeholder_returns_template_unchanged() {
    let template = "<html><body>no player here</body></html>";
    let rendered = render_video_page(template, "http://example.com/a.mp4");
    assert_eq!(rendered, template);
}

#[test]
fn replaces_only_the_first_occurrence() {
    let replaced = replace_first("abcabc", "abc", "x");
    assert_eq!(replaced, "xabc");
}

#[test]
fn replace_without_occurrence_is_identity() {
    let replaced = replace_first("abcabc", "zzz", "x");
    assert_eq!(replaced, "abcabc");
}

#[test]
fn find_first_returns_least_index() {
    assert_eq!(find_first("abcabc", "bc"), Some(1));
    assert_eq!(find_first("abcabc", "zzz"), None);
    assert_eq!(find_first("abc", ""), Some(0));
}

#[test]
fn str_eq_compares_contents() {
    assert!(str_eq("abc", "abc"));
    assert!(!str_eq("abc", "abd"));
    assert!(!str_eq("abc", "ab"));
    assert!(str_eq("", ""));
}
