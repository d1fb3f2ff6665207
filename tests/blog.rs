use yggdrasil::blog::{choose_post, render_post, BlogError, BlogPost};

fn posts(names: &[&str]) -> Vec<BlogPost> {
    names
        .iter()
        .map(|n| BlogPost { path: format!("blog/content/{}", n), file_name: n.to_string() })
        .collect()
}

#[test]
fn no_posts_is_an_error_even_with_selection() {
    assert_eq!(choose_post(&Vec::new(), None).err(), Some(BlogError::NoPosts));
    assert_eq!(choose_post(&Vec::new(), Some("a")).err(), Some(BlogError::NoPosts));
}

#[test]
fn without_selection_the_newest_post_is_shown() {
    let p = posts(&["2021-a.md", "2022-b.md", "2023-c.md"]);
    let c = choose_post(&p, None).unwrap();
    assert_eq!(c.index, 2);
    assert_eq!(c.path, "blog/content/2023-c.md");
    assert_eq!(c.previous.as_deref(), Some("2022-b.md"));
    assert_eq!(c.next, None);
}

#[test]
fn single_post_has_no_neighbours() {
    let p = posts(&["only.md"]);
    let c = choose_post(&p, None).unwrap();
    assert_eq!(c.index, 0);
    assert_eq!(c.previous, None);
    assert_eq!(c.next, None);
}

#[test]
fn selection_picks_first_matching_path() {
    let p = posts(&["2021-a.md", "2022-b.md", "2022-bb.md", "2023-c.md"]);
    let c = choose_post(&p, Some("2022-b")).unwrap();
    assert_eq!(c.index, 1);
    assert_eq!(c.previous.as_deref(), Some("2021-a.md"));
    assert_eq!(c.next.as_deref(), Some("2022-bb.md"));
    let first = choose_post(&p, Some("2021")).unwrap();
    assert_eq!(first.index, 0);
    assert_eq!(first.previous, None);
}

#[test]
fn unknown_selection_is_not_found() {
    let p = posts(&["2021-a.md"]);
    assert_eq!(choose_post(&p, Some("2099")).err(), Some(BlogError::NotFound));
}

#[test]
fn rendering_produces_sanitized_html() {
    let c = render_post("# Title\n\n<script>alert(1)</script>hello", Some(String::from("p.md")), None);
    assert!(c.markup.contains("<h1>Title</h1>"));
    assert!(!c.markup.contains("<script>"));
    assert!(c.markup.contains("hello"));
    assert_eq!(c.previous.as_deref(), Some("p.md"));
    assert_eq!(c.next, None);
}

#[test]
fn rendering_changes_the_text() {
    let c = render_post("*em*", None, None);
    assert_ne!(c.markup, "*em*");
    assert!(c.markup.contains("<em>em</em>"));
}
