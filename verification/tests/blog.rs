use website::blog::{blog_index_path, blog_page, blog_source_path, render_markdown};
use website::pages::{ServerError, MOTD};

#[test]
fn absolute_paths_are_refused() {
    assert_eq!(blog_source_path("/etc/passwd").unwrap_err(), ServerError::AbsoluteBlogPath);
    assert_eq!(blog_source_path("/").unwrap_err(), ServerError::AbsoluteBlogPath);
}

#[test]
fn directory_paths_read_index() {
    assert_eq!(blog_source_path("notes/").unwrap(), "./blog/notes/index.md");
}

#[test]
fn post_paths_get_md_extension() {
    assert_eq!(blog_source_path("post").unwrap(), "./blog/post.md");
    assert_eq!(blog_source_path("2024/trip.txt").unwrap(), "./blog/2024/trip.md");
    assert_eq!(blog_source_path(blog_index_path()).unwrap(), "./blog/index.md");
}

#[test]
fn markdown_renders() {
    assert_eq!(render_markdown("**Hello**").unwrap(), "<p><strong>Hello</strong></p>\n");
    let page = blog_page("# Title").unwrap();
    assert!(MOTD.contains(&page.motd));
    assert!(page.markdown.contains("Title"));
    assert!(page.markdown.contains("<h1"));
}
