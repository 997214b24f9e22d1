//! The blog: where a post's Markdown is read from, and the page made from it.
use vstd::prelude::*;

use std::path::{Path, PathBuf};

use ferromark::ParseError;

use crate::pages::{motd, ServerError, MOTD};
use crate::text::{chars_of, ends_with, has_suffix};

verus! {

/// `ferromark::ParseError`, the error of a Markdown conversion; opaque here.
#[verifier::external_type_specification]
#[verifier::external_body]
pub struct ExParseError(ParseError);

/// An absolute path: on Unix, where the site runs, one that begins with `/` (a path is
/// absolute there exactly when it has a root).
pub open spec fn is_absolute_path(p: Seq<char>) -> bool {
    p.len() > 0 && p[0] == '/'
}

/// `rel` put after `base`: an absolute `rel` replaces `base`; a relative one is appended, with
/// a `/` between the two unless `base` already ends with one.
pub open spec fn pushed_path(base: Seq<char>, rel: Seq<char>) -> Seq<char> {
    if is_absolute_path(rel) {
        rel
    } else if has_suffix(base, "/"@) {
        base + rel
    } else {
        base + "/"@ + rel
    }
}

/// What `PathBuf::set_extension` makes of the path `path` with the extension `ext`.
pub uninterp spec fn path_with_extension(path: Seq<char>, ext: Seq<char>) -> Seq<char>;

/// What `ferromark::to_html` makes of the Markdown `source`: the HTML, or `None` where the
/// conversion fails.
pub uninterp spec fn markdown_html(source: Seq<char>) -> Option<Seq<char>>;

/// `PathBuf::push` on `base` with `rel`: by its documentation, an absolute `rel` replaces the
/// path and a relative one is appended with a separator if needed. For an empty `base` the
/// documentation does not say whether a separator is put in, so nothing is stated then. The
/// result is read back as UTF-8 text, which it is, being made of two UTF-8 texts.
#[verifier::external_body]
fn path_push(base: &str, rel: &str) -> (r: String)
    ensures
        base@.len() > 0 ==> r@ == pushed_path(base@, rel@),
{
    let mut p = PathBuf::from(base);
    p.push(rel);
    p.to_string_lossy().into_owned()
}

/// `Path::join`, which pushes `rel` onto a copy of `base`: as for `path_push`.
#[verifier::external_body]
fn path_join(base: &str, rel: &str) -> (r: String)
    ensures
        base@.len() > 0 ==> r@ == pushed_path(base@, rel@),
{
    Path::new(base).join(rel).to_string_lossy().into_owned()
}

/// `PathBuf::set_extension` on `path` with `ext`; the result is named by
/// `path_with_extension`. The call panics when `ext` holds a path separator (`/` on Unix), so
/// such an `ext` is left out. The result is read back as UTF-8 text, which it is: the call
/// only cuts the path at a `.` and appends `.` and the UTF-8 `ext`.
#[verifier::external_body]
fn path_set_extension(path: &str, ext: &str) -> (r: String)
    requires
        !ext@.contains('/'),
    ensures
        r@ == path_with_extension(path@, ext@),
{
    let mut p = PathBuf::from(path);
    p.set_extension(ext);
    p.to_string_lossy().into_owned()
}

/// `ferromark::to_html`: the HTML of the Markdown `source`, or the parser's error; which one
/// it is, is named by `markdown_html`.
#[verifier::external_body]
fn to_html(source: &str) -> (r: Result<String, ParseError>)
    ensures
        match r {
            Ok(html) => markdown_html(source@) == Some(html@),
            Err(_) => markdown_html(source@) is None,
        },
{
    ferromark::to_html(source)
}

/// The file that the blog reads for the post at `md_path`: a directory path (one ending in
/// `/`) stands for its `index.md`, any other gets the extension `md`, and the result is taken
/// under `./blog`.
pub open spec fn blog_file(md_path: Seq<char>) -> Seq<char> {
    let rel = if has_suffix(md_path, "/"@) {
        pushed_path(md_path, "index.md"@)
    } else {
        path_with_extension(md_path, "md"@)
    };
    pushed_path("./blog"@, rel)
}

/// A post path that names a directory is read from that directory's `index.md` under
/// `./blog`; for instance `notes/` is read from `./blog/notes/index.md`.
pub proof fn lemma_directory_posts_read_index(md_path: Seq<char>)
    requires
        has_suffix(md_path, "/"@),
        !is_absolute_path(md_path),
    ensures
        blog_file(md_path) == "./blog/"@ + md_path + "index.md"@,
{
    reveal_strlit("/");
    reveal_strlit("./blog");
    reveal_strlit("./blog/");
    reveal_strlit("index.md");
    let joined = md_path + "index.md"@;
    assert(joined[0] == md_path[0]);
    assert(!has_suffix("./blog"@, "/"@)) by {
        assert("./blog"@.subrange(5, 6)[0] == 'g');
        assert("/"@[0] == '/');
    }
    assert("./blog"@ + "/"@ =~= "./blog/"@);
    assert("./blog"@ + "/"@ + joined =~= "./blog/"@ + md_path + "index.md"@);
}

/// The file to read for the blog post at `md_path`, or an error for an absolute path.
pub fn blog_source_path(md_path: &str) -> (r: Result<String, ServerError>)
    ensures
        r is Err <==> is_absolute_path(md_path@),
        r matches Err(e) ==> e == ServerError::AbsoluteBlogPath,
        r matches Ok(p) ==> p@ == blog_file(md_path@),
{
    proof {
        reveal_strlit("./blog");
        reveal_strlit("/");
        reveal_strlit("md");
    }
    let p = chars_of(md_path);
    if p.len() > 0 && p[0] == '/' {
        return Err(ServerError::AbsoluteBlogPath);
    }
    let rel = if ends_with(p.as_slice(), chars_of("/").as_slice()) {
        path_push(md_path, "index.md")
    } else {
        path_set_extension(md_path, "md")
    };
    Ok(path_join("./blog", rel.as_str()))
}

/// The path of the blog's front page, as the router hands it on.
pub fn blog_index_path() -> (p: &'static str)
    ensures
        p@ == "index.md"@,
{
    "index.md"
}

/// The HTML of the Markdown `source`, or `MarkdownFailed` where it cannot be converted.
pub fn render_markdown(source: &str) -> (r: Result<String, ServerError>)
    ensures
        match markdown_html(source@) {
            Some(html) => r matches Ok(h) && h@ == html,
            None => r == Err::<String, ServerError>(ServerError::MarkdownFailed),
        },
{
    match to_html(source) {
        Ok(html) => Ok(html),
        Err(_) => Err(ServerError::MarkdownFailed),
    }
}

/// What a blog page shows: a message of the day and the post as HTML.
pub struct BlogPage {
    pub motd: &'static str,
    pub markdown: String,
}

/// The blog page for the Markdown `source`: a message of the day and the post's HTML; it fails
/// exactly where the Markdown cannot be converted.
pub fn blog_page(source: &str) -> (r: Result<BlogPage, ServerError>)
    ensures
        match markdown_html(source@) {
            Some(html) => r matches Ok(page) && page.markdown@ == html && MOTD@.contains(
                page.motd,
            ),
            None => r matches Err(e) && e == ServerError::MarkdownFailed,
        },
{
    let m = motd()?;
    let markdown = render_markdown(source)?;
    Ok(BlogPage { motd: m, markdown })
}

} // verus!
