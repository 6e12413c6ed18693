//! Announcing new posts: which files of a commit are posts, what a post is
//! called on the site, and what the announcement says.

use crate::routes::blog::signup::texts;
use crate::routes::subscriptions::subscribe::EmailContent;
use vstd::prelude::*;
use vstd::string::*;

verus! {

/// What the path of every post file begins with.
pub const BLOG_PREFIX: &'static str = "blog/";

/// What the path of every post file ends with.
pub const HTML_SUFFIX: &'static str = ".html";

/// What stands before a post's slug in its address, after the site's.
pub const POST_PATH: &'static str = "/blog/";

/// Subject of the email that announces a post.
pub const ANNOUNCEMENT_SUBJECT: &'static str = "New blog post";

/// What stands before the post's address in the HTML body.
pub const ANNOUNCEMENT_HTML_HEAD: &'static str = "<p>New blog post! Click <a href=";

/// What stands after the post's address in the HTML body.
pub const ANNOUNCEMENT_HTML_TAIL: &'static str = ">here</a> to view.p>";

/// What stands before the post's address in the plain body.
pub const ANNOUNCEMENT_TEXT_HEAD: &'static str = "New blog post! Available at ";

/// What stands after the post's address in the plain body.
pub const ANNOUNCEMENT_TEXT_TAIL: &'static str = ".";

/// The lines of `text` that a line feed ends, in order. What follows the last
/// line feed is no such line.
pub open spec fn ended_lines(text: Seq<char>) -> Seq<Seq<char>>
    decreases text.len(),
{
    if text.len() == 0 {
        Seq::empty()
    } else if text.last() == '\n' {
        ended_lines(text.drop_last()).push(open_line(text.drop_last()))
    } else {
        ended_lines(text.drop_last())
    }
}

/// What follows the last line feed of `text`, or all of it if it has none.
pub open spec fn open_line(text: Seq<char>) -> Seq<char>
    decreases text.len(),
{
    if text.len() == 0 {
        Seq::empty()
    } else if text.last() == '\n' {
        Seq::empty()
    } else {
        open_line(text.drop_last()).push(text.last())
    }
}

/// The files that a listing names, one per line: every line that a line feed
/// ends, in order. A last line without a line feed is not taken.
pub fn added_files(listing: &str) -> (files: Vec<String>)
    ensures
        texts(files@) == ended_lines(listing@),
{
    let length: usize = listing.unicode_len();
    let mut files: Vec<String> = Vec::new();
    let mut start: usize = 0;
    let mut i: usize = 0;
    assert(listing@.take(0) =~= Seq::<char>::empty());
    assert(texts(files@) =~= Seq::<Seq<char>>::empty());
    assert(listing@.subrange(0, 0) =~= Seq::<char>::empty());
    while i < length
        invariant
            length == listing@.len(),
            start <= i <= length,
            texts(files@) == ended_lines(listing@.take(i as int)),
            listing@.subrange(start as int, i as int) == open_line(listing@.take(i as int)),
        decreases length - i,
    {
        let ghost read = listing@.take(i as int);
        let ghost more = listing@.take(i as int + 1);
        proof {
            assert(more.drop_last() =~= read);
            assert(more.last() == listing@[i as int]);
        }
        if listing.get_char(i) == '\n' {
            let ghost before = files@;
            files.push(String::from_str(listing.substring_char(start, i)));
            start = i + 1;
            proof {
                assert(texts(files@) =~= texts(before).push(open_line(read)));
                assert(listing@.subrange(start as int, i as int + 1) =~= Seq::<char>::empty());
            }
        } else {
            proof {
                assert(listing@.subrange(start as int, i as int + 1) =~= listing@.subrange(
                    start as int,
                    i as int,
                ).push(listing@[i as int]));
            }
        }
        i = i + 1;
    }
    assert(listing@.take(length as int) =~= listing@);
    files
}

/// Whether `text` begins with `prefix`.
pub open spec fn begins_with(text: Seq<char>, prefix: Seq<char>) -> bool {
    prefix.len() <= text.len() && text.take(prefix.len() as int) == prefix
}

/// Whether `text` ends with `suffix`.
pub open spec fn ends_with(text: Seq<char>, suffix: Seq<char>) -> bool {
    suffix.len() <= text.len() && text.skip(text.len() - suffix.len()) == suffix
}

/// Whether `part` stands in `text` at position `at`.
fn stands_at(text: &str, at: usize, part: &str) -> (found: bool)
    requires
        at <= text@.len(),
    ensures
        found == (at + part@.len() <= text@.len() && text@.subrange(
            at as int,
            at + part@.len(),
        ) == part@),
{
    let text_length: usize = text.unicode_len();
    let part_length: usize = part.unicode_len();
    if part_length > text_length - at {
        return false;
    }
    let mut k: usize = 0;
    while k < part_length
        invariant
            part_length == part@.len(),
            text_length == text@.len(),
            at + part_length <= text_length,
            k <= part_length,
            text@.subrange(at as int, at + k) == part@.take(k as int),
        decreases part_length - k,
    {
        if text.get_char(at + k) != part.get_char(k) {
            proof {
                let whole = text@.subrange(at as int, at + part@.len());
                assert(whole[k as int] == text@[at + k]);
            }
            return false;
        }
        proof {
            assert(text@.subrange(at as int, at + k + 1) =~= text@.subrange(
                at as int,
                at + k,
            ).push(text@[at + k]));
            assert(part@.take(k as int + 1) =~= part@.take(k as int).push(part@[k as int]));
        }
        k = k + 1;
    }
    assert(part@.take(part_length as int) =~= part@);
    true
}

/// Why a file is not a post.
#[derive(Debug, Clone, Copy, PartialEq, Eq, Structural)]
pub enum SlugError {
    /// Its path does not begin with the blog's directory.
    NotUnderBlog,
    /// Its path does not end in the extension of a post.
    NotHtml,
}

/// The name of a post on the site: the path of its file without the blog's
/// directory in front and the extension behind. A path that does not begin
/// with the one is refused first, then one that does not end with the other.
pub fn slug(file: &str) -> (named: Result<String, SlugError>)
    ensures
        match named {
            Ok(name) => {
                &&& begins_with(file@, BLOG_PREFIX@)
                &&& ends_with(file@.skip(BLOG_PREFIX@.len() as int), HTML_SUFFIX@)
                &&& name@ == file@.subrange(
                    BLOG_PREFIX@.len() as int,
                    file@.len() - HTML_SUFFIX@.len(),
                )
            },
            Err(SlugError::NotUnderBlog) => !begins_with(file@, BLOG_PREFIX@),
            Err(SlugError::NotHtml) => begins_with(file@, BLOG_PREFIX@) && !ends_with(
                file@.skip(BLOG_PREFIX@.len() as int),
                HTML_SUFFIX@,
            ),
        },
{
    let length: usize = file.unicode_len();
    let prefix_length: usize = BLOG_PREFIX.unicode_len();
    let suffix_length: usize = HTML_SUFFIX.unicode_len();
    let under_blog = stands_at(file, 0, BLOG_PREFIX);
    proof {
        if BLOG_PREFIX@.len() <= file@.len() {
            assert(file@.take(BLOG_PREFIX@.len() as int) =~= file@.subrange(
                0,
                BLOG_PREFIX@.len() as int,
            ));
        }
    }
    if !under_blog {
        return Err(SlugError::NotUnderBlog);
    }
    let ghost rest = file@.skip(prefix_length as int);
    if suffix_length > length - prefix_length {
        return Err(SlugError::NotHtml);
    }
    let html = stands_at(file, length - suffix_length, HTML_SUFFIX);
    proof {
        assert(rest.skip(rest.len() - suffix_length) =~= file@.subrange(
            length - suffix_length,
            length - suffix_length + HTML_SUFFIX@.len(),
        ));
    }
    if !html {
        return Err(SlugError::NotHtml);
    }
    Ok(String::from_str(file.substring_char(prefix_length, length - suffix_length)))
}

/// The address of the post named `slug` on the site at `base`.
pub open spec fn post_link_text(base: Seq<char>, slug: Seq<char>) -> Seq<char> {
    base + POST_PATH@ + slug
}

/// The email that announces the post named `slug` on the site at
/// `app_base_url`.
pub fn announcement(app_base_url: &str, slug: &str) -> (email: EmailContent)
    ensures
        email.subject@ == ANNOUNCEMENT_SUBJECT@,
        email.html@ == ANNOUNCEMENT_HTML_HEAD@ + post_link_text(app_base_url@, slug@)
            + ANNOUNCEMENT_HTML_TAIL@,
        email.text@ == ANNOUNCEMENT_TEXT_HEAD@ + post_link_text(app_base_url@, slug@)
            + ANNOUNCEMENT_TEXT_TAIL@,
{
    let mut link = String::from_str(app_base_url);
    link.append(POST_PATH);
    link.append(slug);
    let mut html = String::from_str(ANNOUNCEMENT_HTML_HEAD);
    html.append(link.as_str());
    html.append(ANNOUNCEMENT_HTML_TAIL);
    let mut text = String::from_str(ANNOUNCEMENT_TEXT_HEAD);
    text.append(link.as_str());
    text.append(ANNOUNCEMENT_TEXT_TAIL);
    EmailContent { subject: String::from_str(ANNOUNCEMENT_SUBJECT), html, text }
}

} // verus!
