//! The blog page: which posts it lists, in which order, under which paths.

use crate::routes::blog::signup::texts;
use vstd::prelude::*;
use vstd::string::*;

verus! {

broadcast use vstd::seq_lib::group_to_multiset_ensures;

/// The directory that holds the posts, one file each.
pub const POSTS_DIRECTORY: &'static str = "blog";

/// What stands before a post's title in its path on the site.
pub const POSTS_PREFIX: &'static str = "/blog/";

/// The template of the blog page.
pub const BLOG_TEMPLATE: &'static str = "blog.html";

/// A post as the blog page lists it.
#[derive(Debug)]
pub struct BlogPost {
    pub content: String,
    /// Where the post lives on the site, such as `/blog/first-post`.
    pub path: String,
}

/// Whether text `a` equals `b` or comes before it in the order of strings:
/// the first character in which they differ decides, by code point, and a
/// text comes before every text that extends it.
pub open spec fn text_le(a: Seq<char>, b: Seq<char>) -> bool
    decreases a.len(),
{
    if a.len() == 0 {
        true
    } else if b.len() == 0 {
        false
    } else if a[0] == b[0] {
        text_le(a.drop_first(), b.drop_first())
    } else {
        a[0] < b[0]
    }
}

/// Whether `titles` runs from the last in the order of strings to the first.
pub open spec fn newest_first_order(titles: Seq<Seq<char>>) -> bool {
    forall|i: int, j: int| 0 <= i <= j < titles.len() ==> text_le(titles[j], titles[i])
}

/// Sorts `titles` in place with `Vec::sort`: afterwards they are the same
/// titles, each as often as before, in the order of `String`, which compares
/// byte by byte and so code point by code point.
#[verifier::external_body]
fn sort_titles(titles: &mut Vec<String>)
    ensures
        texts(final(titles)@).to_multiset() == texts(old(titles)@).to_multiset(),
        forall|i: int, j: int|
            0 <= i <= j < final(titles)@.len() ==> text_le(
                final(titles)@[i]@,
                final(titles)@[j]@,
            ),
{
    titles.sort()
}

/// The titles in the order the blog page lists them: the last in the order
/// of strings first. Titles begin with their date, so this is newest first.
pub fn newest_first(titles: Vec<String>) -> (ordered: Vec<String>)
    ensures
        texts(ordered@).to_multiset() == texts(titles@).to_multiset(),
        newest_first_order(texts(ordered@)),
{
    let mut ascending = titles;
    sort_titles(&mut ascending);
    let ghost sorted = ascending@;
    let mut ordered: Vec<String> = Vec::new();
    assert(texts(ordered@) =~= Seq::<Seq<char>>::empty());
    while ascending.len() > 0
        invariant
            ordered@.len() + ascending@.len() == sorted.len(),
            ascending@ == sorted.take(ascending@.len() as int),
            forall|k: int|
                0 <= k < ordered@.len() ==> (#[trigger] ordered@[k])@ == sorted[sorted.len() - 1
                    - k]@,
            texts(ordered@).to_multiset().add(texts(ascending@).to_multiset()) == texts(
                sorted,
            ).to_multiset(),
        decreases ascending.len(),
    {
        let ghost before_ordered = ordered@;
        let ghost before_ascending = ascending@;
        let title = ascending.pop().unwrap();
        ordered.push(title);
        proof {
            assert(texts(before_ascending) =~= texts(ascending@).push(title@));
            assert(texts(ordered@) =~= texts(before_ordered).push(title@));
            assert(ascending@ =~= sorted.take(ascending@.len() as int));
            assert(texts(ordered@).to_multiset().add(texts(ascending@).to_multiset()) =~= texts(
                before_ordered,
            ).to_multiset().add(texts(before_ascending).to_multiset()));
        }
    }
    proof {
        assert(texts(ascending@) =~= Seq::<Seq<char>>::empty());
        assert(texts(ordered@).to_multiset().add(texts(ascending@).to_multiset()) =~= texts(
            ordered@,
        ).to_multiset());
        assert forall|i: int, j: int| 0 <= i <= j < ordered@.len() implies text_le(
            texts(ordered@)[j],
            texts(ordered@)[i],
        ) by {
            assert(ordered@[i]@ == sorted[sorted.len() - 1 - i]@);
            assert(ordered@[j]@ == sorted[sorted.len() - 1 - j]@);
        }
    }
    ordered
}

/// The path on the site of the post with the given title.
pub fn post_path(title: &str) -> (path: String)
    ensures
        path@ == POSTS_PREFIX@ + title@,
{
    let mut path = String::from_str(POSTS_PREFIX);
    path.append(title);
    path
}

/// The post with the given title and content, as the blog page lists it.
pub fn listed(title: &str, content: String) -> (post: BlogPost)
    ensures
        post.content == content,
        post.path@ == POSTS_PREFIX@ + title@,
{
    BlogPost { content, path: post_path(title) }
}


/// The mathematical content of a listed post.
pub struct PostView {
    pub content: Seq<char>,
    pub path: Seq<char>,
}

impl View for BlogPost {
    type V = PostView;

    open spec fn view(&self) -> PostView {
        PostView { content: self.content@, path: self.path@ }
    }
}

/// A file of the posts' directory: its name, and its content if it could be
/// read.
#[derive(Debug)]
pub struct PostFile {
    pub title: String,
    pub content: Option<String>,
}

/// The posts that the page lists for `files`: one for each file that could be
/// read, in the order of the files.
pub open spec fn listing_of(files: Seq<PostFile>) -> Seq<PostView>
    decreases files.len(),
{
    if files.len() == 0 {
        Seq::empty()
    } else {
        let before = listing_of(files.drop_last());
        match files.last().content {
            Some(content) => before.push(
                PostView { content: content@, path: POSTS_PREFIX@ + files.last().title@ },
            ),
            None => before,
        }
    }
}

/// The posts that the page lists for `files`: a file that could not be read
/// is passed over, every other is listed under its path, in the order given.
pub fn listing(files: Vec<PostFile>) -> (posts: Vec<BlogPost>)
    ensures
        posts@.map_values(|post: BlogPost| post@) == listing_of(files@),
{
    let mut posts: Vec<BlogPost> = Vec::new();
    let ghost all = files@;
    assert(all.take(0) =~= Seq::<PostFile>::empty());
    assert(posts@.map_values(|post: BlogPost| post@) =~= Seq::<PostView>::empty());
    for file in it: files
        invariant
            all == it.seq(),
            posts@.map_values(|post: BlogPost| post@) == listing_of(all.take(it.index() as int)),
    {
        let ghost k = it.index() as int;
        let ghost before = posts@;
        proof {
            assert(all.take(k + 1).drop_last() =~= all.take(k));
            assert(all.take(k + 1).last() == file);
        }
        match file.content {
            Some(content) => {
                let post = listed(file.title.as_str(), content);
                posts.push(post);
                assert(posts@.map_values(|post: BlogPost| post@) =~= before.map_values(
                    |post: BlogPost| post@,
                ).push(post@));
            },
            None => {},
        }
    }
    assert(all.take(all.len() as int) =~= all);
    posts
}

} // verus!
