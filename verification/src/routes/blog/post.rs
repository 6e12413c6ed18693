//! Posting to the blog page: the visitor is sent back to it.

use vstd::prelude::*;

verus! {

/// Status of a response that sends the visitor elsewhere with a GET.
pub const SEE_OTHER: u16 = 303;

/// Where every form of the site sends the visitor afterwards.
pub const BLOG_PAGE: &'static str = "/blog";

/// A response that only sends the visitor on.
#[derive(Debug, Clone, Copy)]
pub struct Redirect {
    pub status: u16,
    pub location: &'static str,
}

/// The answer to a post to the blog page: see the blog page.
pub fn post() -> (answer: Redirect)
    ensures
        answer.status == SEE_OTHER,
        answer.location@ == BLOG_PAGE@,
{
    Redirect { status: SEE_OTHER, location: BLOG_PAGE }
}

} // verus!
