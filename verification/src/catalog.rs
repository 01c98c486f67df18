//! The post catalog: the fixed, in-memory list of known posts.

use vstd::prelude::*;

verus! {

/// One catalog entry: a post's identifier and its human-readable title.
///
/// The identifier is expected to correspond to a server-side resource at the
/// conventional path derived from it (see [`crate::fetch::post_url`]); no
/// client-side validation of that mapping is performed.
pub struct PostSummary {
    pub id: String,
    pub title: String,
}

/// The mathematical image of a catalog entry: both strings as sequences of
/// characters.
#[verifier::ext_equal]
pub ghost struct PostSummaryModel {
    pub id: Seq<char>,
    pub title: Seq<char>,
}

impl View for PostSummary {
    type V = PostSummaryModel;

    open spec fn view(&self) -> PostSummaryModel {
        PostSummaryModel { id: self.id@, title: self.title@ }
    }
}

/// The catalog's contents: finite, fixed, and in deterministic display order.
pub open spec fn catalog() -> Seq<PostSummaryModel> {
    seq![
        PostSummaryModel { id: "hello"@, title: "Hello, World"@ },
        PostSummaryModel { id: "two"@, title: "Post Two"@ },
    ]
}

/// Returns the fixed list of posts, in catalog order.
///
/// Deterministic and side-effect free: every call returns the same list,
/// namely the one [`catalog`] describes.
pub fn get_post_summaries() -> (r: Vec<PostSummary>)
    ensures
        r@.map_values(|p: PostSummary| p@) == catalog(),
{
    let mut v: Vec<PostSummary> = Vec::new();
    v.push(PostSummary { id: "hello".to_owned(), title: "Hello, World".to_owned() });
    v.push(PostSummary { id: "two".to_owned(), title: "Post Two".to_owned() });
    proof {
        assert(v@.map_values(|p: PostSummary| p@) =~= catalog());
    }
    v
}

} // verus!
