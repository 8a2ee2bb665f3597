use vstd::prelude::*;
use crate::context::{has_extension_in, texts, Context};

verus! {

/// Whether a directory holding `names` has a file named as one of `files`, or
/// one whose extension is one of `extensions`.
pub open spec fn listing_matches(
    names: Seq<Seq<char>>,
    files: Seq<Seq<char>>,
    extensions: Seq<Seq<char>>,
) -> bool {
    exists|i: int|
        0 <= i < names.len() && (files.contains(#[trigger] names[i]) || has_extension_in(
            names[i],
            extensions,
        ))
}

/// The file names and extensions whose presence marks a project.
pub struct ProbeCriteria {
    pub files: Vec<String>,
    pub extensions: Vec<String>,
}

impl ProbeCriteria {
    /// Whether the directory of `context` holds one of the files or a file
    /// with one of the extensions. Names are looked up first, and the scan
    /// stops at the first hit.
    pub fn matches(&self, context: &Context) -> (r: bool)
        ensures
            r == listing_matches(context.names(), texts(self.files@), texts(self.extensions@)),
    {
        let by_name = context.has_any_file(&self.files);
        if by_name {
            return true;
        }
        context.has_any_extension(&self.extensions)
    }
}

/// Adding entries to a directory listing never turns a match into a miss:
/// where every name of `names` is also in `more`, a match on `names` is a
/// match on `more`.
pub proof fn lemma_listing_matches_monotonic(
    names: Seq<Seq<char>>,
    more: Seq<Seq<char>>,
    files: Seq<Seq<char>>,
    extensions: Seq<Seq<char>>,
)
    requires
        forall|i: int| 0 <= i < names.len() ==> more.contains(#[trigger] names[i]),
        listing_matches(names, files, extensions),
    ensures
        listing_matches(more, files, extensions),
{
    let i = choose|i: int|
        0 <= i < names.len() && (files.contains(#[trigger] names[i]) || has_extension_in(
            names[i],
            extensions,
        ));
    assert(more.contains(names[i]));
    let j = choose|j: int| 0 <= j < more.len() && more[j] == names[i];
    assert(files.contains(more[j]) || has_extension_in(more[j], extensions));
}

} // verus!
