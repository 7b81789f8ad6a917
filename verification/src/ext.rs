use std::path::PathBuf;
use vstd::prelude::*;

verus! {

/// `std::path::PathBuf`, carried through as an opaque value.
#[verifier::external_type_specification]
#[verifier::external_body]
pub struct ExPathBuf(std::path::PathBuf);

/// The path that `PathBuf::from` makes of a text.
pub uninterp spec fn path_of_text(text: Seq<char>) -> PathBuf;

/// The paths made of a list of texts, one for one and in order.
pub open spec fn paths_of_texts(texts: Seq<String>) -> Seq<PathBuf> {
    texts.map_values(|t: String| path_of_text(t@))
}

/// Every path of a list is made of the text at its place and of no other
/// text.
pub open spec fn paths_keep_texts(texts: Seq<String>, paths: Seq<PathBuf>) -> bool {
    &&& paths.len() == texts.len()
    &&& forall|i: int, t: Seq<char>|
        0 <= i < paths.len() && #[trigger] path_of_text(t) == #[trigger] paths[i] ==> t
            == texts[i]@
}

/// Calls `PathBuf::from` on a string. Claimed: the path depends on the
/// string's text alone (named `path_of_text`) and keeps that text unchanged
/// (`PathBuf::from` takes the string's bytes as they are), so no other text
/// makes the same path.
#[verifier::external_body]
fn path_from_string(text: &String) -> (p: PathBuf)
    ensures
        p == path_of_text(text@),
        forall|t: Seq<char>| #[trigger] path_of_text(t) == p ==> t == text@,
{
    PathBuf::from(text)
}

/// Turns a list of texts into file-system paths.
pub trait ToPathBufs {
    fn to_pathbufs(&self) -> Vec<PathBuf>;
}

impl ToPathBufs for Vec<String> {
    /// One path per text, in the same order.
    fn to_pathbufs(&self) -> (paths: Vec<PathBuf>)
        ensures
            paths@ == paths_of_texts(self@),
            paths_keep_texts(self@, paths@),
    {
        let mut paths: Vec<PathBuf> = Vec::new();
        let n = self.len();
        for i in 0..n
            invariant
                n == self.len(),
                paths@ == paths_of_texts(self@.take(i as int)),
                paths_keep_texts(self@.take(i as int), paths@),
        {
            paths.push(path_from_string(&self[i]));
            assert(self@.take(i + 1) == self@.take(i as int).push(self@[i as int]));
        }
        assert(self@.take(n as int) == self@);
        paths
    }
}

/// No text is changed on its way to a path: two lists of texts whose paths
/// are the same are the same texts, place by place.
pub proof fn lemma_paths_determine_texts(
    a: Seq<String>,
    paths_a: Seq<PathBuf>,
    b: Seq<String>,
    paths_b: Seq<PathBuf>,
)
    requires
        paths_keep_texts(a, paths_a),
        paths_b == paths_of_texts(b),
        paths_a == paths_b,
    ensures
        a.len() == b.len(),
        forall|i: int| 0 <= i < a.len() ==> (#[trigger] a[i])@ == b[i]@,
{
    assert forall|i: int| 0 <= i < a.len() implies (#[trigger] a[i])@ == b[i]@ by {
        assert(path_of_text(b[i]@) == paths_a[i]);
    }
}

} // verus!
