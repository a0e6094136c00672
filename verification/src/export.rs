//! The artifact of a run: the mesh as ASCII STL text, under a name that is
//! made from the segment count.

use vstd::prelude::*;
use vstd::string::*;
use crate::decimal::{decimal_chars, lemma_decimal_chars_injective, push_decimal};

verus! {

/// The mesh type of `csgrs`. Nothing of its contents is visible here: a
/// mesh is only handed on.
#[verifier::external_type_specification]
#[verifier::external_body]
#[verifier::reject_recursive_types(S)]
pub struct ExMesh<S: Clone>(csgrs::csg::CSG<S>);

/// The lines that `CSG::to_stl_ascii` writes for the facets of a mesh,
/// between the line that opens the solid and the line that closes it.
pub uninterp spec fn facets_text(mesh: csgrs::csg::CSG<()>) -> Seq<char>;

/// An ASCII STL text: the line that opens the solid `name`, the facets, and
/// the line that closes the solid.
pub open spec fn stl_text(name: Seq<char>, facets: Seq<char>) -> Seq<char> {
    "solid "@ + name + "\n"@ + facets + "endsolid "@ + name + "\n"@
}

/// The name of the artifact for a segment count.
pub open spec fn artifact_name(n: nat) -> Seq<char> {
    "csgrs-logfting_segments-"@ + decimal_chars(n)
}

/// The name of the file that the artifact is written to.
pub open spec fn artifact_file_name(n: nat) -> Seq<char> {
    artifact_name(n) + ".stl"@
}

/// Calls `csgrs::csg::CSG::to_stl_ascii`.
///
/// Taken on trust from its source: the text is `solid `, the name and a
/// line break, then the facets of the mesh, which do not depend on the
/// name, then `endsolid `, the name and a line break. The call does not
/// fail.
#[verifier::external_body]
fn mesh_to_stl_ascii(mesh: &csgrs::csg::CSG<()>, name: &str) -> (text: String)
    ensures
        text@ == stl_text(name@, facets_text(*mesh)),
{
    mesh.to_stl_ascii(name)
}

/// What a run leaves behind: a text and the file it goes to.
#[derive(Clone, Debug, PartialEq, Eq)]
pub struct Artifact {
    /// The name of the solid.
    pub name: String,
    /// The name of the file.
    pub file_name: String,
    /// The content of the file.
    pub text: String,
}

/// Makes the name of the artifact for a segment count.
pub fn name_artifact(segments: u64) -> (name: String)
    ensures
        name@ == artifact_name(segments as nat),
{
    let mut name: String = String::from_str("csgrs-logfting_segments-");
    push_decimal(&mut name, segments);
    name
}

/// Puts a text under the names that belong to a segment count.
pub fn assemble_artifact(segments: u64, text: String) -> (a: Artifact)
    ensures
        a.name@ == artifact_name(segments as nat),
        a.file_name@ == artifact_file_name(segments as nat),
        a.text == text,
{
    let name: String = name_artifact(segments);
    let file_name: String = name.clone().concat(".stl");
    Artifact { name, file_name, text }
}

/// Renders a mesh as the artifact for a segment count: ASCII STL text whose
/// solid carries the artifact's name.
pub fn export_stl(mesh: &csgrs::csg::CSG<()>, segments: u64) -> (a: Artifact)
    ensures
        a.name@ == artifact_name(segments as nat),
        a.file_name@ == artifact_file_name(segments as nat),
        a.text@ == stl_text(artifact_name(segments as nat), facets_text(*mesh)),
{
    let name: String = name_artifact(segments);
    let text: String = mesh_to_stl_ascii(mesh, name.as_str());
    assemble_artifact(segments, text)
}

/// Each segment count has a name of its own: artifacts of different counts
/// never go to the same file.
pub proof fn lemma_artifact_names_distinct(a: nat, b: nat)
    requires
        a != b,
    ensures
        artifact_name(a) != artifact_name(b),
        artifact_file_name(a) != artifact_file_name(b),
{
    let prefix = "csgrs-logfting_segments-"@;
    let suffix = ".stl"@;
    if artifact_name(a) == artifact_name(b) {
        assert(decimal_chars(a) =~= artifact_name(a).skip(prefix.len() as int));
        assert(decimal_chars(b) =~= artifact_name(b).skip(prefix.len() as int));
        lemma_decimal_chars_injective(a, b);
    }
    if artifact_file_name(a) == artifact_file_name(b) {
        assert(artifact_file_name(a).len() == artifact_name(a).len() + suffix.len());
        assert(artifact_file_name(b).len() == artifact_name(b).len() + suffix.len());
        assert(artifact_name(a) =~= artifact_file_name(a).take(artifact_name(a).len() as int));
        assert(artifact_name(b) =~= artifact_file_name(b).take(artifact_name(b).len() as int));
    }
}

/// An STL text is never empty: it opens and closes its solid even where
/// the mesh has no facets.
pub proof fn lemma_stl_text_framed(name: Seq<char>, facets: Seq<char>)
    ensures
        stl_text(name, facets).len() == 2 * name.len() + facets.len() + 17,
        stl_text(name, facets).subrange(0, 6 + name.len() as int) == "solid "@ + name,
{
    reveal_strlit("solid ");
    reveal_strlit("endsolid ");
    reveal_strlit("\n");
    assert(stl_text(name, facets).subrange(0, 6 + name.len() as int) =~= "solid "@ + name);
}

} // verus!
