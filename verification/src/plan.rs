//! The scaffold generator: from a project name, a variant and the one
//! observation about the filesystem (does the target root already exist?) to
//! either a complete, rendered plan or an error.
//!
//! The generator itself never touches the filesystem. A caller that wants
//! the project on disk checks for the root directory, asks for the plan, and
//! only on success creates the listed directories and writes the listed
//! files under the root — so every safety decision is made, and checked,
//! here.

use crate::errors::ScaffoldError;
use crate::project::valid_project_name;
use crate::project::validate_project_name;
use crate::registry::CLIENT_SPLIT_ROOT_TAIL;
use crate::registry::FileTemplateModel;
use crate::registry::MINIMAL_ROOT_TAIL;
use crate::registry::ROOT_PACKAGE_HEADER;
use crate::registry::Variant;
use crate::registry::WORKSPACE_PACKAGE_HEADER;
use crate::registry::WORKSPACE_ROOT_TAIL;
use crate::registry::manifest_for;
use crate::registry::manifest_model;
use crate::template::render;
use crate::template::render_model;
use vstd::prelude::*;

verus! {

/// One file of a plan: a path relative to the root, and the text to write
/// there.
#[derive(Debug)]
pub struct PlannedFile {
    pub path: String,
    pub contents: String,
}

/// The mathematical shape of a `PlannedFile`.
#[verifier::ext_equal]
pub ghost struct PlannedFileModel {
    pub path: Seq<char>,
    pub contents: Seq<char>,
}

impl View for PlannedFile {
    type V = PlannedFileModel;

    open spec fn view(&self) -> PlannedFileModel {
        PlannedFileModel { path: self.path@, contents: self.contents@ }
    }
}

/// A complete generation plan: the root directory to create, the
/// directories to pre-create under it, and the files to write under it, in
/// order.
#[derive(Debug)]
pub struct ScaffoldPlan {
    pub root: String,
    pub dirs: Vec<String>,
    pub files: Vec<PlannedFile>,
}

/// The mathematical shape of a `ScaffoldPlan`.
#[verifier::ext_equal]
pub ghost struct PlanModel {
    pub root: Seq<char>,
    pub dirs: Seq<Seq<char>>,
    pub files: Seq<PlannedFileModel>,
}

impl View for ScaffoldPlan {
    type V = PlanModel;

    open spec fn view(&self) -> PlanModel {
        PlanModel {
            root: self.root@,
            dirs: self.dirs@.map_values(|d: String| d@),
            files: self.files@.map_values(|f: PlannedFile| f@),
        }
    }
}

/// The plan a successful generation produces: the variant's manifest with
/// every template rendered for `name`, rooted at `name`.
pub open spec fn plan_model(v: Variant, name: Seq<char>) -> PlanModel {
    PlanModel {
        root: name,
        dirs: manifest_model(v).dirs,
        files: manifest_model(v).files.map_values(
            |f: FileTemplateModel| PlannedFileModel {
                path: f.path,
                contents: render_model(f.content, name),
            },
        ),
    }
}

/// What `generate` returns for every input: an invalid name is rejected
/// first, then an existing target root, and otherwise the rendered plan is
/// owed.
pub open spec fn generate_outcome(name: Seq<char>, v: Variant, root_exists: bool) -> Result<
    PlanModel,
    ScaffoldError,
> {
    if !valid_project_name(name) {
        Err(ScaffoldError::InvalidName)
    } else if root_exists {
        Err(ScaffoldError::AlreadyExists)
    } else {
        Ok(plan_model(v, name))
    }
}

/// A returned plan or error, viewed mathematically.
pub open spec fn plan_result_model(r: Result<ScaffoldPlan, ScaffoldError>) -> Result<
    PlanModel,
    ScaffoldError,
> {
    match r {
        Ok(p) => Ok(p@),
        Err(e) => Err(e),
    }
}

/// The scaffold generator. `root_exists` is the caller's observation of
/// whether a directory named `name` is already present; everything else is
/// decided here, and the result is pinned to `generate_outcome` for every
/// input.
pub fn generate(name: &str, v: Variant, root_exists: bool) -> (r: Result<
    ScaffoldPlan,
    ScaffoldError,
>)
    ensures
        plan_result_model(r) == generate_outcome(name@, v, root_exists),
{
    if !validate_project_name(name) {
        return Err(ScaffoldError::InvalidName);
    }
    if root_exists {
        return Err(ScaffoldError::AlreadyExists);
    }
    let manifest = manifest_for(v);
    let mut files: Vec<PlannedFile> = Vec::new();
    let mut i: usize = 0;
    let n = manifest.files.len();
    while i < n
        invariant
            n == manifest.files.len(),
            0 <= i <= n,
            manifest@ == manifest_model(v),
            files@.len() == i,
            forall|j: int| 0 <= j < i ==> files@[j]@ == plan_model(v, name@).files[j],
        decreases n - i,
    {
        let ft = &manifest.files[i];
        let contents = render(&ft.content, name);
        let path = ft.path.clone();
        files.push(PlannedFile { path, contents });
        i = i + 1;
    }
    let plan = ScaffoldPlan { root: String::from_str(name), dirs: manifest.dirs, files };
    proof {
        assert(plan@ =~~= plan_model(v, name@));
    }
    Ok(plan)
}

/// For every valid project name whose target root does not yet exist,
/// generation succeeds, and the plan is exactly the variant's manifest with
/// the name substituted at every substitution point.
pub proof fn lemma_fresh_generation_succeeds(name: Seq<char>, v: Variant)
    requires
        valid_project_name(name),
    ensures
        generate_outcome(name, v, false) == Ok::<PlanModel, ScaffoldError>(plan_model(v, name)),
        generate_outcome(name, v, false)->Ok_0.files.len() == manifest_model(v).files.len(),
        forall|j: int|
            0 <= j < manifest_model(v).files.len() ==> generate_outcome(
                name,
                v,
                false,
            )->Ok_0.files[j] == (PlannedFileModel {
                path: manifest_model(v).files[j].path,
                contents: render_model(manifest_model(v).files[j].content, name),
            }),
{
}

/// An already existing target root is reported as `AlreadyExists`, and no
/// plan is produced for it: a caller that only writes what a plan lists
/// leaves the existing directory untouched.
pub proof fn lemma_existing_root_rejected(name: Seq<char>, v: Variant)
    requires
        valid_project_name(name),
    ensures
        generate_outcome(name, v, true) == Err::<PlanModel, ScaffoldError>(
            ScaffoldError::AlreadyExists,
        ),
{
}

/// Failure is idempotent: once a run has succeeded — so the root directory
/// exists — an immediate rerun with the same name reports `AlreadyExists`;
/// it never produces a plan that would overwrite the first run's output.
pub proof fn lemma_rerun_reports_already_exists(
    name: Seq<char>,
    v: Variant,
    first_root_exists: bool,
)
    requires
        generate_outcome(name, v, first_root_exists) is Ok,
    ensures
        generate_outcome(name, v, true) == Err::<PlanModel, ScaffoldError>(
            ScaffoldError::AlreadyExists,
        ),
{
}

/// A name containing a path separator is rejected outright, whatever the
/// variant and whatever the filesystem looks like: no plan — so no file
/// placement — can ever be derived from such a name.
pub proof fn lemma_separator_name_rejected(name: Seq<char>, v: Variant, root_exists: bool)
    requires
        exists|i: int| 0 <= i < name.len() && (name[i] == '/' || name[i] == '\\'),
    ensures
        generate_outcome(name, v, root_exists) == Err::<PlanModel, ScaffoldError>(
            ScaffoldError::InvalidName,
        ),
{
}

/// A relative path that cannot escape the directory it is joined to:
/// non-empty, not absolute, without backslashes and without a `..` run.
pub open spec fn safe_relative_path(p: Seq<char>) -> bool {
    &&& p.len() > 0
    &&& p[0] != '/'
    &&& forall|i: int| 0 <= i < p.len() ==> p[i] != '\\'
    &&& forall|i: int| 0 <= i && i + 1 < p.len() ==> !(p[i] == '.' && #[trigger] p[i + 1] == '.')
}

/// Nothing in a plan can reach outside its root: the root itself is a
/// single separator-free segment, and every directory and every file path
/// is a safe relative path beneath it.
pub proof fn lemma_plan_confined_to_root(name: Seq<char>, v: Variant, root_exists: bool)
    requires
        generate_outcome(name, v, root_exists) is Ok,
    ensures
        valid_project_name(generate_outcome(name, v, root_exists)->Ok_0.root),
        forall|i: int|
            0 <= i < generate_outcome(name, v, root_exists)->Ok_0.dirs.len()
                ==> safe_relative_path(
                #[trigger] generate_outcome(name, v, root_exists)->Ok_0.dirs[i],
            ),
        forall|i: int|
            0 <= i < generate_outcome(name, v, root_exists)->Ok_0.files.len()
                ==> safe_relative_path(
                #[trigger] generate_outcome(name, v, root_exists)->Ok_0.files[i].path,
            ),
{
    reveal_strlit("program/src");
    reveal_strlit("src");
    reveal_strlit("client/src");
    reveal_strlit("Cargo.toml");
    reveal_strlit("src/lib.rs");
    reveal_strlit("program/Cargo.toml");
    reveal_strlit("program/src/main.rs");
    reveal_strlit("program.json");
    reveal_strlit("caller.json");
    reveal_strlit("build.rs");
    reveal_strlit("client/Cargo.toml");
    reveal_strlit("client/src/main.rs");
    assert(safe_relative_path("program/src"@));
    assert(safe_relative_path("src"@));
    assert(safe_relative_path("client/src"@));
    assert(safe_relative_path("Cargo.toml"@));
    assert(safe_relative_path("src/lib.rs"@));
    assert(safe_relative_path("program/Cargo.toml"@));
    assert(safe_relative_path("program/src/main.rs"@));
    assert(safe_relative_path("program.json"@));
    assert(safe_relative_path("caller.json"@));
    assert(safe_relative_path("build.rs"@));
    assert(safe_relative_path("client/Cargo.toml"@));
    assert(safe_relative_path("client/src/main.rs"@));
}

/// `hay` contains `needle` as one contiguous run.
pub open spec fn contains_seq(hay: Seq<char>, needle: Seq<char>) -> bool {
    exists|i: int|
        0 <= i && i + needle.len() <= hay.len() && #[trigger] hay.subrange(
            i,
            i + needle.len() as int,
        ) == needle
}

/// In text assembled as `before + name + ("-program" + tail)`, the name is
/// immediately followed by the `-program` marker.
proof fn lemma_marker_follows_name(before: Seq<char>, name: Seq<char>, tail: Seq<char>)
    ensures
        contains_seq(before + name + ("-program"@ + tail), name + "-program"@),
{
    reveal_strlit("-program");
    let text = before + name + ("-program"@ + tail);
    let needle = name + "-program"@;
    let b = before.len() as int;
    assert(text.subrange(b, b + needle.len() as int) =~= needle);
}

/// The package-name substitutions are consistent: in every variant, the
/// root manifest — the first planned file — contains the project name
/// immediately followed by `-program`, the generated package name.
pub proof fn lemma_root_manifest_names_package(v: Variant, name: Seq<char>)
    ensures
        contains_seq(plan_model(v, name).files[0].contents, name + "-program"@),
{
    match v {
        Variant::Minimal => {
            assert(plan_model(v, name).files[0].contents == ROOT_PACKAGE_HEADER@ + name + (
            "-program"@ + MINIMAL_ROOT_TAIL@));
            lemma_marker_follows_name(ROOT_PACKAGE_HEADER@, name, MINIMAL_ROOT_TAIL@);
        },
        Variant::ClientProgram => {
            assert(plan_model(v, name).files[0].contents == ROOT_PACKAGE_HEADER@ + name + (
            "-program"@ + CLIENT_SPLIT_ROOT_TAIL@));
            lemma_marker_follows_name(ROOT_PACKAGE_HEADER@, name, CLIENT_SPLIT_ROOT_TAIL@);
        },
        Variant::Workspace => {
            assert(plan_model(v, name).files[0].contents == WORKSPACE_PACKAGE_HEADER@ + name + (
            "-program"@ + WORKSPACE_ROOT_TAIL@));
            lemma_marker_follows_name(WORKSPACE_PACKAGE_HEADER@, name, WORKSPACE_ROOT_TAIL@);
        },
    }
}

/// Every successful plan is rooted at exactly the requested name, which is
/// then known to be a single non-empty path segment free of separators.
pub proof fn lemma_plan_root_single_segment(name: Seq<char>, v: Variant, root_exists: bool)
    requires
        generate_outcome(name, v, root_exists) is Ok,
    ensures
        generate_outcome(name, v, root_exists)->Ok_0.root == name,
        valid_project_name(name),
{
}

} // verus!
