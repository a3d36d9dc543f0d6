//! The template registry: per variant, the declarative list of directories
//! to create and files to render.
//!
//! Every piece of generated text lives here as a constant. A parameterized
//! manifest is split into the text before its single substitution point, the
//! package-name marker that follows the project name, and the rest; fixed
//! stub files are single constants.

use crate::errors::ScaffoldError;
use crate::project::str_eq;
use crate::template::Content;
use crate::template::ContentModel;
use vstd::prelude::*;

verus! {

/// The closed set of supported scaffold layouts.
#[derive(Clone, Copy, Debug, PartialEq, Eq, Structural)]
pub enum Variant {
    /// A single package with an embedded on-chain program and the two fixed
    /// identifier files.
    Minimal,
    /// A program/client split without identifier files.
    ClientProgram,
    /// A workspace layout with a top-level build-orchestration stub.
    Workspace,
}

/// Start of a root manifest: everything before the project name.
pub const ROOT_PACKAGE_HEADER: &'static str = "\n[package]\nname = \"";

/// Start of a nested (program or client) manifest: everything before the
/// project name.
pub const NESTED_PACKAGE_HEADER: &'static str = "[package]\nname = \"";

/// Start of the workspace root manifest: everything before the project name.
pub const WORKSPACE_PACKAGE_HEADER: &'static str =
    "[workspace]\nmembers = [\"program\"]\n\n[package]\nname = \"";

/// Root manifest of the minimal layout after the package name.
pub const MINIMAL_ROOT_TAIL: &'static str = "\"\nversion = \"0.1.0\"\nedition = \"2021\"\n\n[dependencies]\ncommon = { path = \"../common\" }\nsdk = { path = \"../../sdk\" }\n\nbitcoincore-rpc = \"0.18.0\"\nhex = \"0.4.3\"\nborsh = { version = \"1.4.0\", features = [\"derive\"] }\nbitcoin = { version = \"0.31.0\", features = [\"serde\", \"rand\"] }\nlog = \"0.4\"\nenv_logger = \"0.10\"\n\n[dev-dependencies]\nserial_test = \"3.1.1\"\n";

/// Program manifest after the package name, shared by all layouts.
pub const PROGRAM_MANIFEST_TAIL: &'static str = "\"\nversion = \"0.1.0\"\nedition = \"2021\"\n\n# See more keys and their definitions at https://doc.rust-lang.org/cargo/reference/manifest.html\n\n[dependencies]\narch_program = { path = \"../../../program\" }\nborsh = { version = \"1.5.1\", features = [\"derive\"] }\n\n[lib]\ncrate-type = [\"cdylib\", \"lib\"]\n";

/// Root manifest of the program/client split layout after the package name.
pub const CLIENT_SPLIT_ROOT_TAIL: &'static str = "\"\nversion = \"0.1.0\"\nedition = \"2021\"\n\n[dependencies]\ncommon = { path = \"../common\" }\nsdk = { path = \"../../sdk\" }\n\nhex = \"0.4.3\"\nborsh = { version = \"1.4.0\", features = [\"derive\"] }\n";

/// Client manifest after the package name.
pub const CLIENT_MANIFEST_TAIL: &'static str = "\"\nversion = \"0.1.0\"\nedition = \"2021\"\n\n[dependencies]\nsdk = { path = \"../../../sdk\" }\nhex = \"0.4.3\"\n";

/// Root manifest of the workspace layout after the package name.
pub const WORKSPACE_ROOT_TAIL: &'static str = "\"\nversion = \"0.1.0\"\nedition = \"2021\"\n\n[dependencies]\ncommon = { path = \"../common\" }\nsdk = { path = \"../../sdk\" }\n\nborsh = { version = \"1.4.0\", features = [\"derive\"] }\n";

/// Stub entry point of the generated program.
pub const MAIN_STUB: &'static str = "fn main() {\n    println!(\"Hello, Arch!\");\n}";

/// Stub library root of the generated package.
pub const LIB_STUB: &'static str =
    "pub fn example_function() {\n    println!(\"This is an example function in lib.rs\");\n}";

/// Stub entry point of the generated client.
pub const CLIENT_MAIN_STUB: &'static str =
    "fn main() {\n    println!(\"Hello from the Arch client!\");\n}";

/// Stub build-orchestration script of the workspace layout.
pub const BUILD_STUB: &'static str =
    "fn main() {\n    println!(\"cargo:rerun-if-changed=program/src\");\n}";

/// Fixed program-identifier file, identical across all generated projects.
pub const PROGRAM_ID_FILE: &'static str =
    "{\n  \"program_id\": \"5f2c8a4b9d013e76a1c05b84e2f9d3a7c6014f8b2e9a7d35c08b61f4a2d9e073\"\n}\n";

/// Fixed caller-identifier file, identical across all generated projects.
pub const CALLER_ID_FILE: &'static str =
    "{\n  \"caller_id\": \"9b7e2f50c3a18d64f0b92c7a5e31d8469aa05c17e4b3f8d2061c9e5b7a34f0d8\"\n}\n";

/// One file of a manifest: where it goes and what it holds.
pub struct FileTemplate {
    pub path: String,
    pub content: Content,
}

/// The mathematical shape of a `FileTemplate`.
#[verifier::ext_equal]
pub ghost struct FileTemplateModel {
    pub path: Seq<char>,
    pub content: ContentModel,
}

impl View for FileTemplate {
    type V = FileTemplateModel;

    open spec fn view(&self) -> FileTemplateModel {
        FileTemplateModel { path: self.path@, content: self.content@ }
    }
}

/// The full, ordered description of one variant: directories to pre-create,
/// then files to render.
pub struct ScaffoldManifest {
    pub dirs: Vec<String>,
    pub files: Vec<FileTemplate>,
}

/// The mathematical shape of a `ScaffoldManifest`.
#[verifier::ext_equal]
pub ghost struct ManifestModel {
    pub dirs: Seq<Seq<char>>,
    pub files: Seq<FileTemplateModel>,
}

impl View for ScaffoldManifest {
    type V = ManifestModel;

    open spec fn view(&self) -> ManifestModel {
        ManifestModel {
            dirs: self.dirs@.map_values(|d: String| d@),
            files: self.files@.map_values(|f: FileTemplate| f@),
        }
    }
}

/// A parameterized manifest entry: `before`, then the name, then the marker
/// (`-program` or `-client`), then `tail`.
pub open spec fn parameterized_model(before: Seq<char>, marker: Seq<char>, tail: Seq<char>) -> ContentModel {
    ContentModel::Parameterized { before: before, after: marker + tail }
}

/// The manifest of each variant, as declarative data.
pub open spec fn manifest_model(v: Variant) -> ManifestModel {
    match v {
        Variant::Minimal => ManifestModel {
            dirs: seq!["program/src"@, "src"@],
            files: seq![
                FileTemplateModel {
                    path: "Cargo.toml"@,
                    content: parameterized_model(ROOT_PACKAGE_HEADER@, "-program"@, MINIMAL_ROOT_TAIL@),
                },
                FileTemplateModel { path: "src/lib.rs"@, content: ContentModel::Fixed(LIB_STUB@) },
                FileTemplateModel {
                    path: "program/Cargo.toml"@,
                    content: parameterized_model(NESTED_PACKAGE_HEADER@, "-program"@, PROGRAM_MANIFEST_TAIL@),
                },
                FileTemplateModel {
                    path: "program/src/main.rs"@,
                    content: ContentModel::Fixed(MAIN_STUB@),
                },
                FileTemplateModel {
                    path: "program.json"@,
                    content: ContentModel::Fixed(PROGRAM_ID_FILE@),
                },
                FileTemplateModel {
                    path: "caller.json"@,
                    content: ContentModel::Fixed(CALLER_ID_FILE@),
                },
            ],
        },
        Variant::ClientProgram => ManifestModel {
            dirs: seq!["program/src"@, "client/src"@],
            files: seq![
                FileTemplateModel {
                    path: "Cargo.toml"@,
                    content: parameterized_model(ROOT_PACKAGE_HEADER@, "-program"@, CLIENT_SPLIT_ROOT_TAIL@),
                },
                FileTemplateModel {
                    path: "program/Cargo.toml"@,
                    content: parameterized_model(NESTED_PACKAGE_HEADER@, "-program"@, PROGRAM_MANIFEST_TAIL@),
                },
                FileTemplateModel {
                    path: "program/src/main.rs"@,
                    content: ContentModel::Fixed(MAIN_STUB@),
                },
                FileTemplateModel {
                    path: "client/Cargo.toml"@,
                    content: parameterized_model(NESTED_PACKAGE_HEADER@, "-client"@, CLIENT_MANIFEST_TAIL@),
                },
                FileTemplateModel {
                    path: "client/src/main.rs"@,
                    content: ContentModel::Fixed(CLIENT_MAIN_STUB@),
                },
            ],
        },
        Variant::Workspace => ManifestModel {
            dirs: seq!["program/src"@, "src"@],
            files: seq![
                FileTemplateModel {
                    path: "Cargo.toml"@,
                    content: parameterized_model(WORKSPACE_PACKAGE_HEADER@, "-program"@, WORKSPACE_ROOT_TAIL@),
                },
                FileTemplateModel { path: "build.rs"@, content: ContentModel::Fixed(BUILD_STUB@) },
                FileTemplateModel { path: "src/lib.rs"@, content: ContentModel::Fixed(LIB_STUB@) },
                FileTemplateModel {
                    path: "program/Cargo.toml"@,
                    content: parameterized_model(NESTED_PACKAGE_HEADER@, "-program"@, PROGRAM_MANIFEST_TAIL@),
                },
                FileTemplateModel {
                    path: "program/src/main.rs"@,
                    content: ContentModel::Fixed(MAIN_STUB@),
                },
                FileTemplateModel {
                    path: "program.json"@,
                    content: ContentModel::Fixed(PROGRAM_ID_FILE@),
                },
                FileTemplateModel {
                    path: "caller.json"@,
                    content: ContentModel::Fixed(CALLER_ID_FILE@),
                },
            ],
        },
    }
}

/// Builds a parameterized content value from its three constant pieces.
fn parameterized(before: &str, marker: &str, tail: &str) -> (c: Content)
    ensures
        c@ == parameterized_model(before@, marker@, tail@),
{
    let mut after = String::from_str(marker);
    after.append(tail);
    Content::Parameterized { before: String::from_str(before), after }
}

/// Builds a fixed content value from its constant text.
fn fixed(text: &str) -> (c: Content)
    ensures
        c@ == ContentModel::Fixed(text@),
{
    Content::Fixed(String::from_str(text))
}

/// Builds one manifest entry.
fn entry(path: &str, content: Content) -> (f: FileTemplate)
    ensures
        f@ == (FileTemplateModel { path: path@, content: content@ }),
{
    FileTemplate { path: String::from_str(path), content }
}

/// The registry lookup: the manifest of the requested variant, exactly as
/// `manifest_model` declares it. Pure: no side effect, no I/O.
pub fn manifest_for(v: Variant) -> (m: ScaffoldManifest)
    ensures
        m@ == manifest_model(v),
{
    match v {
        Variant::Minimal => {
            let mut dirs: Vec<String> = Vec::new();
            dirs.push(String::from_str("program/src"));
            dirs.push(String::from_str("src"));
            let mut files: Vec<FileTemplate> = Vec::new();
            files.push(entry("Cargo.toml", parameterized(ROOT_PACKAGE_HEADER, "-program", MINIMAL_ROOT_TAIL)));
            files.push(entry("src/lib.rs", fixed(LIB_STUB)));
            files.push(entry("program/Cargo.toml", parameterized(NESTED_PACKAGE_HEADER, "-program", PROGRAM_MANIFEST_TAIL)));
            files.push(entry("program/src/main.rs", fixed(MAIN_STUB)));
            files.push(entry("program.json", fixed(PROGRAM_ID_FILE)));
            files.push(entry("caller.json", fixed(CALLER_ID_FILE)));
            let m = ScaffoldManifest { dirs, files };
            proof {
                assert(m@ =~~= manifest_model(Variant::Minimal));
            }
            m
        },
        Variant::ClientProgram => {
            let mut dirs: Vec<String> = Vec::new();
            dirs.push(String::from_str("program/src"));
            dirs.push(String::from_str("client/src"));
            let mut files: Vec<FileTemplate> = Vec::new();
            files.push(entry("Cargo.toml", parameterized(ROOT_PACKAGE_HEADER, "-program", CLIENT_SPLIT_ROOT_TAIL)));
            files.push(entry("program/Cargo.toml", parameterized(NESTED_PACKAGE_HEADER, "-program", PROGRAM_MANIFEST_TAIL)));
            files.push(entry("program/src/main.rs", fixed(MAIN_STUB)));
            files.push(entry("client/Cargo.toml", parameterized(NESTED_PACKAGE_HEADER, "-client", CLIENT_MANIFEST_TAIL)));
            files.push(entry("client/src/main.rs", fixed(CLIENT_MAIN_STUB)));
            let m = ScaffoldManifest { dirs, files };
            proof {
                assert(m@ =~~= manifest_model(Variant::ClientProgram));
            }
            m
        },
        Variant::Workspace => {
            let mut dirs: Vec<String> = Vec::new();
            dirs.push(String::from_str("program/src"));
            dirs.push(String::from_str("src"));
            let mut files: Vec<FileTemplate> = Vec::new();
            files.push(entry("Cargo.toml", parameterized(WORKSPACE_PACKAGE_HEADER, "-program", WORKSPACE_ROOT_TAIL)));
            files.push(entry("build.rs", fixed(BUILD_STUB)));
            files.push(entry("src/lib.rs", fixed(LIB_STUB)));
            files.push(entry("program/Cargo.toml", parameterized(NESTED_PACKAGE_HEADER, "-program", PROGRAM_MANIFEST_TAIL)));
            files.push(entry("program/src/main.rs", fixed(MAIN_STUB)));
            files.push(entry("program.json", fixed(PROGRAM_ID_FILE)));
            files.push(entry("caller.json", fixed(CALLER_ID_FILE)));
            let m = ScaffoldManifest { dirs, files };
            proof {
                assert(m@ =~~= manifest_model(Variant::Workspace));
            }
            m
        },
    }
}

/// The variant a command-line token selects; any token outside the closed
/// set is an `UnknownVariant` error.
pub open spec fn variant_of_name(s: Seq<char>) -> Result<Variant, ScaffoldError> {
    if s == "minimal"@ {
        Ok(Variant::Minimal)
    } else if s == "client-program"@ {
        Ok(Variant::ClientProgram)
    } else if s == "workspace"@ {
        Ok(Variant::Workspace)
    } else {
        Err(ScaffoldError::UnknownVariant)
    }
}

/// Resolves a variant name, totally: every token outside the closed set of
/// variants is rejected with `UnknownVariant`.
pub fn variant_from_name(s: &str) -> (r: Result<Variant, ScaffoldError>)
    ensures
        r == variant_of_name(s@),
{
    if str_eq(s, "minimal") {
        Ok(Variant::Minimal)
    } else if str_eq(s, "client-program") {
        Ok(Variant::ClientProgram)
    } else if str_eq(s, "workspace") {
        Ok(Variant::Workspace)
    } else {
        Err(ScaffoldError::UnknownVariant)
    }
}

} // verus!
