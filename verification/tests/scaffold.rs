use arch_scaffold::errors::ScaffoldError;
use arch_scaffold::plan::generate;
use arch_scaffold::plan::ScaffoldPlan;
use arch_scaffold::project::str_eq;
use arch_scaffold::project::validate_project_name;
use arch_scaffold::registry::manifest_for;
use arch_scaffold::registry::variant_from_name;
use arch_scaffold::registry::Variant;
use arch_scaffold::registry::CALLER_ID_FILE;
use arch_scaffold::registry::PROGRAM_ID_FILE;
use arch_scaffold::template::render;
use arch_scaffold::template::Content;

fn paths_of(plan: &ScaffoldPlan) -> Vec<&str> {
    plan.files.iter().map(|f| f.path.as_str()).collect()
}

#[test]
fn minimal_variant_file_set() {
    let plan = generate("hello", Variant::Minimal, false).unwrap();
    assert_eq!(plan.root, "hello");
    let dirs: Vec<&str> = plan.dirs.iter().map(|d| d.as_str()).collect();
    assert_eq!(dirs, vec!["program/src", "src"]);
    assert_eq!(
        paths_of(&plan),
        vec![
            "Cargo.toml",
            "src/lib.rs",
            "program/Cargo.toml",
            "program/src/main.rs",
            "program.json",
            "caller.json",
        ]
    );
}

#[test]
fn minimal_variant_rendered_manifests_exact() {
    let plan = generate("hello", Variant::Minimal, false).unwrap();
    let expected_root = "\n[package]\nname = \"hello-program\"\nversion = \"0.1.0\"\nedition = \"2021\"\n\n[dependencies]\ncommon = { path = \"../common\" }\nsdk = { path = \"../../sdk\" }\n\nbitcoincore-rpc = \"0.18.0\"\nhex = \"0.4.3\"\nborsh = { version = \"1.4.0\", features = [\"derive\"] }\nbitcoin = { version = \"0.31.0\", features = [\"serde\", \"rand\"] }\nlog = \"0.4\"\nenv_logger = \"0.10\"\n\n[dev-dependencies]\nserial_test = \"3.1.1\"\n";
    assert_eq!(plan.files[0].contents, expected_root);
    let expected_program = "[package]\nname = \"hello-program\"\nversion = \"0.1.0\"\nedition = \"2021\"\n\n# See more keys and their definitions at https://doc.rust-lang.org/cargo/reference/manifest.html\n\n[dependencies]\narch_program = { path = \"../../../program\" }\nborsh = { version = \"1.5.1\", features = [\"derive\"] }\n\n[lib]\ncrate-type = [\"cdylib\", \"lib\"]\n";
    assert_eq!(plan.files[2].contents, expected_program);
    assert_eq!(
        plan.files[1].contents,
        "pub fn example_function() {\n    println!(\"This is an example function in lib.rs\");\n}"
    );
    assert_eq!(
        plan.files[3].contents,
        "fn main() {\n    println!(\"Hello, Arch!\");\n}"
    );
}

#[test]
fn identifier_files_fixed_across_names() {
    let plan_a = generate("hello", Variant::Minimal, false).unwrap();
    let plan_b = generate("other", Variant::Minimal, false).unwrap();
    assert_eq!(plan_a.files[4].contents, PROGRAM_ID_FILE);
    assert_eq!(plan_a.files[5].contents, CALLER_ID_FILE);
    assert_eq!(plan_a.files[4].contents, plan_b.files[4].contents);
    assert_eq!(plan_a.files[5].contents, plan_b.files[5].contents);
    assert!(plan_a.files[4]
        .contents
        .contains("5f2c8a4b9d013e76a1c05b84e2f9d3a7c6014f8b2e9a7d35c08b61f4a2d9e073"));
    assert!(plan_a.files[5]
        .contents
        .contains("9b7e2f50c3a18d64f0b92c7a5e31d8469aa05c17e4b3f8d2061c9e5b7a34f0d8"));
}

#[test]
fn root_manifest_contains_package_name() {
    let plan = generate("demo", Variant::Minimal, false).unwrap();
    assert!(plan.files[0].contents.contains("demo-program"));
    let plan = generate("demo", Variant::ClientProgram, false).unwrap();
    assert!(plan.files[0].contents.contains("demo-program"));
    let plan = generate("demo", Variant::Workspace, false).unwrap();
    assert!(plan.files[0].contents.contains("demo-program"));
}

#[test]
fn every_parameterized_file_names_the_project() {
    let plan = generate("quartz", Variant::Minimal, false).unwrap();
    assert!(plan.files[0].contents.contains("quartz"));
    assert!(plan.files[2].contents.contains("quartz"));
}

#[test]
fn existing_root_reports_already_exists() {
    assert_eq!(
        generate("hello", Variant::Minimal, true).unwrap_err(),
        ScaffoldError::AlreadyExists
    );
}

#[test]
fn rerun_after_success_reports_already_exists() {
    let first = generate("hello", Variant::Minimal, false);
    assert!(first.is_ok());
    let second = generate("hello", Variant::Minimal, true);
    assert_eq!(second.unwrap_err(), ScaffoldError::AlreadyExists);
}

#[test]
fn separator_names_rejected() {
    assert_eq!(
        generate("a/b", Variant::Minimal, false).unwrap_err(),
        ScaffoldError::InvalidName
    );
    assert_eq!(
        generate("a\\b", Variant::Minimal, false).unwrap_err(),
        ScaffoldError::InvalidName
    );
    assert_eq!(
        generate("", Variant::Minimal, false).unwrap_err(),
        ScaffoldError::InvalidName
    );
    assert_eq!(
        generate("../up", Variant::Workspace, true).unwrap_err(),
        ScaffoldError::InvalidName
    );
}

#[test]
fn validate_project_name_cases() {
    assert!(validate_project_name("hello"));
    assert!(validate_project_name("a.b"));
    assert!(validate_project_name("x"));
    assert!(!validate_project_name(""));
    assert!(!validate_project_name("a/b"));
    assert!(!validate_project_name("a\\b"));
    assert!(!validate_project_name("/"));
}

#[test]
fn variant_names_resolve() {
    assert_eq!(variant_from_name("minimal").unwrap(), Variant::Minimal);
    assert_eq!(
        variant_from_name("client-program").unwrap(),
        Variant::ClientProgram
    );
    assert_eq!(variant_from_name("workspace").unwrap(), Variant::Workspace);
    assert_eq!(
        variant_from_name("Minimal").unwrap_err(),
        ScaffoldError::UnknownVariant
    );
    assert_eq!(
        variant_from_name("").unwrap_err(),
        ScaffoldError::UnknownVariant
    );
}

#[test]
fn error_messages_name_the_subject() {
    assert_eq!(
        ScaffoldError::AlreadyExists.describe("hello"),
        "Error: Directory `hello` already exists!"
    );
    assert_eq!(
        ScaffoldError::InvalidName.describe("a/b"),
        "Error: Invalid project name `a/b`: the name must be a single non-empty path segment!"
    );
    assert_eq!(
        ScaffoldError::IoFailure.describe("hello"),
        "Error: Failed to write project files under `hello`!"
    );
    assert_eq!(
        ScaffoldError::UnknownVariant.describe("fancy"),
        "Error: Unknown template variant `fancy`!"
    );
}

#[test]
fn client_program_variant_file_set() {
    let plan = generate("hello", Variant::ClientProgram, false).unwrap();
    let dirs: Vec<&str> = plan.dirs.iter().map(|d| d.as_str()).collect();
    assert_eq!(dirs, vec!["program/src", "client/src"]);
    assert_eq!(
        paths_of(&plan),
        vec![
            "Cargo.toml",
            "program/Cargo.toml",
            "program/src/main.rs",
            "client/Cargo.toml",
            "client/src/main.rs",
        ]
    );
    assert!(plan.files[3].contents.contains("hello-client"));
    assert!(!paths_of(&plan).contains(&"program.json"));
    assert!(!paths_of(&plan).contains(&"caller.json"));
}

#[test]
fn workspace_variant_file_set() {
    let plan = generate("hello", Variant::Workspace, false).unwrap();
    let dirs: Vec<&str> = plan.dirs.iter().map(|d| d.as_str()).collect();
    assert_eq!(dirs, vec!["program/src", "src"]);
    assert_eq!(
        paths_of(&plan),
        vec![
            "Cargo.toml",
            "build.rs",
            "src/lib.rs",
            "program/Cargo.toml",
            "program/src/main.rs",
            "program.json",
            "caller.json",
        ]
    );
    assert!(plan.files[0].contents.starts_with("[workspace]"));
    assert!(plan.files[1]
        .contents
        .contains("cargo:rerun-if-changed=program/src"));
}

#[test]
fn registry_is_pure() {
    let a = manifest_for(Variant::Minimal);
    let b = manifest_for(Variant::Minimal);
    let paths_a: Vec<&str> = a.files.iter().map(|f| f.path.as_str()).collect();
    let paths_b: Vec<&str> = b.files.iter().map(|f| f.path.as_str()).collect();
    assert_eq!(paths_a, paths_b);
    let dirs_a: Vec<&str> = a.dirs.iter().map(|d| d.as_str()).collect();
    let dirs_b: Vec<&str> = b.dirs.iter().map(|d| d.as_str()).collect();
    assert_eq!(dirs_a, dirs_b);
}

#[test]
fn render_substitutes_exactly_once() {
    let fixed = Content::Fixed(String::from("static text"));
    assert_eq!(render(&fixed, "name"), "static text");
    let parameterized = Content::Parameterized {
        before: String::from("pkg = \""),
        after: String::from("-program\""),
    };
    assert_eq!(render(&parameterized, "demo"), "pkg = \"demo-program\"");
}

#[test]
fn str_eq_cases() {
    assert!(str_eq("", ""));
    assert!(str_eq("abc", "abc"));
    assert!(!str_eq("abc", "abd"));
    assert!(!str_eq("abc", "abcd"));
}
