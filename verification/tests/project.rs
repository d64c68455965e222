use coldbrew::error::{Field, ManifestError, ParseFault};
use coldbrew::manifest::{Manifest, Package};
use coldbrew::scaffold::{initial_manifest_text, is_valid_name, plan};
use coldbrew::store::{add_package, io_error, load, manifest_file, report, IoFailure, Operation};

const TEMPLATE: &str = "[package]\nname = \"demo\"\nversion = \"0.1.0\"\ndescription = \"\"\nauthors = [\"you@example.com\"]\n\n[dependencies]\n";

#[test]
fn initial_text_is_the_template() {
    assert_eq!(initial_manifest_text("demo"), TEMPLATE);
}

#[test]
fn initial_text_holds_the_initial_manifest() {
    let manifest = Manifest::deserialize(&initial_manifest_text("my-app_2")).unwrap();
    assert_eq!(manifest, Manifest::new("my-app_2"));
}

#[test]
fn initial_text_is_what_the_initial_manifest_serializes_to() {
    assert_eq!(Manifest::new("demo").serialize().unwrap(), initial_manifest_text("demo"));
}

#[test]
fn valid_names() {
    assert!(is_valid_name("demo"));
    assert!(is_valid_name("my-app_2"));
    assert!(is_valid_name("..."));
    assert!(is_valid_name(".hidden"));
    assert!(is_valid_name("a.b"));
    assert!(is_valid_name("with space"));
    assert!(is_valid_name("caf\u{e9}"));
    assert!(is_valid_name("x"));
}

#[test]
fn invalid_names() {
    assert!(!is_valid_name(""));
    assert!(!is_valid_name("."));
    assert!(!is_valid_name(".."));
    assert!(!is_valid_name("a/b"));
    assert!(!is_valid_name("../up"));
    assert!(!is_valid_name("/abs"));
    assert!(!is_valid_name("a\\b"));
    assert!(!is_valid_name("a\"b"));
    assert!(!is_valid_name("a\nb"));
    assert!(!is_valid_name("a\tb"));
    assert!(!is_valid_name("a\u{0}b"));
    assert!(!is_valid_name("a\u{7f}"));
    assert!(!is_valid_name("dir/"));
}

#[test]
fn plan_names_one_directory_and_one_file() {
    let plan = plan("demo").unwrap();
    assert_eq!(plan.directory, "demo");
    assert_eq!(plan.file_name, "coldbrew.toml");
    assert_eq!(plan.contents, TEMPLATE);
}

#[test]
fn plan_refuses_names_that_leave_the_directory() {
    assert_eq!(plan("../demo"), Err(ManifestError::InvalidName));
    assert_eq!(plan(".."), Err(ManifestError::InvalidName));
    assert_eq!(plan(""), Err(ManifestError::InvalidName));
    assert_eq!(plan("a/b"), Err(ManifestError::InvalidName));
}

#[test]
fn manifest_file_has_the_fixed_name() {
    assert_eq!(manifest_file(), "coldbrew.toml");
}

#[test]
fn io_error_tells_an_existing_directory_apart() {
    assert_eq!(
        io_error(Operation::CreateDirectory, IoFailure::AlreadyExists, "File exists".to_string()),
        ManifestError::DirectoryExists
    );
    assert_eq!(
        io_error(Operation::CreateDirectory, IoFailure::Other, "Permission denied".to_string()),
        ManifestError::IoError("Permission denied".to_string())
    );
    assert_eq!(
        io_error(Operation::CreateDirectory, IoFailure::NotFound, "No such file".to_string()),
        ManifestError::IoError("No such file".to_string())
    );
}

#[test]
fn io_error_tells_a_missing_manifest_apart() {
    assert_eq!(
        io_error(Operation::ReadManifest, IoFailure::NotFound, "No such file".to_string()),
        ManifestError::FileNotFound
    );
    assert_eq!(
        io_error(Operation::ReadManifest, IoFailure::Other, "Permission denied".to_string()),
        ManifestError::IoError("Permission denied".to_string())
    );
    assert_eq!(
        io_error(Operation::ReadManifest, IoFailure::AlreadyExists, "odd".to_string()),
        ManifestError::IoError("odd".to_string())
    );
}

#[test]
fn io_error_of_a_failed_write_carries_the_message() {
    assert_eq!(
        io_error(Operation::WriteManifest, IoFailure::Other, "No space left".to_string()),
        ManifestError::IoError("No space left".to_string())
    );
    assert_eq!(
        io_error(Operation::WriteManifest, IoFailure::NotFound, "gone".to_string()),
        ManifestError::IoError("gone".to_string())
    );
    assert_eq!(
        io_error(Operation::WriteManifest, IoFailure::AlreadyExists, "odd".to_string()),
        ManifestError::IoError("odd".to_string())
    );
}

#[test]
fn load_of_a_missing_file_is_file_not_found() {
    assert_eq!(
        load(Err((IoFailure::NotFound, "No such file".to_string()))),
        Err(ManifestError::FileNotFound)
    );
}

#[test]
fn load_of_a_failed_read_is_an_io_error() {
    assert_eq!(
        load(Err((IoFailure::Other, "Permission denied".to_string()))),
        Err(ManifestError::IoError("Permission denied".to_string()))
    );
}

#[test]
fn load_reads_the_contents() {
    assert_eq!(load(Ok(TEMPLATE.to_string())), Ok(Manifest::new("demo")));
}

#[test]
fn load_propagates_parse_errors() {
    assert_eq!(
        load(Ok("[dependencies]\n".to_string())),
        Err(ManifestError::ParseError(ParseFault::Missing(Field::Package)))
    );
    assert!(matches!(
        load(Ok("not toml".to_string())),
        Err(ManifestError::ParseError(ParseFault::Syntax(_)))
    ));
}

#[test]
fn add_to_a_manifest_without_a_section() {
    let text = "[package]\nname = \"demo\"\nversion = \"0.1.0\"\ndescription = \"\"\nauthors = []\n";
    let after = add_package(Ok(text.to_string()), "foo").unwrap();
    assert_eq!(
        after,
        "[package]\nname = \"demo\"\nversion = \"0.1.0\"\ndescription = \"\"\nauthors = []\n\n[dependencies]\nfoo = \"0.1.0\"\n"
    );
    let manifest = Manifest::deserialize(&after).unwrap();
    assert_eq!(manifest.dependencies().unwrap().len(), 1);
    assert_eq!(manifest.requirement("foo"), Some(&"0.1.0".to_string()));
}

#[test]
fn add_twice_through_the_file_leaves_one_entry() {
    let once = add_package(Ok(TEMPLATE.to_string()), "foo").unwrap();
    let twice = add_package(Ok(once.clone()), "foo").unwrap();
    assert_eq!(once, twice);
    let manifest = Manifest::deserialize(&twice).unwrap();
    assert_eq!(manifest.dependencies().unwrap().len(), 1);
    assert_eq!(manifest.requirement("foo"), Some(&"0.1.0".to_string()));
    assert_eq!(twice.matches("foo").count(), 1);
}

#[test]
fn add_keeps_the_package_name() {
    let after = add_package(Ok(TEMPLATE.to_string()), "foo").unwrap();
    let manifest = Manifest::deserialize(&after).unwrap();
    assert_eq!(manifest.package(), Manifest::new("demo").package());
}

#[test]
fn add_replaces_an_earlier_requirement() {
    let text = format!("{}left-pad = \"1.0.0\"\nother = \"3\"\n", TEMPLATE);
    let after = add_package(Ok(text), "left-pad").unwrap();
    let manifest = Manifest::deserialize(&after).unwrap();
    assert_eq!(manifest.requirement("left-pad"), Some(&"0.1.0".to_string()));
    assert_eq!(manifest.requirement("other"), Some(&"3".to_string()));
    assert_eq!(manifest.dependencies().unwrap().len(), 2);
    assert_eq!(manifest.dependencies().unwrap()[0].name, "left-pad");
}

#[test]
fn add_without_a_manifest_is_file_not_found() {
    assert_eq!(
        add_package(Err((IoFailure::NotFound, "No such file".to_string())), "foo"),
        Err(ManifestError::FileNotFound)
    );
}

#[test]
fn add_to_a_broken_manifest_is_a_parse_error() {
    assert_eq!(
        add_package(Ok("[package]\nname = \"n\"\n".to_string()), "foo"),
        Err(ManifestError::ParseError(ParseFault::Missing(Field::Version)))
    );
}

#[test]
fn report_names_the_package_and_its_dependencies() {
    let mut manifest = Manifest::from_package(Package {
        name: "demo".to_string(),
        version: "0.1.0".to_string(),
        description: String::new(),
        authors: Vec::new(),
    });
    manifest.add_dependency("left-pad", "1.0.0");
    let lines = report(&manifest);
    assert_eq!(lines, vec!["Project: demo".to_string(), "Dependency: left-pad v1.0.0".to_string()]);
    assert!(lines.iter().any(|l| l.contains("demo")));
    assert!(lines.iter().any(|l| l.contains("left-pad") && l.contains("1.0.0")));
}

#[test]
fn report_of_a_manifest_without_a_section() {
    let manifest = Manifest::from_package(Package {
        name: "demo".to_string(),
        version: "0.1.0".to_string(),
        description: String::new(),
        authors: Vec::new(),
    });
    assert_eq!(report(&manifest), vec!["Project: demo".to_string(), "No dependencies.".to_string()]);
}

#[test]
fn report_of_an_empty_section_has_only_the_package() {
    assert_eq!(report(&Manifest::new("demo")), vec!["Project: demo".to_string()]);
}

#[test]
fn report_lists_dependencies_in_declared_order() {
    let mut manifest = Manifest::new("demo");
    manifest.add_dependency("zeta", "1");
    manifest.add_dependency("alpha", "2");
    assert_eq!(
        report(&manifest),
        vec![
            "Project: demo".to_string(),
            "Dependency: zeta v1".to_string(),
            "Dependency: alpha v2".to_string(),
        ]
    );
}

#[test]
fn describe_words_each_error() {
    assert_eq!(ManifestError::DirectoryExists.describe(), "the project directory already exists");
    assert_eq!(
        ManifestError::FileNotFound.describe(),
        "no coldbrew.toml in this directory; create a project with `new` first"
    );
    assert_eq!(
        ManifestError::ParseError(ParseFault::Missing(Field::Name)).describe(),
        "missing field `package.name`"
    );
    assert_eq!(
        ManifestError::ParseError(ParseFault::Invalid(Field::Dependencies)).describe(),
        "invalid type for field `dependencies`"
    );
    assert_eq!(
        ManifestError::ParseError(ParseFault::Syntax("line 1".to_string())).describe(),
        "line 1"
    );
    assert_eq!(ManifestError::IoError("Permission denied".to_string()).describe(), "Permission denied");
    assert_eq!(
        ManifestError::InvalidName.describe(),
        "the name cannot be used for a project directory"
    );
    assert_eq!(ManifestError::RenderError("bad".to_string()).describe(), "bad");
}

#[test]
fn field_names_are_paths_in_the_document() {
    assert_eq!(Field::Package.name(), "package");
    assert_eq!(Field::Name.name(), "package.name");
    assert_eq!(Field::Version.name(), "package.version");
    assert_eq!(Field::Description.name(), "package.description");
    assert_eq!(Field::Authors.name(), "package.authors");
    assert_eq!(Field::Dependencies.name(), "dependencies");
}

#[test]
fn syntax_fault_carries_the_parser_diagnostic() {
    let text = "[package]\nname = \n";
    let expected = toml::from_str::<toml::Table>(text).unwrap_err().to_string();
    match Manifest::deserialize(text) {
        Err(error) => {
            assert_eq!(error, ManifestError::ParseError(ParseFault::Syntax(expected.clone())));
            assert_eq!(error.describe(), expected);
        }
        Ok(_) => panic!("the text is not TOML"),
    }
}
