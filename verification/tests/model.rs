use coldbrew::manifest::{Dependency, Manifest, Package};

fn package(name: &str, authors: &[&str]) -> Package {
    Package {
        name: name.to_string(),
        version: "0.1.0".to_string(),
        description: String::new(),
        authors: authors.iter().map(|a| a.to_string()).collect(),
    }
}

fn dependency(name: &str, requirement: &str) -> Dependency {
    Dependency { name: name.to_string(), requirement: requirement.to_string() }
}

#[test]
fn new_manifest_has_the_initial_fields() {
    let manifest = Manifest::new("demo");
    assert_eq!(manifest.package().name, "demo");
    assert_eq!(manifest.package().version, "0.1.0");
    assert_eq!(manifest.package().description, "");
    assert_eq!(manifest.package().authors, vec!["you@example.com".to_string()]);
    assert_eq!(manifest.dependencies(), Some(&Vec::new()));
}

#[test]
fn from_package_has_no_dependency_section() {
    let manifest = Manifest::from_package(package("demo", &["a@b.c"]));
    assert_eq!(manifest.package(), &package("demo", &["a@b.c"]));
    assert_eq!(manifest.dependencies(), None);
}

#[test]
fn absent_and_empty_sections_differ() {
    let absent = Manifest::from_package(package("demo", &["you@example.com"]));
    let empty = Manifest::new("demo");
    assert_eq!(absent.package(), empty.package());
    assert_ne!(absent, empty);
}

#[test]
fn add_creates_the_section_with_one_entry() {
    let mut manifest = Manifest::from_package(package("demo", &[]));
    manifest.add("foo");
    assert_eq!(manifest.dependencies(), Some(&vec![dependency("foo", "0.1.0")]));
}

#[test]
fn add_twice_leaves_one_entry() {
    let mut manifest = Manifest::from_package(package("demo", &[]));
    manifest.add("foo");
    manifest.add("foo");
    assert_eq!(manifest.dependencies(), Some(&vec![dependency("foo", "0.1.0")]));
}

#[test]
fn add_dependency_appends_new_names_in_order() {
    let mut manifest = Manifest::new("demo");
    manifest.add_dependency("zeta", "1.0.0");
    manifest.add_dependency("alpha", "2.0.0");
    manifest.add_dependency("mid", "3.0.0");
    assert_eq!(
        manifest.dependencies(),
        Some(&vec![
            dependency("zeta", "1.0.0"),
            dependency("alpha", "2.0.0"),
            dependency("mid", "3.0.0"),
        ])
    );
}

#[test]
fn add_dependency_overwrites_in_place() {
    let mut manifest = Manifest::new("demo");
    manifest.add_dependency("zeta", "1.0.0");
    manifest.add_dependency("alpha", "2.0.0");
    manifest.add_dependency("zeta", "9.9.9");
    assert_eq!(
        manifest.dependencies(),
        Some(&vec![dependency("zeta", "9.9.9"), dependency("alpha", "2.0.0")])
    );
}

#[test]
fn add_overwrites_an_earlier_requirement() {
    let mut manifest = Manifest::new("demo");
    manifest.add_dependency("foo", "7.0.0");
    manifest.add("foo");
    assert_eq!(manifest.dependencies(), Some(&vec![dependency("foo", "0.1.0")]));
}

#[test]
fn add_dependency_keeps_the_package() {
    let mut manifest = Manifest::from_package(package("demo", &["a", "b"]));
    manifest.add_dependency("foo", "1.2.3");
    assert_eq!(manifest.package(), &package("demo", &["a", "b"]));
}

#[test]
fn requirement_finds_what_was_declared() {
    let mut manifest = Manifest::new("demo");
    assert_eq!(manifest.requirement("foo"), None);
    manifest.add_dependency("foo", "1.0.0");
    manifest.add_dependency("bar", "2.0.0");
    assert_eq!(manifest.requirement("foo"), Some(&"1.0.0".to_string()));
    assert_eq!(manifest.requirement("bar"), Some(&"2.0.0".to_string()));
    assert_eq!(manifest.requirement("baz"), None);
    manifest.add_dependency("foo", "3.0.0");
    assert_eq!(manifest.requirement("foo"), Some(&"3.0.0".to_string()));
}

#[test]
fn requirement_is_none_without_a_section() {
    let manifest = Manifest::from_package(package("demo", &[]));
    assert_eq!(manifest.requirement("foo"), None);
}

#[test]
fn names_are_compared_exactly() {
    let mut manifest = Manifest::new("demo");
    manifest.add_dependency("foo", "1.0.0");
    manifest.add_dependency("Foo", "2.0.0");
    manifest.add_dependency("foo ", "3.0.0");
    assert_eq!(
        manifest.dependencies(),
        Some(&vec![
            dependency("foo", "1.0.0"),
            dependency("Foo", "2.0.0"),
            dependency("foo ", "3.0.0"),
        ])
    );
}
