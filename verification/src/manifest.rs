//! The manifest of a package: who it is and what it depends on.

use vstd::prelude::*;

verus! {

/// The dependency section of a manifest as a mathematical value: pairs of
/// a package name and the version requirement on it, in declared order.
pub type Requirements = Seq<(Seq<char>, Seq<char>)>;

/// The package record of a manifest as a mathematical value.
pub struct PackageView {
    pub name: Seq<char>,
    pub version: Seq<char>,
    pub description: Seq<char>,
    pub authors: Seq<Seq<char>>,
}

/// A manifest as a mathematical value. A manifest without a dependency
/// section (`None`) differs from one whose section is empty.
pub struct ManifestView {
    pub package: PackageView,
    pub dependencies: Option<Requirements>,
}

/// The version that a new package starts at, and the requirement that a
/// dependency is added with.
pub open spec fn initial_version() -> Seq<char> {
    "0.1.0"@
}

/// The author entry that a new package starts with.
pub open spec fn placeholder_author() -> Seq<char> {
    "you@example.com"@
}

/// Whether a requirement on `name` is declared.
pub open spec fn declares(deps: Requirements, name: Seq<char>) -> bool {
    exists|i: int| 0 <= i < deps.len() && (#[trigger] deps[i]).0 == name
}

/// No package is named twice.
pub open spec fn distinct_names(deps: Requirements) -> bool {
    forall|i: int, j: int|
        0 <= i < j < deps.len() ==> (#[trigger] deps[i]).0 != (#[trigger] deps[j]).0
}

/// The place at which `name` is declared, where it is.
pub open spec fn place_of(deps: Requirements, name: Seq<char>) -> int {
    choose|i: int| 0 <= i < deps.len() && (#[trigger] deps[i]).0 == name
}

/// The requirements after `name` is declared with `requirement`: a name
/// that is already declared keeps its place and gets the new requirement,
/// a new name comes last.
pub open spec fn declare(deps: Requirements, name: Seq<char>, requirement: Seq<char>) -> Requirements {
    if declares(deps, name) {
        deps.update(place_of(deps, name), (name, requirement))
    } else {
        deps.push((name, requirement))
    }
}

/// The requirements as a mapping from package name to requirement.
pub open spec fn as_map(deps: Requirements) -> Map<Seq<char>, Seq<char>> {
    Map::new(|name: Seq<char>| declares(deps, name), |name: Seq<char>| deps[place_of(deps, name)].1)
}

impl ManifestView {
    /// The manifest that a new project called `name` starts with.
    pub open spec fn initial(name: Seq<char>) -> ManifestView {
        ManifestView {
            package: PackageView {
                name,
                version: initial_version(),
                description: Seq::empty(),
                authors: seq![placeholder_author()],
            },
            dependencies: Some(Seq::empty()),
        }
    }

    /// No dependency is declared twice.
    pub open spec fn well_formed(self) -> bool {
        match self.dependencies {
            Some(deps) => distinct_names(deps),
            None => true,
        }
    }

    /// The declared requirements; none where the section is absent.
    pub open spec fn requirements(self) -> Requirements {
        match self.dependencies {
            Some(deps) => deps,
            None => Seq::empty(),
        }
    }

    /// The requirement declared on `name`, if any.
    pub open spec fn requirement(self, name: Seq<char>) -> Option<Seq<char>> {
        if declares(self.requirements(), name) {
            Some(self.requirements()[place_of(self.requirements(), name)].1)
        } else {
            None
        }
    }

    /// The manifest after `name` is declared with `requirement`. The
    /// dependency section exists afterwards; the package record is the same.
    pub open spec fn with_dependency(self, name: Seq<char>, requirement: Seq<char>) -> ManifestView {
        ManifestView {
            package: self.package,
            dependencies: Some(declare(self.requirements(), name, requirement)),
        }
    }
}

/// Declaring a dependency never lists a package twice.
pub proof fn lemma_declare_keeps_distinct(deps: Requirements, name: Seq<char>, requirement: Seq<char>)
    requires
        distinct_names(deps),
    ensures
        distinct_names(declare(deps, name, requirement)),
        declares(declare(deps, name, requirement), name),
{
    let after = declare(deps, name, requirement);
    if declares(deps, name) {
        let i = place_of(deps, name);
        assert(after[i].0 == name);
    } else {
        assert(after[deps.len() as int].0 == name);
        assert forall|i: int, j: int| 0 <= i < j < after.len() implies
            (#[trigger] after[i]).0 != (#[trigger] after[j]).0 by {
            if j == deps.len() {
                assert(deps[i].0 != name);
            }
        }
    }
}

/// Declaring a dependency is an insertion into the mapping from package
/// name to requirement: the last requirement declared on a name is the one
/// that holds, and the other names keep theirs.
pub proof fn lemma_declare_inserts(deps: Requirements, name: Seq<char>, requirement: Seq<char>)
    requires
        distinct_names(deps),
    ensures
        as_map(declare(deps, name, requirement)) == as_map(deps).insert(name, requirement),
{
    let after = declare(deps, name, requirement);
    lemma_declare_keeps_distinct(deps, name, requirement);
    assert forall|other: Seq<char>| declares(after, other) <==> (other == name || declares(
        deps,
        other,
    )) by {
        if declares(after, other) {
            let i = place_of(after, other);
            if other != name {
                assert(deps[i].0 == other);
            }
        }
        if declares(deps, other) {
            let i = place_of(deps, other);
            assert(after[i].0 == other);
        }
    }
    assert forall|other: Seq<char>| declares(after, other) implies #[trigger] as_map(after)[other]
        == as_map(deps).insert(name, requirement)[other] by {
        let i = place_of(after, other);
        if other == name {
            if declares(deps, name) {
                assert(i == place_of(deps, name));
            } else {
                assert(i == deps.len());
            }
        } else {
            assert(deps[i].0 == other);
            assert(place_of(deps, other) == i);
        }
    }
    assert(as_map(after) =~= as_map(deps).insert(name, requirement));
}

/// Declaring the same dependency a second time changes nothing, and of
/// two requirements declared on one name the second holds.
pub proof fn lemma_declare_again(
    deps: Requirements,
    name: Seq<char>,
    first: Seq<char>,
    second: Seq<char>,
)
    requires
        distinct_names(deps),
    ensures
        declare(declare(deps, name, first), name, second) == declare(deps, name, second),
{
    let once = declare(deps, name, first);
    lemma_declare_keeps_distinct(deps, name, first);
    let i = place_of(once, name);
    if declares(deps, name) {
        assert(i == place_of(deps, name));
    } else {
        assert(i == deps.len());
    }
    assert(declare(once, name, second) =~= declare(deps, name, second));
}

/// Adding a dependency to a manifest without a dependency section gives a
/// section that holds this dependency and no other.
pub proof fn lemma_first_dependency(manifest: ManifestView, name: Seq<char>, requirement: Seq<char>)
    requires
        manifest.dependencies is None,
    ensures
        manifest.with_dependency(name, requirement).dependencies == Some(seq![(name, requirement)]),
        manifest.with_dependency(name, requirement).package == manifest.package,
{
    let empty = Seq::<(Seq<char>, Seq<char>)>::empty();
    assert(!declares(empty, name));
    assert(empty.push((name, requirement)) =~= seq![(name, requirement)]);
}

/// A manifest stays well-formed when a dependency is added, and then
/// declares that dependency with the requirement given.
pub proof fn lemma_with_dependency(manifest: ManifestView, name: Seq<char>, requirement: Seq<char>)
    requires
        manifest.well_formed(),
    ensures
        manifest.with_dependency(name, requirement).well_formed(),
        manifest.with_dependency(name, requirement).requirement(name) == Some(requirement),
        manifest.with_dependency(name, requirement).package == manifest.package,
{
    let deps = manifest.requirements();
    lemma_declare_keeps_distinct(deps, name, requirement);
    lemma_declare_inserts(deps, name, requirement);
    let after = declare(deps, name, requirement);
    assert(as_map(after)[name] == requirement);
}

/// Adding a dependency a second time changes nothing: the manifest holds
/// it once, with the requirement given.
pub proof fn lemma_add_again(manifest: ManifestView, name: Seq<char>, requirement: Seq<char>)
    requires
        manifest.well_formed(),
    ensures
        manifest.with_dependency(name, requirement).with_dependency(name, requirement)
            == manifest.with_dependency(name, requirement),
{
    lemma_declare_again(manifest.requirements(), name, requirement, requirement);
}

/// The texts of a vector of strings, in order.
pub open spec fn texts(items: Seq<String>) -> Seq<Seq<char>> {
    items.map_values(|s: String| s@)
}

/// Name, version and metadata of a package.
#[derive(Debug, Clone, PartialEq, Eq)]
pub struct Package {
    pub name: String,
    pub version: String,
    pub description: String,
    pub authors: Vec<String>,
}

impl View for Package {
    type V = PackageView;

    open spec fn view(&self) -> PackageView {
        PackageView {
            name: self.name@,
            version: self.version@,
            description: self.description@,
            authors: texts(self.authors@),
        }
    }
}

/// One declared dependency: a package name and the version requirement on
/// it. The requirement is kept as written.
#[derive(Debug, Clone, PartialEq, Eq)]
pub struct Dependency {
    pub name: String,
    pub requirement: String,
}

impl View for Dependency {
    type V = (Seq<char>, Seq<char>);

    open spec fn view(&self) -> (Seq<char>, Seq<char>) {
        (self.name@, self.requirement@)
    }
}

/// The requirements that a vector of dependencies declares, in order.
pub open spec fn requirements_of(deps: Seq<Dependency>) -> Requirements {
    deps.map_values(|d: Dependency| d@)
}

/// A package manifest. No dependency is declared twice in it.
#[derive(Debug, PartialEq, Eq)]
pub struct Manifest {
    package: Package,
    dependencies: Option<Vec<Dependency>>,
}

impl View for Manifest {
    type V = ManifestView;

    closed spec fn view(&self) -> ManifestView {
        ManifestView {
            package: self.package@,
            dependencies: match self.dependencies {
                Some(deps) => Some(requirements_of(deps@)),
                None => None,
            },
        }
    }
}

/// The place at which `deps` declares `name`, if it does.
fn find(deps: &Vec<Dependency>, name: &String) -> (place: Option<usize>)
    ensures
        match place {
            Some(i) => i < deps@.len() && deps@[i as int].name@ == name@,
            None => !declares(requirements_of(deps@), name@),
        },
{
    let mut i: usize = 0;
    while i < deps.len()
        invariant
            i <= deps@.len(),
            forall|k: int| 0 <= k < i ==> (#[trigger] deps@[k]).name@ != name@,
        decreases deps@.len() - i,
    {
        if deps[i].name == *name {
            return Some(i);
        }
        i += 1;
    }
    assert forall|k: int| 0 <= k < requirements_of(deps@).len() implies
        (#[trigger] requirements_of(deps@)[k]).0 != name@ by {
        assert(deps@[k].name@ != name@);
    }
    None
}

impl Manifest {
    #[verifier::type_invariant]
    spec fn names_are_distinct(self) -> bool {
        match self.dependencies {
            Some(deps) => distinct_names(requirements_of(deps@)),
            None => true,
        }
    }

    /// The manifest that a new project called `name` starts with: version
    /// `0.1.0`, no description, the placeholder author, and a dependency
    /// section without entries.
    pub fn new(name: &str) -> (manifest: Manifest)
        ensures
            manifest@ == ManifestView::initial(name@),
            manifest@.well_formed(),
    {
        let mut authors: Vec<String> = Vec::new();
        authors.push("you@example.com".to_owned());
        assert(texts(authors@) =~= seq![placeholder_author()]);
        let package = Package {
            name: name.to_owned(),
            version: "0.1.0".to_owned(),
            description: String::new(),
            authors,
        };
        let dependencies: Vec<Dependency> = Vec::new();
        assert(requirements_of(dependencies@) =~= Seq::empty());
        Manifest { package, dependencies: Some(dependencies) }
    }

    /// The manifest of a package without a dependency section.
    pub fn from_package(package: Package) -> (manifest: Manifest)
        ensures
            manifest@ == (ManifestView { package: package@, dependencies: None }),
            manifest@.well_formed(),
    {
        Manifest { package, dependencies: None }
    }

    /// The manifest with this package record and these dependencies.
    pub(crate) fn assemble(package: Package, dependencies: Option<Vec<Dependency>>) -> (manifest:
        Manifest)
        requires
            dependencies matches Some(deps) ==> distinct_names(requirements_of(deps@)),
        ensures
            manifest@.package == package@,
            manifest@.dependencies == match dependencies {
                Some(deps) => Some(requirements_of(deps@)),
                None => None,
            },
            manifest@.well_formed(),
    {
        Manifest { package, dependencies }
    }

    /// The declared dependencies, in order; `None` where the manifest has
    /// no dependency section.
    pub fn dependencies(&self) -> (section: Option<&Vec<Dependency>>)
        ensures
            self@.dependencies == match section {
                Some(deps) => Some(requirements_of(deps@)),
                None => None,
            },
            self@.well_formed(),
    {
        proof {
            use_type_invariant(self);
        }
        self.dependencies.as_ref()
    }

    /// The package record.
    pub fn package(&self) -> (package: &Package)
        ensures
            package@ == self@.package,
    {
        &self.package
    }

    /// The requirement declared on the package `name`, if any.
    pub fn requirement(&self, name: &str) -> (found: Option<&String>)
        ensures
            self@.requirement(name@) == match found {
                Some(requirement) => Some(requirement@),
                None => None,
            },
    {
        proof {
            use_type_invariant(self);
        }
        match &self.dependencies {
            Some(deps) => match find(deps, &name.to_owned()) {
                Some(i) => {
                    proof {
                        let declared = requirements_of(deps@);
                        assert(declared[i as int].0 == name@);
                        assert(place_of(declared, name@) == i);
                    }
                    Some(&deps[i].requirement)
                },
                None => None,
            },
            None => {
                assert(!declares(Seq::<(Seq<char>, Seq<char>)>::empty(), name@));
                None
            },
        }
    }

    /// Adds a dependency on `package` as the `add` command does: with the
    /// requirement `0.1.0`.
    pub fn add(&mut self, package: &str)
        ensures
            final(self)@ == old(self)@.with_dependency(package@, initial_version()),
            final(self)@.well_formed(),
    {
        self.add_dependency(package, "0.1.0");
    }

    /// Declares a dependency on `name` with `requirement`. A dependency
    /// that is already declared gets the new requirement and keeps its
    /// place; none is ever listed twice. The package record stays as it is.
    pub fn add_dependency(&mut self, name: &str, requirement: &str)
        ensures
            final(self)@ == old(self)@.with_dependency(name@, requirement@),
            final(self)@.well_formed(),
    {
        proof {
            use_type_invariant(&*self);
        }
        let entry = Dependency { name: name.to_owned(), requirement: requirement.to_owned() };
        let mut section: Option<Vec<Dependency>> = None;
        std::mem::swap(&mut section, &mut self.dependencies);
        let mut deps = match section {
            Some(deps) => deps,
            None => Vec::new(),
        };
        let ghost before = requirements_of(deps@);
        assert(before == old(self)@.requirements());
        match find(&deps, &entry.name) {
            Some(i) => {
                proof {
                    assert(before[i as int].0 == name@);
                    assert(place_of(before, name@) == i);
                }
                deps.set(i, entry);
                assert(requirements_of(deps@) == before.update(i as int, (name@, requirement@)));
            },
            None => {
                deps.push(entry);
                assert(requirements_of(deps@) == before.push((name@, requirement@)));
            },
        }
        assert(distinct_names(requirements_of(deps@)));
        self.dependencies = Some(deps);
    }
}

} // verus!
