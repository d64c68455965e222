//! Manifests as TOML documents: writing one out and reading one back.
//!
//! A document is laid out as the fields are declared: the `package` section
//! with `name`, `version`, `description` and `authors`, then, where the
//! manifest has one, the `dependencies` section with one entry per
//! dependency in declared order.

use vstd::prelude::*;
use crate::document::{
    describe_parse_error, describe_render_error, distinct_keys, entry, has_key, list_model,
    parse_table, parsed, render_table, rendered, table_get, table_insert, table_keys, table_model,
    table_new, value_as_array, value_as_str, value_as_table, value_from_array, value_from_string,
    value_from_table, value_model, Entries, Node,
};
use crate::error::{Field, ManifestError, ParseFault};
use crate::manifest::{
    distinct_names, requirements_of, texts, Dependency, Manifest, ManifestView, Package,
    PackageView, Requirements,
};

verus! {

/// The string nodes that hold `items`, in order.
pub open spec fn text_nodes(items: Seq<Seq<char>>) -> Seq<Node> {
    items.map_values(|t: Seq<char>| Node::Text(t))
}

/// The entries of the `package` section for a package record.
pub open spec fn package_entries(package: PackageView) -> Entries {
    seq![
        ("name"@, Node::Text(package.name)),
        ("version"@, Node::Text(package.version)),
        ("description"@, Node::Text(package.description)),
        ("authors"@, Node::List(text_nodes(package.authors))),
    ]
}

/// The entries of the `dependencies` section for these requirements.
pub open spec fn requirement_entries(deps: Requirements) -> Entries {
    deps.map_values(|d: (Seq<char>, Seq<char>)| (d.0, Node::Text(d.1)))
}

/// The document that a manifest is written as.
pub open spec fn document_of(manifest: ManifestView) -> Entries {
    match manifest.dependencies {
        Some(deps) => seq![
            ("package"@, Node::Table(package_entries(manifest.package))),
            ("dependencies"@, Node::Table(requirement_entries(deps))),
        ],
        None => seq![("package"@, Node::Table(package_entries(manifest.package)))],
    }
}

/// The keys of the `package` section differ from one another.
proof fn lemma_package_keys()
    ensures
        "name"@ != "version"@,
        "name"@ != "description"@,
        "name"@ != "authors"@,
        "version"@ != "description"@,
        "version"@ != "authors"@,
        "description"@ != "authors"@,
        "package"@ != "dependencies"@,
{
    reveal_strlit("name");
    reveal_strlit("version");
    reveal_strlit("description");
    reveal_strlit("authors");
    reveal_strlit("package");
    reveal_strlit("dependencies");
    assert("name"@.len() == 4);
    assert("version"@.len() == 7 && "version"@[0] == 'v');
    assert("description"@.len() == 11);
    assert("authors"@.len() == 7 && "authors"@[0] == 'a');
    assert("package"@.len() == 7);
    assert("dependencies"@.len() == 12);
}

/// String values that hold `items`, in order.
fn text_values(items: &Vec<String>) -> (values: Vec<toml::Value>)
    ensures
        list_model(values@) == text_nodes(texts(items@)),
{
    let mut values: Vec<toml::Value> = Vec::new();
    let mut i: usize = 0;
    while i < items.len()
        invariant
            i <= items@.len(),
            values@.len() == i,
            forall|k: int| 0 <= k < i ==> value_model(#[trigger] values@[k]) == Node::Text(items@[k]@),
        decreases items@.len() - i,
    {
        values.push(value_from_string(items[i].clone()));
        i += 1;
    }
    assert(list_model(values@) =~= text_nodes(texts(items@)));
    values
}

/// The `package` section of a package record.
fn package_table(package: &Package) -> (table: toml::Table)
    ensures
        table_model(table) == package_entries(package@),
{
    proof {
        lemma_package_keys();
    }
    let mut table = table_new();
    table_insert(&mut table, "name".to_owned(), value_from_string(package.name.clone()));
    table_insert(&mut table, "version".to_owned(), value_from_string(package.version.clone()));
    table_insert(
        &mut table,
        "description".to_owned(),
        value_from_string(package.description.clone()),
    );
    table_insert(
        &mut table,
        "authors".to_owned(),
        value_from_array(text_values(&package.authors)),
    );
    assert(table_model(table) =~= package_entries(package@));
    table
}

/// The `dependencies` section of a list of dependencies.
fn requirements_table(deps: &Vec<Dependency>) -> (table: toml::Table)
    requires
        distinct_names(requirements_of(deps@)),
    ensures
        table_model(table) == requirement_entries(requirements_of(deps@)),
{
    let ghost all = requirement_entries(requirements_of(deps@));
    let mut table = table_new();
    let mut i: usize = 0;
    while i < deps.len()
        invariant
            i <= deps@.len(),
            all == requirement_entries(requirements_of(deps@)),
            distinct_names(requirements_of(deps@)),
            table_model(table) == all.take(i as int),
        decreases deps@.len() - i,
    {
        proof {
            let name = deps@[i as int].name@;
            assert forall|k: int| 0 <= k < all.take(i as int).len() implies
                (#[trigger] all.take(i as int)[k]).0 != name by {
                assert(requirements_of(deps@)[k].0 != requirements_of(deps@)[i as int].0);
            }
        }
        table_insert(
            &mut table,
            deps[i].name.clone(),
            value_from_string(deps[i].requirement.clone()),
        );
        assert(table_model(table) =~= all.take(i + 1));
        i += 1;
    }
    assert(all.take(i as int) =~= all);
    table
}

/// The string under `key`: a fault where the entry is absent or holds
/// anything but a string.
pub open spec fn text_at(entries: Entries, key: Seq<char>, field: Field) -> Result<
    Seq<char>,
    ParseFault,
> {
    match entry(entries, key) {
        None => Err(ParseFault::Missing(field)),
        Some(Node::Text(text)) => Ok(text),
        Some(_) => Err(ParseFault::Invalid(field)),
    }
}

/// Every node is a string.
pub open spec fn all_text(nodes: Seq<Node>) -> bool {
    forall|i: int| 0 <= i < nodes.len() ==> (#[trigger] nodes[i]) is Text
}

/// The strings that string nodes hold, in order.
pub open spec fn texts_in(nodes: Seq<Node>) -> Seq<Seq<char>> {
    nodes.map_values(|n: Node| n->Text_0)
}

/// The authors of a `package` section: an array of strings under
/// `authors`.
pub open spec fn authors_in(entries: Entries) -> Result<Seq<Seq<char>>, ParseFault> {
    match entry(entries, "authors"@) {
        None => Err(ParseFault::Missing(Field::Authors)),
        Some(Node::List(items)) => if all_text(items) {
            Ok(texts_in(items))
        } else {
            Err(ParseFault::Invalid(Field::Authors))
        },
        Some(_) => Err(ParseFault::Invalid(Field::Authors)),
    }
}

/// The package record that a `package` section holds. The fields are
/// looked at in declared order and the first fault is reported; entries
/// under other keys are passed over.
pub open spec fn package_of(entries: Entries) -> Result<PackageView, ParseFault> {
    match text_at(entries, "name"@, Field::Name) {
        Err(fault) => Err(fault),
        Ok(name) => match text_at(entries, "version"@, Field::Version) {
            Err(fault) => Err(fault),
            Ok(version) => match text_at(entries, "description"@, Field::Description) {
                Err(fault) => Err(fault),
                Ok(description) => match authors_in(entries) {
                    Err(fault) => Err(fault),
                    Ok(authors) => Ok(PackageView { name, version, description, authors }),
                },
            },
        },
    }
}

/// Every entry holds a string.
pub open spec fn all_text_entries(entries: Entries) -> bool {
    forall|i: int| 0 <= i < entries.len() ==> (#[trigger] entries[i]).1 is Text
}

/// The requirements that a `dependencies` section holds, where each of its
/// entries holds a string.
pub open spec fn requirements_in(entries: Entries) -> Requirements {
    entries.map_values(|e: (Seq<char>, Node)| (e.0, e.1->Text_0))
}

/// The dependency section of a document: absent where the document has no
/// `dependencies` entry, a fault where that entry is not a table of
/// strings.
pub open spec fn dependencies_of(document: Entries) -> Result<Option<Requirements>, ParseFault> {
    match entry(document, "dependencies"@) {
        None => Ok(None),
        Some(Node::Table(entries)) => if all_text_entries(entries) {
            Ok(Some(requirements_in(entries)))
        } else {
            Err(ParseFault::Invalid(Field::Dependencies))
        },
        Some(_) => Err(ParseFault::Invalid(Field::Dependencies)),
    }
}

/// The manifest that a document holds, or what is wrong with the document.
/// The `package` section is required, the `dependencies` section is not;
/// the package is looked at first.
pub open spec fn manifest_of(document: Entries) -> Result<ManifestView, ParseFault> {
    match entry(document, "package"@) {
        None => Err(ParseFault::Missing(Field::Package)),
        Some(Node::Table(entries)) => match package_of(entries) {
            Err(fault) => Err(fault),
            Ok(package) => match dependencies_of(document) {
                Err(fault) => Err(fault),
                Ok(dependencies) => Ok(ManifestView { package, dependencies }),
            },
        },
        Some(_) => Err(ParseFault::Invalid(Field::Package)),
    }
}

/// Whether `outcome` is what reading a document with these entries gives.
pub open spec fn is_reading_of(outcome: Result<Manifest, ManifestError>, document: Entries) -> bool {
    match manifest_of(document) {
        Ok(manifest) => outcome matches Ok(m) && m@ == manifest && m@.well_formed(),
        Err(fault) => outcome == Err::<Manifest, ManifestError>(ManifestError::ParseError(fault)),
    }
}

/// Whether `outcome` is what reading a text gives: the parser's diagnostic
/// where the text is not TOML, else the reading of its document.
pub open spec fn is_reading_of_text(outcome: Result<Manifest, ManifestError>, text: Seq<char>) -> bool {
    match parsed(text) {
        Ok(document) => is_reading_of(outcome, document),
        Err(diagnostic) => outcome matches Err(
            ManifestError::ParseError(ParseFault::Syntax(message)),
        ) && message@ == diagnostic,
    }
}

/// In a table with distinct keys, the entry under the key at place `i` is
/// the one at place `i`.
proof fn lemma_entry_at(entries: Entries, i: int)
    requires
        distinct_keys(entries),
        0 <= i < entries.len(),
    ensures
        entry(entries, entries[i].0) == Some(entries[i].1),
{
    let key = entries[i].0;
    assert(has_key(entries, key));
    let j = choose|j: int| 0 <= j < entries.len() && (#[trigger] entries[j]).0 == key;
    assert(j == i);
}

/// The string under `key` in `table`.
fn read_text(table: &toml::Table, key: &str, field: Field) -> (outcome: Result<String, ParseFault>)
    ensures
        match text_at(table_model(*table), key@, field) {
            Ok(text) => outcome matches Ok(s) && s@ == text,
            Err(fault) => outcome == Err::<String, ParseFault>(fault),
        },
{
    match table_get(table, key) {
        None => Err(ParseFault::Missing(field)),
        Some(value) => match value_as_str(value) {
            Some(text) => Ok(text.to_owned()),
            None => Err(ParseFault::Invalid(field)),
        },
    }
}

/// The strings that `items` hold, where all of them are strings.
fn read_texts(items: &Vec<toml::Value>) -> (outcome: Option<Vec<String>>)
    ensures
        match outcome {
            Some(found) => all_text(list_model(items@)) && texts(found@) == texts_in(
                list_model(items@),
            ),
            None => !all_text(list_model(items@)),
        },
{
    let ghost nodes = list_model(items@);
    let mut found: Vec<String> = Vec::new();
    let mut i: usize = 0;
    while i < items.len()
        invariant
            i <= items@.len(),
            nodes == list_model(items@),
            found@.len() == i,
            forall|k: int| 0 <= k < i ==> nodes[k] == Node::Text((#[trigger] found@[k])@),
        decreases items@.len() - i,
    {
        match value_as_str(&items[i]) {
            Some(text) => {
                found.push(text.to_owned());
            },
            None => {
                assert(!(nodes[i as int] is Text));
                return None;
            },
        }
        i += 1;
    }
    assert forall|k: int| 0 <= k < nodes.len() implies (#[trigger] nodes[k]) is Text by {
        assert(nodes[k] == Node::Text(found@[k]@));
    }
    assert(texts(found@) =~= texts_in(nodes));
    Some(found)
}

/// The authors of a `package` section.
fn read_authors(table: &toml::Table) -> (outcome: Result<Vec<String>, ParseFault>)
    ensures
        match authors_in(table_model(*table)) {
            Ok(authors) => outcome matches Ok(found) && texts(found@) == authors,
            Err(fault) => outcome == Err::<Vec<String>, ParseFault>(fault),
        },
{
    match table_get(table, "authors") {
        None => Err(ParseFault::Missing(Field::Authors)),
        Some(value) => match value_as_array(value) {
            None => Err(ParseFault::Invalid(Field::Authors)),
            Some(items) => match read_texts(items) {
                Some(found) => Ok(found),
                None => Err(ParseFault::Invalid(Field::Authors)),
            },
        },
    }
}

/// The package record of a `package` section.
fn read_package(table: &toml::Table) -> (outcome: Result<Package, ParseFault>)
    ensures
        match package_of(table_model(*table)) {
            Ok(package) => outcome matches Ok(found) && found@ == package,
            Err(fault) => outcome == Err::<Package, ParseFault>(fault),
        },
{
    let name = match read_text(table, "name", Field::Name) {
        Ok(text) => text,
        Err(fault) => {
            return Err(fault);
        },
    };
    let version = match read_text(table, "version", Field::Version) {
        Ok(text) => text,
        Err(fault) => {
            return Err(fault);
        },
    };
    let description = match read_text(table, "description", Field::Description) {
        Ok(text) => text,
        Err(fault) => {
            return Err(fault);
        },
    };
    let authors = match read_authors(table) {
        Ok(found) => found,
        Err(fault) => {
            return Err(fault);
        },
    };
    Ok(Package { name, version, description, authors })
}

/// The dependencies of a `dependencies` section, in the order of the
/// section, where each entry holds a string.
fn read_requirements(table: &toml::Table) -> (outcome: Option<Vec<Dependency>>)
    ensures
        match outcome {
            Some(found) => all_text_entries(table_model(*table)) && requirements_of(found@)
                == requirements_in(table_model(*table)) && distinct_names(requirements_of(found@)),
            None => !all_text_entries(table_model(*table)),
        },
{
    let ghost entries = table_model(*table);
    let keys = table_keys(table);
    assert(distinct_keys(entries)) by {
        assert forall|i: int, j: int| 0 <= i < j < entries.len() implies
            (#[trigger] entries[i]).0 != (#[trigger] entries[j]).0 by {
            assert(keys@[i]@ != keys@[j]@);
        }
    }
    let mut found: Vec<Dependency> = Vec::new();
    let mut i: usize = 0;
    while i < keys.len()
        invariant
            i <= keys@.len(),
            entries == table_model(*table),
            keys@.len() == entries.len(),
            distinct_keys(entries),
            forall|k: int| 0 <= k < keys@.len() ==> (#[trigger] keys@[k])@ == entries[k].0,
            found@.len() == i,
            forall|k: int|
                0 <= k < i ==> entries[k] == ((#[trigger] found@[k]).name@, Node::Text(
                    found@[k].requirement@,
                )),
        decreases keys@.len() - i,
    {
        proof {
            lemma_entry_at(entries, i as int);
        }
        let requirement = match table_get(table, keys[i].as_str()) {
            Some(value) => match value_as_str(value) {
                Some(text) => text.to_owned(),
                None => {
                    assert(!(entries[i as int].1 is Text));
                    return None;
                },
            },
            None => {
                assert(false);
                return None;
            },
        };
        found.push(Dependency { name: keys[i].clone(), requirement });
        i += 1;
    }
    assert forall|k: int| 0 <= k < entries.len() implies (#[trigger] entries[k]).1 is Text by {
        assert(entries[k] == (found@[k].name@, Node::Text(found@[k].requirement@)));
    }
    assert(requirements_of(found@) =~= requirements_in(entries));
    assert(distinct_names(requirements_of(found@))) by {
        assert forall|a: int, b: int| 0 <= a < b < requirements_of(found@).len() implies
            (#[trigger] requirements_of(found@)[a]).0 != (#[trigger] requirements_of(found@)[b]).0 by {
            assert(entries[a].0 != entries[b].0);
        }
    }
    Some(found)
}

/// The dependency section of a document.
fn read_dependencies(table: &toml::Table) -> (outcome: Result<Option<Vec<Dependency>>, ParseFault>)
    ensures
        match dependencies_of(table_model(*table)) {
            Ok(Some(deps)) => outcome matches Ok(Some(found)) && requirements_of(found@) == deps
                && distinct_names(deps),
            Ok(None) => outcome matches Ok(None),
            Err(fault) => outcome == Err::<Option<Vec<Dependency>>, ParseFault>(fault),
        },
{
    match table_get(table, "dependencies") {
        None => Ok(None),
        Some(value) => match value_as_table(value) {
            None => Err(ParseFault::Invalid(Field::Dependencies)),
            Some(section) => match read_requirements(section) {
                Some(found) => Ok(Some(found)),
                None => Err(ParseFault::Invalid(Field::Dependencies)),
            },
        },
    }
}

/// What writing a manifest out gives: the text of its document, or the
/// diagnostic of the serializer.
pub open spec fn serialized(manifest: ManifestView) -> Result<Seq<char>, Seq<char>> {
    rendered(document_of(manifest))
}

/// What reading a text gives where it succeeds.
pub open spec fn deserialized(text: Seq<char>) -> Option<ManifestView> {
    match parsed(text) {
        Ok(document) => match manifest_of(document) {
            Ok(manifest) => Some(manifest),
            Err(_) => None,
        },
        Err(_) => None,
    }
}

/// Reading the `package` section that a package record is written as gives
/// the record back.
pub proof fn lemma_package_round_trip(package: PackageView)
    ensures
        package_of(package_entries(package)) == Ok::<PackageView, ParseFault>(package),
{
    lemma_package_keys();
    let entries = package_entries(package);
    assert(distinct_keys(entries));
    lemma_entry_at(entries, 0);
    lemma_entry_at(entries, 1);
    lemma_entry_at(entries, 2);
    lemma_entry_at(entries, 3);
    let nodes = text_nodes(package.authors);
    assert(all_text(nodes));
    assert(texts_in(nodes) =~= package.authors);
}

/// Reading the document that a manifest is written as gives the manifest
/// back: every field, the dependencies in their order, and whether there
/// is a dependency section at all.
pub proof fn lemma_document_round_trip(manifest: ManifestView)
    requires
        manifest.well_formed(),
    ensures
        manifest_of(document_of(manifest)) == Ok::<ManifestView, ParseFault>(manifest),
{
    lemma_package_keys();
    lemma_package_round_trip(manifest.package);
    let document = document_of(manifest);
    assert(distinct_keys(document));
    lemma_entry_at(document, 0);
    match manifest.dependencies {
        Some(deps) => {
            lemma_entry_at(document, 1);
            let entries = requirement_entries(deps);
            assert(all_text_entries(entries));
            assert(requirements_in(entries) =~= deps);
        },
        None => {
            assert(!has_key(document, "dependencies"@));
        },
    }
}

/// A manifest that is written out and read back is the same manifest,
/// provided the TOML parser reads the serializer's text back as the
/// document that was written. That proviso is about the `toml` crate and
/// is not proved here.
pub proof fn lemma_text_round_trip(manifest: ManifestView, text: Seq<char>)
    requires
        manifest.well_formed(),
        serialized(manifest) == Ok::<Seq<char>, Seq<char>>(text),
        parsed(text) == Ok::<Entries, Seq<char>>(document_of(manifest)),
    ensures
        deserialized(text) == Some(manifest),
{
    lemma_document_round_trip(manifest);
}

impl Manifest {
    /// The document of this manifest, as a table.
    pub fn to_table(&self) -> (table: toml::Table)
        ensures
            table_model(table) == document_of(self@),
            self@.well_formed(),
    {
        proof {
            lemma_package_keys();
        }
        let mut table = table_new();
        table_insert(
            &mut table,
            "package".to_owned(),
            value_from_table(package_table(self.package())),
        );
        match self.dependencies() {
            Some(deps) => {
                table_insert(
                    &mut table,
                    "dependencies".to_owned(),
                    value_from_table(requirements_table(deps)),
                );
            },
            None => {},
        }
        assert(table_model(table) =~= document_of(self@));
        table
    }

    /// The manifest that a document holds. The document must have a
    /// `package` table with the strings `name`, `version` and `description`
    /// and the array of strings `authors`; it may have a `dependencies`
    /// table of strings. Anything else in it is passed over. The first
    /// field that is absent or misshapen is reported as a `ParseError`.
    pub fn from_table(table: &toml::Table) -> (outcome: Result<Manifest, ManifestError>)
        ensures
            is_reading_of(outcome, table_model(*table)),
    {
        let section = match table_get(table, "package") {
            None => {
                return Err(ManifestError::ParseError(ParseFault::Missing(Field::Package)));
            },
            Some(value) => match value_as_table(value) {
                None => {
                    return Err(ManifestError::ParseError(ParseFault::Invalid(Field::Package)));
                },
                Some(section) => section,
            },
        };
        let package = match read_package(section) {
            Ok(package) => package,
            Err(fault) => {
                return Err(ManifestError::ParseError(fault));
            },
        };
        let dependencies = match read_dependencies(table) {
            Ok(dependencies) => dependencies,
            Err(fault) => {
                return Err(ManifestError::ParseError(fault));
            },
        };
        Ok(Manifest::assemble(package, dependencies))
    }

    /// The manifest that a text holds: the text is parsed as TOML and the
    /// document is read as `from_table` reads it. A text that is not TOML
    /// is reported as a `ParseError` with the parser's diagnostic.
    pub fn deserialize(text: &str) -> (outcome: Result<Manifest, ManifestError>)
        ensures
            is_reading_of_text(outcome, text@),
    {
        match parse_table(text) {
            Ok(table) => Manifest::from_table(&table),
            Err(error) => Err(
                ManifestError::ParseError(ParseFault::Syntax(describe_parse_error(&error))),
            ),
        }
    }

    /// The text of this manifest's document. The text is that of the TOML
    /// serializer for the document; where the serializer refuses, its
    /// diagnostic comes back as a `RenderError`.
    pub fn serialize(&self) -> (outcome: Result<String, ManifestError>)
        ensures
            match serialized(self@) {
                Ok(text) => outcome matches Ok(s) && s@ == text,
                Err(diagnostic) => outcome matches Err(ManifestError::RenderError(s)) && s@
                    == diagnostic,
            },
    {
        let table = self.to_table();
        match render_table(&table) {
            Ok(text) => Ok(text),
            Err(error) => Err(ManifestError::RenderError(describe_render_error(&error))),
        }
    }
}

} // verus!
