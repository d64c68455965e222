//! The TOML documents that manifests are read from and written to.
//!
//! Tables and values are those of the `toml` crate, built with its
//! `preserve_order` feature. What they hold is described by a mathematical
//! model, [`Node`]. Every function in this file makes one call into that
//! crate, and its contract states, without proof, what the call does to the
//! model.

use vstd::prelude::*;

verus! {

/// What a TOML value holds.
pub enum Node {
    /// A string.
    Text(Seq<char>),
    /// An array, in order.
    List(Seq<Node>),
    /// A table: its entries, in the order in which the table yields them.
    Table(Seq<(Seq<char>, Node)>),
    /// An integer, float, boolean or date-time, in the form TOML writes it.
    Other(Seq<char>),
}

/// The entries of a table or of a whole document.
pub type Entries = Seq<(Seq<char>, Node)>;

/// Whether some entry stands under `key`.
pub open spec fn has_key(entries: Entries, key: Seq<char>) -> bool {
    exists|i: int| 0 <= i < entries.len() && (#[trigger] entries[i]).0 == key
}

/// The node under `key`, if there is one. Keys of a table are distinct, so
/// there is at most one.
pub open spec fn entry(entries: Entries, key: Seq<char>) -> Option<Node> {
    if has_key(entries, key) {
        let i = choose|i: int| 0 <= i < entries.len() && (#[trigger] entries[i]).0 == key;
        Some(entries[i].1)
    } else {
        None
    }
}

/// No two entries share a key.
pub open spec fn distinct_keys(entries: Entries) -> bool {
    forall|i: int, j: int|
        0 <= i < j < entries.len() ==> (#[trigger] entries[i]).0 != (#[trigger] entries[j]).0
}

/// The models of a vector of values, in order.
pub open spec fn list_model(items: Seq<toml::Value>) -> Seq<Node> {
    items.map_values(|v: toml::Value| value_model(v))
}

#[verifier::external_type_specification]
#[verifier::external_body]
#[verifier::reject_recursive_types(K)]
#[verifier::reject_recursive_types(V)]
pub struct ExTable<K, V>(toml::map::Map<K, V>);

#[verifier::external_type_specification]
#[verifier::external_body]
pub struct ExValue(toml::Value);

#[verifier::external_type_specification]
#[verifier::external_body]
pub struct ExParseError(toml::de::Error);

#[verifier::external_type_specification]
#[verifier::external_body]
pub struct ExRenderError(toml::ser::Error);

/// The entries of a table, in the order in which it yields them.
pub uninterp spec fn table_model(table: toml::Table) -> Entries;

/// What a value holds.
pub uninterp spec fn value_model(value: toml::Value) -> Node;

/// What `toml::from_str` makes of a text: the entries of the document, or
/// the text of the error it reports.
pub uninterp spec fn parsed(text: Seq<char>) -> Result<Entries, Seq<char>>;

/// What `toml::to_string_pretty` makes of a table with these entries: the
/// text of the document, or the text of the error it reports.
pub uninterp spec fn rendered(entries: Entries) -> Result<Seq<char>, Seq<char>>;

/// How a parse error displays.
pub uninterp spec fn parse_error_text(error: toml::de::Error) -> Seq<char>;

/// How a serialization error displays.
pub uninterp spec fn render_error_text(error: toml::ser::Error) -> Seq<char>;

/// `toml::map::Map::new`: a table without entries.
#[verifier::external_body]
pub(crate) fn table_new() -> (table: toml::Table)
    ensures
        table_model(table) == Seq::<(Seq<char>, Node)>::empty(),
{
    toml::map::Map::new()
}

/// `toml::map::Map::insert`, for a key that the table does not hold yet:
/// the new entry comes last and the others stay as they are.
#[verifier::external_body]
pub(crate) fn table_insert(table: &mut toml::Table, key: String, value: toml::Value)
    requires
        !has_key(table_model(*old(table)), key@),
    ensures
        table_model(*final(table)) == table_model(*old(table)).push((key@, value_model(value))),
{
    table.insert(key, value);
}

/// `toml::map::Map::get`: the value of the entry under `key`, or `None`
/// where the table has no such entry.
#[verifier::external_body]
pub(crate) fn table_get<'a>(table: &'a toml::Table, key: &str) -> (found: Option<&'a toml::Value>)
    ensures
        match found {
            Some(value) => entry(table_model(*table), key@) == Some(value_model(*value)),
            None => !has_key(table_model(*table), key@),
        },
{
    table.get(key)
}

/// `toml::map::Map::keys`: the keys of the entries, in the table's order.
/// They are pairwise distinct.
#[verifier::external_body]
pub(crate) fn table_keys(table: &toml::Table) -> (keys: Vec<String>)
    ensures
        keys@.len() == table_model(*table).len(),
        forall|i: int| 0 <= i < keys@.len() ==> (#[trigger] keys@[i])@ == table_model(*table)[i].0,
        forall|i: int, j: int|
            0 <= i < j < keys@.len() ==> (#[trigger] keys@[i])@ != (#[trigger] keys@[j])@,
{
    table.keys().cloned().collect()
}

/// `toml::Value::as_str`: the string of a string value, `None` for any
/// other value.
#[verifier::external_body]
pub(crate) fn value_as_str(value: &toml::Value) -> (text: Option<&str>)
    ensures
        match text {
            Some(s) => value_model(*value) == Node::Text(s@),
            None => !(value_model(*value) is Text),
        },
{
    value.as_str()
}

/// `toml::Value::as_array`: the items of an array value, `None` for any
/// other value.
#[verifier::external_body]
pub(crate) fn value_as_array(value: &toml::Value) -> (items: Option<&Vec<toml::Value>>)
    ensures
        match items {
            Some(v) => value_model(*value) == Node::List(list_model(v@)),
            None => !(value_model(*value) is List),
        },
{
    value.as_array()
}

/// `toml::Value::as_table`: the table of a table value, `None` for any
/// other value.
#[verifier::external_body]
pub(crate) fn value_as_table(value: &toml::Value) -> (table: Option<&toml::Table>)
    ensures
        match table {
            Some(t) => value_model(*value) == Node::Table(table_model(*t)),
            None => !(value_model(*value) is Table),
        },
{
    value.as_table()
}

/// `toml::Value::String`: the string value that holds `text`.
#[verifier::external_body]
pub(crate) fn value_from_string(text: String) -> (value: toml::Value)
    ensures
        value_model(value) == Node::Text(text@),
{
    toml::Value::String(text)
}

/// `toml::Value::Array`: the array value that holds `items`.
#[verifier::external_body]
pub(crate) fn value_from_array(items: Vec<toml::Value>) -> (value: toml::Value)
    ensures
        value_model(value) == Node::List(list_model(items@)),
{
    toml::Value::Array(items)
}

/// `toml::Value::Table`: the table value that holds `table`.
#[verifier::external_body]
pub(crate) fn value_from_table(table: toml::Table) -> (value: toml::Value)
    ensures
        value_model(value) == Node::Table(table_model(table)),
{
    toml::Value::Table(table)
}

/// `toml::from_str`, read as a table: the document that `text` holds, or
/// the error that the parser reports. The outcome depends on `text` alone.
#[verifier::external_body]
pub(crate) fn parse_table(text: &str) -> (outcome: Result<toml::Table, toml::de::Error>)
    ensures
        match outcome {
            Ok(table) => parsed(text@) == Ok::<Entries, Seq<char>>(table_model(table)),
            Err(error) => parsed(text@) == Err::<Entries, Seq<char>>(parse_error_text(error)),
        },
{
    toml::from_str::<toml::Table>(text)
}

/// `toml::to_string_pretty`: the text of the document that `table` holds,
/// or the error that the serializer reports. The outcome depends on the
/// entries of the table alone.
#[verifier::external_body]
pub(crate) fn render_table(table: &toml::Table) -> (outcome: Result<String, toml::ser::Error>)
    ensures
        match outcome {
            Ok(text) => rendered(table_model(*table)) == Ok::<Seq<char>, Seq<char>>(text@),
            Err(error) => rendered(table_model(*table)) == Err::<Seq<char>, Seq<char>>(
                render_error_text(error),
            ),
        },
{
    toml::to_string_pretty(table)
}

/// `Display` of `toml::de::Error`: the diagnostic as the parser words it.
#[verifier::external_body]
pub(crate) fn describe_parse_error(error: &toml::de::Error) -> (text: String)
    ensures
        text@ == parse_error_text(*error),
{
    error.to_string()
}

/// `Display` of `toml::ser::Error`: the diagnostic as the serializer words
/// it.
#[verifier::external_body]
pub(crate) fn describe_render_error(error: &toml::ser::Error) -> (text: String)
    ensures
        text@ == render_error_text(*error),
{
    error.to_string()
}

} // verus!
