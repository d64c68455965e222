//! Laying out a new project: which names a project may have, and what goes
//! into its directory.
//!
//! Nothing here touches the file system. [`plan`] says what is to be
//! created; the caller creates it.

use vstd::prelude::*;
use crate::error::ManifestError;

verus! {

/// A character that no project name may hold: a path separator, a double
/// quote, or a control character.
pub open spec fn reserved(c: char) -> bool {
    c == '/' || c == '\\' || c == '"' || (c as u32) < 0x20 || c == '\u{7f}'
}

/// Whether `name` can name a project: it is not empty, it is neither `.`
/// nor `..`, and it holds no reserved character. Such a name is a single
/// entry of the directory it is created in, and it can stand between
/// double quotes in a TOML document as it is.
pub open spec fn valid_name(name: Seq<char>) -> bool {
    &&& name.len() > 0
    &&& name != seq!['.']
    &&& name != seq!['.', '.']
    &&& forall|i: int| 0 <= i < name.len() ==> !reserved(#[trigger] name[i])
}

/// The name of the manifest file in a project directory.
pub open spec fn manifest_file_name() -> Seq<char> {
    "coldbrew.toml"@
}

/// The text of the manifest that a new project called `name` starts with.
pub open spec fn initial_text(name: Seq<char>) -> Seq<char> {
    "[package]\nname = \""@ + name
        + "\"\nversion = \"0.1.0\"\ndescription = \"\"\nauthors = [\"you@example.com\"]\n\n[dependencies]\n"@
}

/// Whether `c` is reserved.
fn is_reserved(c: char) -> (r: bool)
    ensures
        r == reserved(c),
{
    c == '/' || c == '\\' || c == '"' || (c as u32) < 0x20 || c == '\u{7f}'
}

/// Whether `name` can name a project.
pub fn is_valid_name(name: &str) -> (ok: bool)
    ensures
        ok == valid_name(name@),
{
    broadcast use vstd::string::group_string_axioms;

    let mut clean = true;
    let mut dots_only = true;
    let mut seen: u8 = 0;
    for c in it: name.chars()
        invariant
            it.seq() == name@,
            clean == (forall|k: int| 0 <= k < it.index() ==> !reserved(#[trigger] name@[k])),
            dots_only == (forall|k: int| 0 <= k < it.index() ==> #[trigger] name@[k] == '.'),
            seen <= 3,
            seen < 3 ==> seen == it.index(),
            seen == 3 ==> it.index() >= 3,
    {
        if is_reserved(c) {
            clean = false;
        }
        if c != '.' {
            dots_only = false;
        }
        if seen < 3 {
            seen += 1;
        }
    }
    proof {
        if dots_only && seen == 1 {
            assert(name@ =~= seq!['.']);
        }
        if dots_only && seen == 2 {
            assert(name@ =~= seq!['.', '.']);
        }
        if name@ == seq!['.'] {
            assert(name@[0] == '.');
        }
        if name@ == seq!['.', '.'] {
            assert(name@[0] == '.' && name@[1] == '.');
        }
    }
    clean && seen > 0 && !(dots_only && seen < 3)
}

/// The text of the manifest that a new project called `name` starts with:
/// the package under that name at version `0.1.0`, without a description,
/// with the placeholder author, and with an empty dependency section.
pub fn initial_manifest_text(name: &str) -> (text: String)
    ensures
        text@ == initial_text(name@),
{
    let mut text = "[package]\nname = \"".to_owned();
    text.append(name);
    text.append(
        "\"\nversion = \"0.1.0\"\ndescription = \"\"\nauthors = [\"you@example.com\"]\n\n[dependencies]\n",
    );
    text
}

/// What creating a project comes to: one directory, and in it one file.
#[derive(Debug, Clone, PartialEq, Eq)]
pub struct Plan {
    /// The directory to create, directly under the working directory. It
    /// must not be there yet.
    pub directory: String,
    /// The name of the manifest file inside that directory.
    pub file_name: String,
    /// The text to write to the manifest file.
    pub contents: String,
}

/// What to create for a new project called `name`. A name that cannot name
/// a project is refused with `InvalidName`.
pub fn plan(name: &str) -> (outcome: Result<Plan, ManifestError>)
    ensures
        match outcome {
            Ok(p) => valid_name(name@) && p.directory@ == name@ && p.file_name@
                == manifest_file_name() && p.contents@ == initial_text(name@),
            Err(e) => !valid_name(name@) && e == ManifestError::InvalidName,
        },
{
    if is_valid_name(name) {
        Ok(
            Plan {
                directory: name.to_owned(),
                file_name: "coldbrew.toml".to_owned(),
                contents: initial_manifest_text(name),
            },
        )
    } else {
        Err(ManifestError::InvalidName)
    }
}

} // verus!
