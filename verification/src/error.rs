//! What can go wrong with a manifest.

use vstd::prelude::*;

verus! {

/// A field of the manifest document.
#[derive(Debug, Clone, Copy, PartialEq, Eq)]
pub enum Field {
    /// The `package` section.
    Package,
    /// `package.name`.
    Name,
    /// `package.version`.
    Version,
    /// `package.description`.
    Description,
    /// `package.authors`.
    Authors,
    /// The `dependencies` section.
    Dependencies,
}

/// Why a text is not a manifest.
#[derive(Debug, Clone, PartialEq, Eq)]
pub enum ParseFault {
    /// The text is not well-formed TOML; the parser's diagnostic.
    Syntax(String),
    /// A required field is absent.
    Missing(Field),
    /// A field is present but does not have the shape it must have.
    Invalid(Field),
}

/// Why a command on a manifest failed.
#[derive(Debug, Clone, PartialEq, Eq)]
pub enum ManifestError {
    /// The directory of the new project is already there.
    DirectoryExists,
    /// The project has no manifest file.
    FileNotFound,
    /// The manifest file does not hold a manifest.
    ParseError(ParseFault),
    /// The file system refused; the message of the operating system.
    IoError(String),
    /// The name cannot be the name of a project directory.
    InvalidName,
    /// The manifest could not be written as TOML; the serializer's
    /// diagnostic.
    RenderError(String),
}

impl Field {
    /// The field as it is written in a document.
    pub open spec fn path(self) -> Seq<char> {
        match self {
            Field::Package => "package"@,
            Field::Name => "package.name"@,
            Field::Version => "package.version"@,
            Field::Description => "package.description"@,
            Field::Authors => "package.authors"@,
            Field::Dependencies => "dependencies"@,
        }
    }

    /// The field as it is written in a document.
    pub fn name(&self) -> (name: &'static str)
        ensures
            name@ == self.path(),
    {
        match self {
            Field::Package => "package",
            Field::Name => "package.name",
            Field::Version => "package.version",
            Field::Description => "package.description",
            Field::Authors => "package.authors",
            Field::Dependencies => "dependencies",
        }
    }
}

impl ManifestError {
    /// The error in words, as it is shown to the user. A diagnostic of the
    /// TOML parser or serializer and a message of the operating system are
    /// shown as they came.
    pub open spec fn description(self) -> Seq<char> {
        match self {
            ManifestError::DirectoryExists => "the project directory already exists"@,
            ManifestError::FileNotFound =>
                "no coldbrew.toml in this directory; create a project with `new` first"@,
            ManifestError::ParseError(ParseFault::Syntax(diagnostic)) => diagnostic@,
            ManifestError::ParseError(ParseFault::Missing(field)) => "missing field `"@
                + field.path() + "`"@,
            ManifestError::ParseError(ParseFault::Invalid(field)) => "invalid type for field `"@
                + field.path() + "`"@,
            ManifestError::IoError(message) => message@,
            ManifestError::InvalidName => "the name cannot be used for a project directory"@,
            ManifestError::RenderError(diagnostic) => diagnostic@,
        }
    }

    /// The error in words.
    pub fn describe(&self) -> (text: String)
        ensures
            text@ == self.description(),
    {
        match self {
            ManifestError::DirectoryExists => "the project directory already exists".to_owned(),
            ManifestError::FileNotFound =>
                "no coldbrew.toml in this directory; create a project with `new` first".to_owned(),
            ManifestError::ParseError(ParseFault::Syntax(diagnostic)) => diagnostic.clone(),
            ManifestError::ParseError(ParseFault::Missing(field)) => {
                let mut text = "missing field `".to_owned();
                text.append(field.name());
                text.append("`");
                text
            },
            ManifestError::ParseError(ParseFault::Invalid(field)) => {
                let mut text = "invalid type for field `".to_owned();
                text.append(field.name());
                text.append("`");
                text
            },
            ManifestError::IoError(message) => message.clone(),
            ManifestError::InvalidName => "the name cannot be used for a project directory".to_owned(),
            ManifestError::RenderError(diagnostic) => diagnostic.clone(),
        }
    }
}

} // verus!
