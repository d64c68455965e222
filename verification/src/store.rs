//! Loading and saving the manifest of a project, and the commands that
//! work on it.
//!
//! Reading and writing the file is the caller's part. The functions here
//! take what a read returned and give back what is to be written or
//! reported, so that each decision can be stated and proved.

use vstd::prelude::*;
use crate::codec::{is_reading_of_text, manifest_of, serialized};
use crate::document::parsed;
use crate::error::{ManifestError, ParseFault};
use crate::manifest::{initial_version, requirements_of, texts, Manifest, ManifestView};
use crate::scaffold::manifest_file_name;

verus! {

/// What the store needs to know of a failed file-system call.
#[derive(Debug, Clone, Copy, PartialEq, Eq)]
pub enum IoFailure {
    /// The file or directory is not there.
    NotFound,
    /// The file or directory is there already.
    AlreadyExists,
    /// Anything else: permissions, a full disk.
    Other,
}

/// The name of the manifest file. It lies directly in the project
/// directory; no other directory is searched for it.
pub fn manifest_file() -> (name: &'static str)
    ensures
        name@ == manifest_file_name(),
{
    "coldbrew.toml"
}

/// A file-system call that the store or the scaffolder asks for.
#[derive(Debug, Clone, Copy, PartialEq, Eq)]
pub enum Operation {
    /// Creating the directory of a new project.
    CreateDirectory,
    /// Writing the manifest file, whole.
    WriteManifest,
    /// Reading the manifest file.
    ReadManifest,
}

/// The error that a failed file-system call is reported as.
pub open spec fn error_of(operation: Operation, failure: IoFailure, message: String) -> ManifestError {
    match (operation, failure) {
        (Operation::CreateDirectory, IoFailure::AlreadyExists) => ManifestError::DirectoryExists,
        (Operation::ReadManifest, IoFailure::NotFound) => ManifestError::FileNotFound,
        _ => ManifestError::IoError(message),
    }
}

/// The error for a failed file-system call, from the kind of the failure
/// and the message of the operating system. A project directory that is
/// there already is `DirectoryExists`, a manifest file that is not there
/// is `FileNotFound`, and every other failure is an `IoError` with the
/// message.
pub fn io_error(operation: Operation, failure: IoFailure, message: String) -> (error: ManifestError)
    ensures
        error == error_of(operation, failure, message),
{
    match (operation, failure) {
        (Operation::CreateDirectory, IoFailure::AlreadyExists) => ManifestError::DirectoryExists,
        (Operation::ReadManifest, IoFailure::NotFound) => ManifestError::FileNotFound,
        _ => ManifestError::IoError(message),
    }
}

/// Whether `outcome` is what loading gives for what a read of the manifest
/// file returned.
pub open spec fn is_load_of(
    outcome: Result<Manifest, ManifestError>,
    read: Result<String, (IoFailure, String)>,
) -> bool {
    match read {
        Ok(text) => is_reading_of_text(outcome, text@),
        Err((failure, message)) => outcome == Err::<Manifest, ManifestError>(
            error_of(Operation::ReadManifest, failure, message),
        ),
    }
}

/// The manifest of the project, from what reading its manifest file
/// returned: the contents of the file, or the kind of the failure and its
/// message. A file that is not there gives `FileNotFound`, one that does
/// not hold a manifest a `ParseError`.
pub fn load(read: Result<String, (IoFailure, String)>) -> (outcome: Result<Manifest, ManifestError>)
    ensures
        is_load_of(outcome, read),
{
    match read {
        Ok(text) => Manifest::deserialize(text.as_str()),
        Err((failure, message)) => Err(io_error(Operation::ReadManifest, failure, message)),
    }
}

/// The `add` command: from what reading the manifest file returned, the
/// text to write back. The manifest is loaded, `package` is declared with
/// the requirement `0.1.0` (in place of an earlier requirement on it, if
/// there is one), and the whole document is written anew. Where loading
/// fails, the error is that of `load` and nothing is to be written.
pub fn add_package(read: Result<String, (IoFailure, String)>, package: &str) -> (outcome: Result<
    String,
    ManifestError,
>)
    ensures
        match read {
            Ok(text) => match parsed(text@) {
                Ok(document) => match manifest_of(document) {
                    Ok(manifest) => match serialized(
                        manifest.with_dependency(package@, initial_version()),
                    ) {
                        Ok(after) => outcome matches Ok(s) && s@ == after,
                        Err(diagnostic) => outcome matches Err(ManifestError::RenderError(s)) && s@
                            == diagnostic,
                    },
                    Err(fault) => outcome == Err::<String, ManifestError>(
                        ManifestError::ParseError(fault),
                    ),
                },
                Err(diagnostic) => outcome matches Err(
                    ManifestError::ParseError(ParseFault::Syntax(s)),
                ) && s@ == diagnostic,
            },
            Err((failure, message)) => outcome == Err::<String, ManifestError>(
                error_of(Operation::ReadManifest, failure, message),
            ),
        },
{
    let mut manifest = match load(read) {
        Ok(manifest) => manifest,
        Err(error) => {
            return Err(error);
        },
    };
    manifest.add(package);
    manifest.serialize()
}

/// The line of a report that names a dependency.
pub open spec fn dependency_line(dependency: (Seq<char>, Seq<char>)) -> Seq<char> {
    "Dependency: "@ + dependency.0 + " v"@ + dependency.1
}

/// The report of the `build` command on a manifest: the package name, then
/// one line per dependency in declared order, or a line that says that
/// there is no dependency section.
pub open spec fn report_of(manifest: ManifestView) -> Seq<Seq<char>> {
    seq!["Project: "@ + manifest.package.name] + match manifest.dependencies {
        Some(deps) => deps.map_values(|d: (Seq<char>, Seq<char>)| dependency_line(d)),
        None => seq!["No dependencies."@],
    }
}

/// The lines that the `build` command reports for a manifest.
pub fn report(manifest: &Manifest) -> (lines: Vec<String>)
    ensures
        texts(lines@) == report_of(manifest@),
{
    let mut lines: Vec<String> = Vec::new();
    let mut head = "Project: ".to_owned();
    head.append(manifest.package().name.as_str());
    lines.push(head);
    match manifest.dependencies() {
        Some(deps) => {
            let ghost declared = requirements_of(deps@);
            let mut i: usize = 0;
            while i < deps.len()
                invariant
                    i <= deps@.len(),
                    declared == requirements_of(deps@),
                    lines@.len() == i + 1,
                    lines@[0]@ == "Project: "@ + manifest@.package.name,
                    forall|k: int|
                        0 <= k < i ==> (#[trigger] lines@[k + 1])@ == dependency_line(declared[k]),
                decreases deps@.len() - i,
            {
                let mut line = "Dependency: ".to_owned();
                line.append(deps[i].name.as_str());
                line.append(" v");
                line.append(deps[i].requirement.as_str());
                lines.push(line);
                i += 1;
            }
            assert forall|k: int| 0 <= k < lines@.len() implies texts(lines@)[k] == report_of(
                manifest@,
            )[k] by {
                if k > 0 {
                    assert(lines@[(k - 1) + 1]@ == dependency_line(declared[k - 1]));
                }
            }
            assert(texts(lines@) =~= report_of(manifest@));
        },
        None => {
            lines.push("No dependencies.".to_owned());
            assert(texts(lines@) =~= report_of(manifest@));
        },
    }
    lines
}

} // verus!
