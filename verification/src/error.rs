//! Definitions for error types used throughout the crate

use std::path::PathBuf;
use vstd::prelude::*;

verus! {

/// A file-system path of the standard library, carried through unopened.
#[verifier::external_type_specification]
#[verifier::external_body]
pub struct ExPathBuf(std::path::PathBuf);

/// `std::path::Path::display`, written out as a `String`.
///
/// The standard library renders a path that is not Unicode lossily and
/// leaves the details to the platform, so nothing is claimed of the text.
#[verifier::external_body]
fn path_display(path: &PathBuf) -> String {
    format!("{}", path.display())
}

/// What a path error reads as, given its message and the rendering of its
/// path: the message, a line break, and the path behind `path: `.
pub open spec fn path_error_text(message: Seq<char>, path: Seq<char>) -> Seq<char> {
    message + "\npath: "@ + path
}

/// A failure of the native library, with a message known at compile time.
#[derive(Debug)]
pub struct RaylibError(pub &'static str);

impl RaylibError {
    /// The error as text: its message.
    pub fn to_string(&self) -> (text: String)
        ensures
            text@ == self.0@,
    {
        self.0.to_owned()
    }
}

/// A failure of the native library on a file, with a message known at
/// compile time and the path of the file.
#[derive(Debug)]
pub struct RaylibPathError {
    pub message: &'static str,
    pub path: PathBuf,
}

impl RaylibPathError {
    pub fn new(message: &'static str, path: PathBuf) -> (error: Self)
        ensures
            error.message == message,
            error.path == path,
    {
        Self { message, path }
    }

    /// The error as text, with `path` as the rendering of its path.
    pub fn describe(&self, path: &str) -> (text: String)
        ensures
            text@ == path_error_text(self.message@, path@),
    {
        let mut text = self.message.to_owned();
        text.append("\npath: ");
        text.append(path);
        text
    }

    /// The error as text: its message, then its path on a line of its own,
    /// rendered as the standard library displays paths.
    pub fn to_string(&self) -> (text: String)
        ensures
            exists|path: Seq<char>| text@ == path_error_text(self.message@, path),
    {
        let shown = path_display(&self.path);
        self.describe(shown.as_str())
    }
}

} // verus!
