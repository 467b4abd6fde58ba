//! The closed error taxonomy of the resolution pipeline. Every failure is
//! terminal for the resolution attempt that raised it.

use vstd::prelude::*;

verus! {

/// A failure of the configuration resolution pipeline.
///
/// `BadEntry` is reserved for entry-level structural violations beyond the
/// top-level type checks; no operation of this crate produces it today.
#[derive(Debug)]
pub enum ConfigError {
    /// No configuration file was found after walking to the filesystem root.
    NotFound,
    /// The configuration file exists but could not be opened or read.
    IoError,
    /// A file path has no usable parent directory: the path, and the reason.
    BadFilePath(String, &'static str),
    /// The external environment variable holds an unrecognized value.
    BadEnv(String),
    /// Reserved: an entry-level structural violation, with the entry name
    /// and the file path.
    BadEntry(String, String),
    /// A value's shape does not match the expected kind: the entry name,
    /// the expected kind, the observed kind, and the file path if known.
    BadType(String, &'static str, &'static str, Option<String>),
    /// The structured-text parser rejected the input, or the top-level value
    /// was not a table: the raw text, the file path, a message, and an
    /// optional line/column pair (reserved, never set today).
    ParseError(String, String, String, Option<(usize, usize)>),
}

/// The mathematical shape of a `ConfigError`: every textual field reduced to
/// its character sequence.
pub ghost enum ConfigErrorView {
    NotFound,
    IoError,
    BadFilePath(Seq<char>, Seq<char>),
    BadEnv(Seq<char>),
    BadEntry(Seq<char>, Seq<char>),
    BadType(Seq<char>, Seq<char>, Seq<char>, Option<Seq<char>>),
    ParseError(Seq<char>, Seq<char>, Seq<char>, Option<(usize, usize)>),
}

impl View for ConfigError {
    type V = ConfigErrorView;

    open spec fn view(&self) -> ConfigErrorView {
        match self {
            ConfigError::NotFound => ConfigErrorView::NotFound,
            ConfigError::IoError => ConfigErrorView::IoError,
            ConfigError::BadFilePath(path, reason) => ConfigErrorView::BadFilePath(
                path@,
                reason@,
            ),
            ConfigError::BadEnv(raw) => ConfigErrorView::BadEnv(raw@),
            ConfigError::BadEntry(name, path) => ConfigErrorView::BadEntry(name@, path@),
            ConfigError::BadType(name, expected, observed, path) => ConfigErrorView::BadType(
                name@,
                expected@,
                observed@,
                match path {
                    Some(p) => Some(p@),
                    None => None,
                },
            ),
            ConfigError::ParseError(raw, path, message, location) => ConfigErrorView::ParseError(
                raw@,
                path@,
                message@,
                *location,
            ),
        }
    }
}

impl ConfigError {
    /// A short fixed description of the error's kind.
    pub fn description(&self) -> (r: &'static str)
        ensures
            self@ is NotFound ==> r@ == "config file not found"@,
            self@ is IoError ==> r@ == "io error"@,
            self@ is BadFilePath ==> r@ == "bad file path"@,
            self@ is BadEnv ==> r@ == "bad env"@,
            self@ is BadEntry ==> r@ == "bad entry"@,
            self@ is BadType ==> r@ == "bad type"@,
            self@ is ParseError ==> r@ == "parse error"@,
    {
        match self {
            ConfigError::NotFound => "config file not found",
            ConfigError::IoError => "io error",
            ConfigError::BadFilePath(_, _) => "bad file path",
            ConfigError::BadEnv(_) => "bad env",
            ConfigError::BadEntry(_, _) => "bad entry",
            ConfigError::BadType(_, _, _, _) => "bad type",
            ConfigError::ParseError(_, _, _, _) => "parse error",
        }
    }
}

} // verus!
