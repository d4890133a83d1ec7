//! Localisation assets: turning raw Fluent (`.ftl`) source bytes into parsed
//! translation resources, and aggregating those resources into locale bundles
//! that format messages by key.

use vstd::prelude::*;

pub mod fluent_api;
pub mod locale;
pub mod translation;

pub use locale::Locale;
pub use locale::LocaleData;
pub use translation::Translation;
pub use translation::TranslationFormat;

verus! {

/// The kinds of failure a localisation load or lookup can produce.
#[derive(Clone, Debug, PartialEq)]
pub enum LocaleError {
    /// The raw bytes are not valid UTF-8.
    Decoding,
    /// The decoded text is not syntactically valid Fluent source; carries the
    /// parser's diagnostics.
    Parse(String),
    /// A merged resource defines an entry id that the bundle already holds.
    Merge,
    /// The bundle holds no message with a value under the requested key.
    Formatting,
}

impl LocaleError {
    /// A short human-readable description of the error kind.
    pub fn describe(&self) -> (r: &'static str)
        ensures
            self is Decoding ==> r@ == "the bytes are not valid UTF-8"@,
            self is Parse ==> r@ == "the text is not valid Fluent source"@,
            self is Merge ==> r@ == "an entry id is already defined in the bundle"@,
            self is Formatting ==> r@ == "no message with a value under that key"@,
    {
        match self {
            LocaleError::Decoding => "the bytes are not valid UTF-8",
            LocaleError::Parse(_) => "the text is not valid Fluent source",
            LocaleError::Merge => "an entry id is already defined in the bundle",
            LocaleError::Formatting => "no message with a value under that key",
        }
    }
}

} // verus!
