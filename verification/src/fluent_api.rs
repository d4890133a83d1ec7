//! Declarations for the types of the fluent localisation engine, and names
//! for the two things it computes that the contracts of this crate speak of:
//! what parsing a source text defines, and what a bundle currently holds.

use vstd::prelude::*;
use fluent_bundle::concurrent::FluentBundle;
use fluent_bundle::FluentResource;

verus! {

#[verifier::external_type_specification]
#[verifier::external_body]
pub struct ExFluentResource(FluentResource);

#[verifier::external_type_specification]
#[verifier::external_body]
#[verifier::reject_recursive_types(R)]
#[verifier::reject_recursive_types(M)]
pub struct ExFluentBundle<R, M>(fluent_bundle::bundle::FluentBundle<R, M>);

#[verifier::external_type_specification]
#[verifier::external_body]
pub struct ExIntlLangMemoizer(intl_memoizer::concurrent::IntlLangMemoizer);

#[verifier::external_type_specification]
#[verifier::external_body]
pub struct ExLanguageIdentifier(unic_langid::LanguageIdentifier);

/// What parsing a Fluent source text yields: `None` when the text has parse
/// errors; otherwise the set of entry ids the text defines (message and term
/// ids share one namespace), the subset of ids whose first entry is a message
/// carrying a value, and whether all defined entry ids are mutually distinct.
pub uninterp spec fn ftl_source(s: Seq<char>) -> Option<(Set<Seq<char>>, Set<Seq<char>>, bool)>;

/// Whether a source text is syntactically valid Fluent.
pub open spec fn ftl_ok(s: Seq<char>) -> bool {
    ftl_source(s) is Some
}

/// The entry ids a valid source text defines.
pub open spec fn ftl_entries(s: Seq<char>) -> Set<Seq<char>> {
    ftl_source(s).unwrap().0
}

/// The ids of a valid source text whose first entry is a message with a
/// value, and which can therefore be formatted once merged.
pub open spec fn ftl_valued(s: Seq<char>) -> Set<Seq<char>> {
    ftl_source(s).unwrap().1
}

/// Whether a valid source text defines no entry id twice.
pub open spec fn ftl_dup_free(s: Seq<char>) -> bool {
    ftl_source(s).unwrap().2
}

/// The source text a parsed resource was created from and still owns, as
/// `FluentResource::source` returns it.
pub uninterp spec fn resource_text(r: FluentResource) -> Seq<char>;

/// The ids of all entries a bundle currently holds.
pub uninterp spec fn bundle_entries(b: FluentBundle<FluentResource>) -> Set<Seq<char>>;

/// The formattable messages a bundle currently holds: each message id with a
/// value, mapped to the text the bundle formats for it without arguments.
pub uninterp spec fn bundle_messages(b: FluentBundle<FluentResource>) -> Map<Seq<char>, Seq<char>>;

} // verus!
