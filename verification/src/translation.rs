//! Parsing raw localisation file bytes into translation resources.

use vstd::prelude::*;
use vstd::utf8::decode_utf8;
use vstd::utf8::valid_utf8;
use fluent_bundle::FluentResource;
use crate::LocaleError;
use crate::fluent_api::ftl_source;
use crate::fluent_api::resource_text;

verus! {

/// A successfully parsed localisation resource, holding the message
/// definitions of one source file. Immutable after construction: the only way
/// to obtain one is [`TranslationFormat::import`].
pub struct Translation {
    pub(crate) resource: FluentResource,
}

impl View for Translation {
    type V = Seq<char>;

    /// A translation is abstractly the source text its resource was parsed
    /// from.
    closed spec fn view(&self) -> Seq<char> {
        resource_text(self.resource)
    }
}

/// Relies on `String::from_utf8`: it returns `Ok` exactly when the bytes are
/// valid UTF-8, and then the string is their decoding.
#[verifier::external_body]
fn decode_utf8_vec(bytes: Vec<u8>) -> (r: Option<String>)
    ensures
        r is Some <==> valid_utf8(bytes@),
        r is Some ==> r.unwrap()@ == decode_utf8(bytes@),
{
    String::from_utf8(bytes).ok()
}

/// Relies on `fluent_bundle::FluentResource::try_new`: it returns `Ok`
/// exactly when the source text parses without errors, and the resource then
/// owns that text as its source; on failure it reports the parser's
/// diagnostics.
#[verifier::external_body]
fn parse_resource(text: String) -> (r: Result<FluentResource, String>)
    ensures
        r is Ok <==> ftl_source(text@) is Some,
        r is Ok ==> resource_text(r->Ok_0) == text@,
{
    match FluentResource::try_new(text) {
        Ok(resource) => Ok(resource),
        Err((_, errors)) => Err(format!("{:?}", errors)),
    }
}

/// Loads translations from Fluent (`.ftl`) localisation sources.
#[derive(Clone)]
pub struct TranslationFormat;

impl TranslationFormat {
    /// The name under which this format is registered with an asset pipeline.
    pub fn name(&self) -> (r: &'static str)
        ensures
            r@ == "FTL"@,
    {
        "FTL"
    }

    /// Parses raw file bytes into a [`Translation`]. Fails with
    /// [`LocaleError::Decoding`] exactly when the bytes are not valid UTF-8,
    /// and with [`LocaleError::Parse`] exactly when the decoded text is not
    /// valid Fluent source; a malformed file never aborts the caller.
    pub fn import(&self, bytes: Vec<u8>, _options: ()) -> (r: Result<Translation, LocaleError>)
        ensures
            r is Ok <==> (valid_utf8(bytes@) && ftl_source(decode_utf8(bytes@)) is Some),
            r is Ok ==> r->Ok_0@ == decode_utf8(bytes@),
            r is Err ==> (r->Err_0 is Decoding <==> !valid_utf8(bytes@)),
            r is Err ==> (r->Err_0 is Decoding || r->Err_0 is Parse),
    {
        match decode_utf8_vec(bytes) {
            None => Err(LocaleError::Decoding),
            Some(text) => match parse_resource(text) {
                Ok(resource) => Ok(Translation { resource }),
                Err(diagnostic) => Err(LocaleError::Parse(diagnostic)),
            },
        }
    }
}

} // verus!
