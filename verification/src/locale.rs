//! Locale bundles: aggregating parsed translation resources under an ordered
//! language-tag list and formatting messages by key.

use vstd::prelude::*;
use fluent_bundle::concurrent::FluentBundle;
use fluent_bundle::FluentResource;
use unic_langid::LanguageIdentifier;
use crate::LocaleError;
use crate::fluent_api::bundle_entries;
use crate::fluent_api::bundle_messages;
use crate::fluent_api::ftl_dup_free;
use crate::fluent_api::ftl_entries;
use crate::fluent_api::ftl_valued;
use crate::translation::Translation;

verus! {

/// The construction data of a [`Locale`]: an ordered list of language tags
/// (such as `"en"` or `"fr"`) that fixes the bundle's language order.
#[derive(Clone)]
pub struct LocaleData(pub Vec<String>);

/// A locale bundle: zero or more merged translation resources under an
/// ordered language-tag list, queryable for formatted messages by key.
pub struct Locale {
    bundle: FluentBundle<FluentResource>,
    langs: Ghost<Seq<Seq<char>>>,
}

/// Relies on `FluentBundle::new`: a fresh bundle holds the given locales and
/// no entries at all. Each tag is converted with unic-langid's
/// `str::parse::<LanguageIdentifier>`; a tag the parser rejects falls back
/// to the undetermined identifier, since bundle construction accepts
/// malformed tags and defers their consequences to the formatting engine.
#[verifier::external_body]
fn new_bundle(tags: &Vec<String>) -> (b: FluentBundle<FluentResource>)
    ensures
        forall|id: Seq<char>| !bundle_entries(b).contains(id),
        forall|id: Seq<char>| !bundle_messages(b).dom().contains(id),
{
    let mut ids: Vec<LanguageIdentifier> = Vec::new();
    for tag in tags.iter() {
        ids.push(tag.parse().unwrap_or_default());
    }
    FluentBundle::new_concurrent(ids)
}

/// Relies on `FluentBundle::add_resource`: every entry of the resource whose
/// id is still free is inserted; an entry whose id is already taken is
/// skipped and reported as an error, so the call succeeds exactly when the
/// resource's entry ids are mutually distinct and disjoint from the
/// bundle's. Message ids that carry a value and were inserted become
/// formattable.
#[verifier::external_body]
fn bundle_add(b: &mut FluentBundle<FluentResource>, t: Translation) -> (r: bool)
    ensures
        bundle_entries(*final(b)) == bundle_entries(*old(b)).union(ftl_entries(t@)),
        bundle_messages(*final(b)).dom() == bundle_messages(*old(b)).dom().union(
            ftl_valued(t@).difference(bundle_entries(*old(b))),
        ),
        r == (ftl_dup_free(t@) && ftl_entries(t@).disjoint(bundle_entries(*old(b)))),
{
    b.add_resource(t.resource).is_ok()
}

/// Relies on `FluentBundle::get_message`, `FluentMessage::value` and
/// `FluentBundle::format_pattern`: returns the formatted, argument-free text
/// of the message under `key`, or `None` where the bundle holds no message
/// with a value under that id.
#[verifier::external_body]
fn bundle_format(b: &FluentBundle<FluentResource>, key: &str) -> (r: Option<String>)
    ensures
        r is Some <==> bundle_messages(*b).dom().contains(key@),
        r is Some ==> r.unwrap()@ == bundle_messages(*b)[key@],
{
    let msg = match b.get_message(key) {
        Some(m) => m,
        None => return None,
    };
    let pattern = match msg.value() {
        Some(p) => p,
        None => return None,
    };
    let mut errors = Vec::new();
    let text = b.format_pattern(pattern, None, &mut errors);
    Some(text.into_owned())
}

impl Locale {
    /// The ordered language tags the bundle was constructed with.
    pub closed spec fn langs(&self) -> Seq<Seq<char>> {
        self.langs@
    }

    /// The ids of all entries (messages and terms) merged into the bundle so
    /// far; message and term ids share one namespace.
    pub closed spec fn entry_ids(&self) -> Set<Seq<char>> {
        bundle_entries(self.bundle)
    }

    /// The formattable messages: each merged message id that carries a
    /// value, mapped to the text the bundle formats for it without
    /// arguments.
    pub closed spec fn messages(&self) -> Map<Seq<char>, Seq<char>> {
        bundle_messages(self.bundle)
    }

    /// Builds a bundle over the given language list, with no merged
    /// resources and no formattable messages. Construction always succeeds;
    /// tag well-formedness is not validated at this layer.
    pub fn new(data: LocaleData) -> (l: Locale)
        ensures
            l.langs() == data.0.deep_view(),
            l.entry_ids() == Set::<Seq<char>>::empty(),
            l.messages() == Map::<Seq<char>, Seq<char>>::empty(),
    {
        let bundle = new_bundle(&data.0);
        proof {
            assert(bundle_entries(bundle) =~= Set::<Seq<char>>::empty());
            assert(bundle_messages(bundle) =~= Map::<Seq<char>, Seq<char>>::empty());
        }
        Locale { bundle, langs: Ghost(data.0.deep_view()) }
    }

    /// Merges a parsed translation into the bundle. Succeeds exactly when
    /// the translation's entry ids are mutually distinct and none of them is
    /// already present; afterwards its free entries are in the bundle either
    /// way, and its inserted valued messages are formattable.
    pub fn add_resource(&mut self, t: Translation) -> (r: Result<(), LocaleError>)
        ensures
            final(self).langs() == old(self).langs(),
            final(self).entry_ids() == old(self).entry_ids().union(ftl_entries(t@)),
            final(self).messages().dom() == old(self).messages().dom().union(
                ftl_valued(t@).difference(old(self).entry_ids()),
            ),
            r is Ok <==> (ftl_dup_free(t@) && ftl_entries(t@).disjoint(old(self).entry_ids())),
            r is Err ==> r->Err_0 is Merge,
    {
        if bundle_add(&mut self.bundle, t) {
            Ok(())
        } else {
            Err(LocaleError::Merge)
        }
    }

    /// Law (keys round trip): if `post` is a bundle that held no entries and
    /// no messages (as `Locale::new` leaves it) after `add_resource` of a
    /// translation with source `src` — its views related to `pre`'s as that
    /// contract states — then its entry ids are exactly the ids `src`
    /// defines, and its formattable message ids are exactly the valued
    /// message ids of `src`: the keys that went in are the keys that come
    /// out.
    pub proof fn lemma_first_merge_round_trip(pre: Locale, post: Locale, src: Seq<char>)
        requires
            pre.entry_ids() == Set::<Seq<char>>::empty(),
            pre.messages() == Map::<Seq<char>, Seq<char>>::empty(),
            post.entry_ids() == pre.entry_ids().union(ftl_entries(src)),
            post.messages().dom() == pre.messages().dom().union(
                ftl_valued(src).difference(pre.entry_ids()),
            ),
        ensures
            post.entry_ids() =~= ftl_entries(src),
            post.messages().dom() =~= ftl_valued(src),
    {
    }

    /// Law (duplicate entry rejected, prior state kept): if a translation
    /// defines an entry id that the bundle already holds, the success
    /// condition of `add_resource` fails — such a merge reports
    /// `LocaleError::Merge` — and afterwards every entry already present,
    /// the colliding id among them, is still in the bundle.
    pub proof fn lemma_duplicate_merge_rejected(l: Locale, src: Seq<char>, id: Seq<char>)
        requires
            l.entry_ids().contains(id),
            ftl_entries(src).contains(id),
        ensures
            !(ftl_dup_free(src) && ftl_entries(src).disjoint(l.entry_ids())),
            forall|e: Seq<char>|
                l.entry_ids().contains(e) ==> l.entry_ids().union(ftl_entries(src)).contains(e),
    {
        assert(!ftl_entries(src).disjoint(l.entry_ids()));
    }

    /// Formats the message under `key` with no arguments. Succeeds exactly
    /// when the bundle holds a message with a value under that key, and then
    /// returns the bundle's formatted text for it.
    pub fn format_message(&self, key: &str) -> (r: Result<String, LocaleError>)
        ensures
            r is Ok <==> self.messages().dom().contains(key@),
            r is Ok ==> r->Ok_0@ == self.messages()[key@],
            r is Err ==> r->Err_0 is Formatting,
    {
        match bundle_format(&self.bundle, key) {
            Some(text) => Ok(text),
            None => Err(LocaleError::Formatting),
        }
    }
}

} // verus!
