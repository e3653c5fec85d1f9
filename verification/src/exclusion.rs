//! The exclusion patterns of a profile and the cache of their matchers.
//!
//! The patterns are kept as the user wrote them. Their compiled form is built
//! when a query first needs it and kept until the patterns change. A cache
//! whose length differs from that of the pattern list is stale.
use crate::pattern::{
    any_match, any_slot_matches, compile_patterns, compiled_slots, excluded_by, slots_of,
    Matcher,
};
use crate::strings::{append_strings, copy_strings, texts_of};
use vstd::prelude::*;

verus! {

/// The mathematical value of an [`ExcludedFiles`].
pub struct ExcludedView {
    /// The patterns, in the order in which they were given.
    pub raw: Seq<Seq<char>>,
    /// The cache: for each slot the source of its matcher, if it has one.
    pub cache: Seq<Option<Seq<char>>>,
}

impl ExcludedView {
    /// A cache of the right length holds what its patterns compile to.
    pub open spec fn in_step(self) -> bool {
        self.cache.len() == self.raw.len() ==> self.cache == compiled_slots(self.raw)
    }

    /// The value after the cache has been brought up to date.
    pub open spec fn refreshed(self) -> ExcludedView {
        ExcludedView { raw: self.raw, cache: compiled_slots(self.raw) }
    }

    /// The value after the patterns `more` have been added: the list grows
    /// at its end and the cache is emptied. With nothing to add, nothing
    /// changes.
    pub open spec fn extended(self, more: Seq<Seq<char>>) -> ExcludedView {
        if more.len() == 0 {
            self
        } else {
            ExcludedView { raw: self.raw + more, cache: Seq::empty() }
        }
    }

    /// What a query for `text` answers from the cache as it stands.
    pub open spec fn answer(self, text: Seq<char>) -> bool {
        any_slot_matches(self.cache, text)
    }
}

/// After the cache has been brought up to date it has one slot for each
/// pattern, and it is in step with the patterns.
pub proof fn lemma_refreshed_cache_is_complete(excluded: ExcludedView)
    ensures
        excluded.refreshed().cache.len() == excluded.refreshed().raw.len(),
        excluded.refreshed().raw == excluded.raw,
        excluded.refreshed().in_step(),
{
}

/// Without patterns nothing is excluded, whatever is asked for.
pub proof fn lemma_no_patterns_exclude_nothing(excluded: ExcludedView, text: Seq<char>)
    requires
        excluded.raw.len() == 0,
    ensures
        !excluded.refreshed().answer(text),
{
}

/// Bringing the cache up to date a second time changes nothing: neither the
/// cache nor any answer.
pub proof fn lemma_refresh_is_idempotent(excluded: ExcludedView, text: Seq<char>)
    ensures
        excluded.refreshed().refreshed() == excluded.refreshed(),
        excluded.refreshed().refreshed().answer(text) == excluded.refreshed().answer(text),
{
}

/// A cache that is complete and in step is left as it is by a refresh.
pub proof fn lemma_refresh_keeps_a_complete_cache(excluded: ExcludedView)
    requires
        excluded.in_step(),
        excluded.cache.len() == excluded.raw.len(),
    ensures
        excluded.refreshed() == excluded,
{
}

/// The answers depend on the patterns alone: two values with the same
/// patterns answer alike once their caches are up to date, whatever their
/// caches held before.
pub proof fn lemma_same_patterns_same_answers(
    left: ExcludedView,
    right: ExcludedView,
    text: Seq<char>,
)
    requires
        left.raw == right.raw,
    ensures
        left.refreshed().cache == right.refreshed().cache,
        left.refreshed().answer(text) == right.refreshed().answer(text),
        left.refreshed().answer(text) == excluded_by(left.raw, text),
{
}

/// Adding patterns keeps those that were there, in front of the new ones,
/// and leaves the value in step.
pub proof fn lemma_extended_keeps_patterns(excluded: ExcludedView, more: Seq<Seq<char>>)
    requires
        excluded.in_step(),
    ensures
        excluded.extended(more).raw == excluded.raw + more,
        excluded.extended(more).raw.len() == excluded.raw.len() + more.len(),
        excluded.extended(more).in_step(),
{
    if more.len() == 0 {
        assert(excluded.raw + more =~= excluded.raw);
    }
}

/// Exclusion patterns together with the cache of their compiled form.
#[derive(Debug)]
pub struct ExcludedFiles {
    raw: Vec<String>,
    compiled: Vec<Option<Matcher>>,
}

impl View for ExcludedFiles {
    type V = ExcludedView;

    closed spec fn view(&self) -> ExcludedView {
        ExcludedView { raw: texts_of(self.raw@), cache: slots_of(self.compiled@) }
    }
}

impl Clone for ExcludedFiles {
    /// A copy with the same patterns. Its cache starts empty.
    fn clone(&self) -> (copy: ExcludedFiles)
        ensures
            copy@.raw == self@.raw,
            copy@.cache.len() == 0,
    {
        ExcludedFiles::new(copy_strings(&self.raw))
    }
}

impl ExcludedFiles {
    #[verifier::type_invariant]
    spec fn cache_in_step(&self) -> bool {
        self@.in_step()
    }

    /// The patterns `raw` with an empty cache.
    pub fn new(raw: Vec<String>) -> (excluded: ExcludedFiles)
        ensures
            excluded@.raw == texts_of(raw@),
            excluded@.cache.len() == 0,
            excluded@.in_step(),
    {
        let compiled: Vec<Option<Matcher>> = Vec::new();
        assert(compiled_slots(texts_of(raw@)).len() == raw.len());
        assert(raw.len() == 0 ==> slots_of(compiled@) =~= compiled_slots(texts_of(raw@)));
        ExcludedFiles { raw, compiled }
    }

    /// The patterns `raw` with their cache already built.
    pub fn compiled_from(raw: Vec<String>) -> (excluded: ExcludedFiles)
        ensures
            excluded@.raw == texts_of(raw@),
            excluded@.cache == compiled_slots(texts_of(raw@)),
            excluded@.in_step(),
    {
        let compiled = compile_patterns(&raw);
        ExcludedFiles { raw, compiled }
    }

    /// The patterns as they were given.
    pub fn raw(&self) -> (raw: &Vec<String>)
        ensures
            texts_of(raw@) == self@.raw,
    {
        &self.raw
    }

    /// The number of patterns.
    pub fn len(&self) -> (count: usize)
        ensures
            count == self@.raw.len(),
    {
        self.raw.len()
    }

    /// The number of slots in the cache.
    pub fn cached(&self) -> (count: usize)
        ensures
            count == self@.cache.len(),
    {
        self.compiled.len()
    }

    /// Adds the patterns of `other` at the end and empties the cache, unless
    /// `other` has none.
    pub fn extend(&mut self, other: &ExcludedFiles)
        ensures
            final(self)@ == old(self)@.extended(other@.raw),
            final(self)@.in_step(),
    {
        proof {
            use_type_invariant(&*self);
        }
        if other.raw.len() > 0 {
            let mut raw = copy_strings(&self.raw);
            append_strings(&mut raw, &other.raw);
            let compiled: Vec<Option<Matcher>> = Vec::new();
            assert(slots_of(compiled@) =~= Seq::<Option<Seq<char>>>::empty());
            *self = ExcludedFiles { raw, compiled };
        }
    }

    /// Builds the cache anew if it is stale.
    pub fn refresh(&mut self)
        ensures
            final(self)@ == old(self)@.refreshed(),
            final(self)@.cache.len() == final(self)@.raw.len(),
    {
        proof {
            use_type_invariant(&*self);
        }
        if self.compiled.len() != self.raw.len() {
            self.compiled = compile_patterns(&self.raw);
        }
    }

    /// Whether one of the patterns matches `text`, with the cache brought up
    /// to date first.
    pub fn matches(&mut self, text: &str) -> (found: bool)
        ensures
            final(self)@ == old(self)@.refreshed(),
            found == final(self)@.answer(text@),
            found == excluded_by(old(self)@.raw, text@),
            final(self)@.cache.len() == final(self)@.raw.len(),
            old(self)@.raw.len() == 0 ==> !found,
    {
        self.refresh();
        any_match(&self.compiled, text)
    }
}

} // verus!
