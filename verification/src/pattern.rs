//! Exclusion patterns: from the text a user wrote to a compiled matcher.
//!
//! A pattern is a piece of a path in which `*` stands for any run of
//! characters. It is rewritten into the source of a regular expression, which
//! the `regex` crate compiles and runs.
use crate::strings::texts_of;
use vstd::prelude::*;

verus! {

/// A compiled regular expression of the `regex` crate. Nothing of what it
/// holds is visible here.
#[verifier::external_type_specification]
#[verifier::external_body]
pub struct ExRegex(regex::Regex);

/// The matcher of one pattern: the source of a regular expression together
/// with its compiled form. [`compile`] alone makes one, so the compiled form
/// is always that of the source.
#[derive(Debug)]
pub struct Matcher {
    source: String,
    regex: regex::Regex,
}

impl View for Matcher {
    type V = Seq<char>;

    /// The source of the regular expression.
    closed spec fn view(&self) -> Seq<char> {
        self.source@
    }
}

/// Whether `regex::Regex::new` accepts `source`.
pub uninterp spec fn regex_compiles(source: Seq<char>) -> bool;

/// Whether the regular expression that `regex::Regex::new` makes of `source`
/// finds a match anywhere in `text`: the answer of `regex::Regex::is_match`.
pub uninterp spec fn regex_accepts(source: Seq<char>, text: Seq<char>) -> bool;

/// Calls `regex::Regex::new` on `source` and keeps what it returns together
/// with a copy of `source`. The error's details are dropped. The call
/// succeeds exactly where [`regex_compiles`] says so.
#[verifier::external_body]
pub(crate) fn compile(source: &str) -> (compiled: Option<Matcher>)
    ensures
        compiled is Some == regex_compiles(source@),
        compiled matches Some(matcher) ==> matcher@ == source@,
{
    regex::Regex::new(source).ok().map(|regex| Matcher { source: source.to_string(), regex })
}

/// Calls `regex::Regex::is_match` on the compiled form of `matcher`. The
/// answer is a function of the source of `matcher` and of `text`, named
/// [`regex_accepts`].
#[verifier::external_body]
pub(crate) fn is_match(matcher: &Matcher, text: &str) -> (found: bool)
    ensures
        found == regex_accepts(matcher@, text@),
{
    matcher.regex.is_match(text)
}

/// What one character of a pattern becomes in the source of the regular
/// expression: a dot is taken literally, a star matches anything.
pub open spec fn char_source(c: char) -> Seq<char> {
    if c == '.' {
        seq!['\\', '.']
    } else if c == '*' {
        seq!['.', '*']
    } else {
        seq![c]
    }
}

/// The source of the regular expression that stands for the pattern `raw`.
pub open spec fn pattern_source(raw: Seq<char>) -> Seq<char> {
    raw.flat_map(|c: char| char_source(c))
}

/// What compiling the pattern `raw` leaves in its slot of the cache: the
/// source of its regular expression, or nothing where that does not compile.
pub open spec fn compiled_slot(raw: Seq<char>) -> Option<Seq<char>> {
    if regex_compiles(pattern_source(raw)) {
        Some(pattern_source(raw))
    } else {
        None
    }
}

/// The cache that belongs to the patterns `raw`: one slot each, in order.
pub open spec fn compiled_slots(raw: Seq<Seq<char>>) -> Seq<Option<Seq<char>>> {
    raw.map_values(|pattern: Seq<char>| compiled_slot(pattern))
}

/// Whether the matcher in `slot` finds a match in `text`. An empty slot
/// matches nothing.
pub open spec fn slot_matches(slot: Option<Seq<char>>, text: Seq<char>) -> bool {
    match slot {
        Some(source) => regex_accepts(source, text),
        None => false,
    }
}

/// Whether any of `slots` finds a match in `text`.
pub open spec fn any_slot_matches(slots: Seq<Option<Seq<char>>>, text: Seq<char>) -> bool {
    exists|i: int| 0 <= i < slots.len() && slot_matches(#[trigger] slots[i], text)
}

/// Whether one of the patterns `raw` excludes the path with the text `text`.
pub open spec fn excluded_by(raw: Seq<Seq<char>>, text: Seq<char>) -> bool {
    any_slot_matches(compiled_slots(raw), text)
}

/// What a compiled cache holds: for each slot the source of its matcher.
pub open spec fn slots_of(compiled: Seq<Option<Matcher>>) -> Seq<Option<Seq<char>>> {
    compiled.map_values(
        |slot: Option<Matcher>|
            match slot {
                Some(matcher) => Some(matcher@),
                None => None,
            },
    )
}

/// Rewrites the pattern `raw` into the source of a regular expression.
pub fn source_of_pattern(raw: &str) -> (source: String)
    ensures
        source@ == pattern_source(raw@),
{
    let mut source = String::new();
    assert(raw@.take(0).flat_map(|c: char| char_source(c)) =~= Seq::<char>::empty());
    for c in it: raw.chars()
        invariant
            it.seq() == raw@,
            source@ == pattern_source(raw@.take(it.index())),
    {
        proof {
            raw@.lemma_flat_map_take_append(|c: char| char_source(c), it.index());
        }
        if c == '.' {
            source.push('\\');
            source.push('.');
        } else if c == '*' {
            source.push('.');
            source.push('*');
        } else {
            source.push(c);
        }
        assert(source@ =~= pattern_source(raw@.take(it.index() + 1)));
    }
    assert(raw@.take(raw@.len() as int) =~= raw@);
    source
}

/// Compiles every pattern of `raw` into its slot.
pub fn compile_patterns(raw: &Vec<String>) -> (compiled: Vec<Option<Matcher>>)
    ensures
        slots_of(compiled@) == compiled_slots(texts_of(raw@)),
        compiled.len() == raw.len(),
{
    let mut compiled: Vec<Option<Matcher>> = Vec::new();
    let mut at: usize = 0;
    while at < raw.len()
        invariant
            at <= raw.len(),
            compiled.len() == at,
            slots_of(compiled@) == compiled_slots(texts_of(raw@)).take(at as int),
        decreases raw.len() - at,
    {
        let source = source_of_pattern(raw[at].as_str());
        let slot = compile(source.as_str());
        let ghost before = compiled@;
        compiled.push(slot);
        at = at + 1;
        assert(slots_of(compiled@) =~= compiled_slots(texts_of(raw@)).take(at as int)) by {
            assert(compiled@ == before.push(slot));
            assert(forall|i: int| 0 <= i < before.len() ==> slots_of(before)[i] == slots_of(
                compiled@,
            )[i]);
        }
    }
    assert(compiled_slots(texts_of(raw@)).take(at as int) =~= compiled_slots(texts_of(raw@)));
    compiled
}

/// Whether any matcher of `compiled` finds a match in `text`.
pub fn any_match(compiled: &Vec<Option<Matcher>>, text: &str) -> (found: bool)
    ensures
        found == any_slot_matches(slots_of(compiled@), text@),
{
    let mut at: usize = 0;
    while at < compiled.len()
        invariant
            at <= compiled.len(),
            forall|i: int| 0 <= i < at ==> !slot_matches(#[trigger] slots_of(compiled@)[i], text@),
        decreases compiled.len() - at,
    {
        let hit = match &compiled[at] {
            Some(matcher) => is_match(matcher, text),
            None => false,
        };
        assert(hit == slot_matches(slots_of(compiled@)[at as int], text@));
        if hit {
            return true;
        }
        at = at + 1;
    }
    false
}

} // verus!
