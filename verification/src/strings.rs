//! Lists of strings and their texts.
use vstd::prelude::*;

verus! {

/// `String::push` appends one character.
pub assume_specification[ String::push ](text: &mut String, ch: char)
    ensures
        final(text)@ == old(text)@.push(ch),
;

/// Equality of string slices compares their texts.
pub assume_specification[ <str as PartialEq>::eq ](left: &str, right: &str) -> (equal: bool)
    ensures
        equal == (left@ == right@),
;

/// Whether two string slices hold the same text.
pub fn same_text(left: &str, right: &str) -> (equal: bool)
    ensures
        equal == (left@ == right@),
{
    left.eq(right)
}

/// The texts of a list of strings.
pub open spec fn texts_of(strings: Seq<String>) -> Seq<Seq<char>> {
    strings.map_values(|s: String| s@)
}

/// The text of an optional string.
pub open spec fn text_of(string: Option<String>) -> Option<Seq<char>> {
    match string {
        Some(text) => Some(text@),
        None => None,
    }
}

/// The text of an optional string slice.
pub open spec fn slice_text(text: Option<&str>) -> Option<Seq<char>> {
    match text {
        Some(slice) => Some(slice@),
        None => None,
    }
}

/// One more string at the end is one more text at the end.
pub proof fn lemma_texts_push(strings: Seq<String>, last: String)
    ensures
        texts_of(strings.push(last)) == texts_of(strings).push(last@),
{
    assert(texts_of(strings.push(last)) =~= texts_of(strings).push(last@));
}

/// Appends a copy of every string of `from` to `to`.
pub fn append_strings(to: &mut Vec<String>, from: &Vec<String>)
    ensures
        texts_of(final(to)@) == texts_of(old(to)@) + texts_of(from@),
{
    let mut at: usize = 0;
    assert(texts_of(to@) =~= texts_of(old(to)@) + texts_of(from@).take(0));
    while at < from.len()
        invariant
            at <= from.len(),
            texts_of(to@) == texts_of(old(to)@) + texts_of(from@).take(at as int),
        decreases from.len() - at,
    {
        let copy = from[at].clone();
        proof {
            lemma_texts_push(to@, copy);
        }
        to.push(copy);
        at = at + 1;
        assert(texts_of(to@) =~= texts_of(old(to)@) + texts_of(from@).take(at as int));
    }
    assert(texts_of(from@).take(at as int) =~= texts_of(from@));
}

/// A list with a copy of every string of `from`.
pub fn copy_strings(from: &Vec<String>) -> (copy: Vec<String>)
    ensures
        texts_of(copy@) == texts_of(from@),
{
    let mut copy: Vec<String> = Vec::new();
    append_strings(&mut copy, from);
    assert(texts_of(copy@) =~= texts_of(from@));
    copy
}

/// A copy of an optional string.
pub fn copy_text(from: &Option<String>) -> (copy: Option<String>)
    ensures
        text_of(copy) == text_of(*from),
{
    match from {
        Some(text) => Some(text.clone()),
        None => None,
    }
}

} // verus!
