//! A settings document as the profiles read it: named sections, each a table
//! of keys with a flag, a text or a list of texts as value.
//!
//! The `toml` crate reads the bytes. What it finds is held here in plain
//! values, so that everything that is done with it can be verified.
use crate::strings::{same_text, text_of};
use toml::Value;
use vstd::prelude::*;

verus! {

/// The value of a key, as far as a profile can read it.
#[derive(Debug, Clone, PartialEq, Eq)]
pub enum Setting {
    /// A boolean.
    Flag(bool),
    /// A string.
    Text(String),
    /// An array; each item is its text where it is a string.
    List(Vec<Option<String>>),
    /// Anything else.
    Other,
}

/// A key of a table with its value.
#[derive(Debug, Clone, PartialEq, Eq)]
pub struct Entry {
    pub key: String,
    pub value: Setting,
}

/// A named value at the top of a document, with its entries where it is a
/// table.
#[derive(Debug, Clone, PartialEq, Eq)]
pub struct Section {
    pub name: String,
    pub table: Option<Vec<Entry>>,
}

/// The mathematical value of a [`Setting`].
pub enum SettingView {
    Flag(bool),
    Text(Seq<char>),
    List(Seq<Option<Seq<char>>>),
    Other,
}

/// The mathematical value of an [`Entry`].
pub struct EntryView {
    pub key: Seq<char>,
    pub value: SettingView,
}

/// The mathematical value of a [`Section`].
pub struct SectionView {
    pub name: Seq<char>,
    pub table: Option<Seq<EntryView>>,
}

/// The texts of the items of an array.
pub open spec fn items_of(items: Seq<Option<String>>) -> Seq<Option<Seq<char>>> {
    items.map_values(|item: Option<String>| text_of(item))
}

impl View for Setting {
    type V = SettingView;

    open spec fn view(&self) -> SettingView {
        match self {
            Setting::Flag(flag) => SettingView::Flag(*flag),
            Setting::Text(text) => SettingView::Text(text@),
            Setting::List(items) => SettingView::List(items_of(items@)),
            Setting::Other => SettingView::Other,
        }
    }
}

impl View for Entry {
    type V = EntryView;

    open spec fn view(&self) -> EntryView {
        EntryView { key: self.key@, value: self.value@ }
    }
}

/// The values of the entries of a table.
pub open spec fn entries_of(table: Seq<Entry>) -> Seq<EntryView> {
    table.map_values(|entry: Entry| entry@)
}

impl View for Section {
    type V = SectionView;

    open spec fn view(&self) -> SectionView {
        SectionView {
            name: self.name@,
            table: match self.table {
                Some(entries) => Some(entries_of(entries@)),
                None => None,
            },
        }
    }
}

/// The values of the sections of a document.
pub open spec fn sections_of(sections: Seq<Section>) -> Seq<SectionView> {
    sections.map_values(|section: Section| section@)
}

/// The deepest nesting that a document may reach by its brackets and
/// dotted keys.
pub const MAX_NESTING: usize = 256;

/// Whether `byte` opens an array, an inline table or a table header.
pub open spec fn is_opening(byte: u8) -> bool {
    byte == 0x5b || byte == 0x7b
}

/// Whether `byte` can stand in front of the `=` of a key that is written
/// without quotes: a letter, a digit, `_`, `-`, `.`, a blank or a tab.
pub open spec fn is_key_byte(byte: u8) -> bool {
    ||| 0x41 <= byte <= 0x5a
    ||| 0x61 <= byte <= 0x7a
    ||| 0x30 <= byte <= 0x39
    ||| byte == 0x5f
    ||| byte == 0x2d
    ||| byte == 0x2e
    ||| byte == 0x20
    ||| byte == 0x09
}

/// Whether `byte` is one of the two quotes.
pub open spec fn is_quote(byte: u8) -> bool {
    byte == 0x22 || byte == 0x27
}

/// What a walk over the bytes of a document knows at one place.
pub struct Scan {
    /// The brackets and braces opened since the last key that begins a
    /// line.
    pub depth: usize,
    /// The largest that `depth` has been.
    pub deepest: usize,
    /// The dots in the line so far.
    pub dots: usize,
    /// The largest that `dots` has been.
    pub longest: usize,
    /// Whether the line so far could be a key written without quotes.
    pub clean: bool,
    /// The last byte, where it was a quote.
    pub quote: u8,
    /// How many times in a row that quote has come, up to three.
    pub run: usize,
    /// Whether three quotes in a row have come, so that what follows may lie
    /// in a string of several lines.
    pub strings: bool,
}

/// The mathematical value of a [`Scan`].
pub struct ScanView {
    pub depth: nat,
    pub deepest: nat,
    pub dots: nat,
    pub longest: nat,
    pub clean: bool,
    pub quote: u8,
    pub run: nat,
    pub strings: bool,
}

impl View for Scan {
    type V = ScanView;

    open spec fn view(&self) -> ScanView {
        ScanView {
            depth: self.depth as nat,
            deepest: self.deepest as nat,
            dots: self.dots as nat,
            longest: self.longest as nat,
            clean: self.clean,
            quote: self.quote,
            run: self.run as nat,
            strings: self.strings,
        }
    }
}

/// What is known in front of a document.
pub open spec fn scan_start() -> ScanView {
    ScanView {
        depth: 0,
        deepest: 0,
        dots: 0,
        longest: 0,
        clean: true,
        quote: 0,
        run: 0,
        strings: false,
    }
}

/// What is known behind `byte`, from what was known in front of it.
///
/// An opening bracket or brace is one level more. An `=` with nothing but a
/// key without quotes in front of it on its line begins a value at the top
/// level, so the count starts again; not so once a string of several lines
/// may have begun, since the line may then lie within it. A line feed begins
/// a line, and three quotes in a row may begin a string of several lines.
pub open spec fn scan_step(before: ScanView, byte: u8) -> ScanView {
    let depth: nat = if is_opening(byte) {
        before.depth + 1
    } else if byte == 0x3d && before.clean && !before.strings {
        0
    } else {
        before.depth
    };
    let dots: nat = if byte == 0x0a {
        0
    } else if byte == 0x2e {
        before.dots + 1
    } else {
        before.dots
    };
    let run: nat = if !is_quote(byte) {
        0
    } else if before.quote == byte && before.run >= 2 {
        3
    } else if before.quote == byte {
        before.run + 1
    } else {
        1
    };
    ScanView {
        depth,
        deepest: if depth > before.deepest {
            depth
        } else {
            before.deepest
        },
        dots,
        longest: if dots > before.longest {
            dots
        } else {
            before.longest
        },
        clean: byte == 0x0a || (before.clean && is_key_byte(byte)),
        quote: byte,
        run,
        strings: before.strings || run >= 3,
    }
}

/// What is known behind the last of `bytes`.
pub open spec fn scan(bytes: Seq<u8>) -> ScanView
    decreases bytes.len(),
{
    if bytes.len() == 0 {
        scan_start()
    } else {
        scan_step(scan(bytes.drop_last()), bytes.last())
    }
}

/// A bound on how deeply the values of a document lie in one another.
///
/// A value lies one level deeper for each array or inline table around it,
/// each of which takes an opening bracket or brace behind the `=` of the
/// key that the value belongs to, and for each part of a dotted key or of a
/// table header on the way to it, which are written on one line with a dot
/// between two parts. Brackets and dots in strings and comments are counted
/// as well, so the bound may be larger than the depth, never smaller.
pub open spec fn nesting_bound(bytes: Seq<u8>) -> nat {
    scan(bytes).deepest + scan(bytes).longest
}

/// Whether the document in `bytes` is flat enough to be read.
pub open spec fn document_is_shallow(bytes: Seq<u8>) -> bool {
    nesting_bound(bytes) <= MAX_NESTING
}

/// A part of a document is no deeper than the whole.
pub proof fn lemma_nesting_bound_grows(bytes: Seq<u8>, upto: int)
    requires
        0 <= upto <= bytes.len(),
    ensures
        scan(bytes.take(upto)).deepest <= scan(bytes).deepest,
        scan(bytes.take(upto)).longest <= scan(bytes).longest,
        nesting_bound(bytes.take(upto)) <= nesting_bound(bytes),
    decreases bytes.len() - upto,
{
    if upto < bytes.len() {
        assert(bytes.take(upto + 1).drop_last() =~= bytes.take(upto));
        lemma_nesting_bound_grows(bytes, upto + 1);
    } else {
        assert(bytes.take(upto) =~= bytes);
    }
}

/// The counts of a walk never exceed the number of bytes walked over, the
/// current ones never the largest, and no more than three quotes are counted
/// in a row.
pub proof fn lemma_nesting_bound_counts(bytes: Seq<u8>)
    ensures
        scan(bytes).depth <= scan(bytes).deepest <= bytes.len(),
        scan(bytes).dots <= scan(bytes).longest <= bytes.len(),
        scan(bytes).run <= 3,
    decreases bytes.len(),
{
    if bytes.len() > 0 {
        lemma_nesting_bound_counts(bytes.drop_last());
    }
}

impl Scan {
    /// What is known behind `byte`.
    fn step(&self, byte: u8) -> (after: Scan)
        requires
            self.deepest + self.longest <= MAX_NESTING,
            self.depth <= self.deepest,
            self.dots <= self.longest,
            self.run <= 3,
        ensures
            after@ == scan_step(self@, byte),
    {
        let depth = if byte == 0x5b || byte == 0x7b {
            self.depth + 1
        } else if byte == 0x3d && self.clean && !self.strings {
            0
        } else {
            self.depth
        };
        let dots = if byte == 0x0a {
            0
        } else if byte == 0x2e {
            self.dots + 1
        } else {
            self.dots
        };
        let quote = byte == 0x22 || byte == 0x27;
        let run: usize = if !quote {
            0
        } else if self.quote == byte && self.run >= 2 {
            3
        } else if self.quote == byte {
            self.run + 1
        } else {
            1
        };
        let key_byte = (0x41 <= byte && byte <= 0x5a) || (0x61 <= byte && byte <= 0x7a) || (0x30
            <= byte && byte <= 0x39) || byte == 0x5f || byte == 0x2d || byte == 0x2e || byte
            == 0x20 || byte == 0x09;
        Scan {
            depth,
            deepest: if depth > self.deepest {
                depth
            } else {
                self.deepest
            },
            dots,
            longest: if dots > self.longest {
                dots
            } else {
                self.longest
            },
            clean: byte == 0x0a || (self.clean && key_byte),
            quote: byte,
            run,
            strings: self.strings || run >= 3,
        }
    }
}

/// Whether the document in `buffer` is flat enough to be read.
pub fn is_shallow(buffer: &[u8]) -> (shallow: bool)
    ensures
        shallow == document_is_shallow(buffer@),
{
    let mut known = Scan {
        depth: 0,
        deepest: 0,
        dots: 0,
        longest: 0,
        clean: true,
        quote: 0,
        run: 0,
        strings: false,
    };
    let mut at: usize = 0;
    assert(buffer@.take(0) =~= Seq::<u8>::empty());
    while at < buffer.len()
        invariant
            at <= buffer.len(),
            known@ == scan(buffer@.take(at as int)),
            known.deepest + known.longest <= MAX_NESTING,
        decreases buffer.len() - at,
    {
        proof {
            lemma_nesting_bound_counts(buffer@.take(at as int));
            assert(buffer@.take(at + 1).drop_last() =~= buffer@.take(at as int));
            assert(buffer@.take(at + 1).last() == buffer[at as int]);
        }
        known = known.step(buffer[at]);
        at = at + 1;
        if known.deepest > MAX_NESTING || known.longest > MAX_NESTING - known.deepest {
            proof {
                lemma_nesting_bound_grows(buffer@, at as int);
            }
            return false;
        }
    }
    assert(buffer@.take(at as int) =~= buffer@);
    true
}

/// What the `toml` crate reads from `buffer`: the top-level entries of the
/// document in the order of its map, or the message of its error.
pub uninterp spec fn toml_document(buffer: Seq<u8>) -> Result<Seq<SectionView>, Seq<char>>;

/// What a read gave, as values.
pub open spec fn read_view(read: Result<Vec<Section>, String>) -> Result<
    Seq<SectionView>,
    Seq<char>,
> {
    match read {
        Ok(sections) => Ok(sections_of(sections@)),
        Err(message) => Err(message@),
    }
}

/// Whether no two of `entries` have the same key.
pub open spec fn distinct_keys(entries: Seq<EntryView>) -> bool {
    forall|i: int, j: int|
        0 <= i < j < entries.len() ==> (#[trigger] entries[i]).key != (#[trigger] entries[j]).key
}

/// Whether no two of `sections` have the same name, and no table of theirs
/// has a key twice.
pub open spec fn distinct_names(sections: Seq<SectionView>) -> bool {
    &&& forall|i: int, j: int|
        0 <= i < j < sections.len() ==> (#[trigger] sections[i]).name != (
        #[trigger] sections[j]).name
    &&& forall|i: int|
        0 <= i < sections.len() ==> ((#[trigger] sections[i]).table matches Some(entries)
            ==> distinct_keys(entries))
}

/// Calls `toml::from_slice` for a table of `toml::Value` and hands out what
/// it holds: each top-level entry with its name, and for one that is a table
/// its keys with their values, a boolean, a string and the strings of an
/// array kept, anything else marked as such. An error is handed out as its
/// message. The contract gives the result the name [`toml_document`]; of
/// what a document holds it says only that a table has each key once, since
/// the crate keeps a table as a map.
///
/// The crate reads nested values, dotted keys and table headers by calling
/// itself once for each level and counts no depth, so a document that nests
/// without end makes it run out of stack. The document must be flat enough.
/// [`nesting_bound`] is an upper bound on the depth: the crate goes one
/// level down only at an opening bracket or brace and at a dot between two
/// parts of a key or header, which it takes from one line. Where a line has
/// nothing but letters, digits, `_`, `-`, dots, blanks and tabs in front of
/// an `=`, the crate is either at the top level behind that `=` or has
/// stopped with an error before it, since within an array it wants a comma
/// or a closing bracket behind a value; the only other place where a line
/// can begin is a string of several lines, which three quotes in a row
/// open. At the limit the call needs less than a mebibyte of stack.
#[verifier::external_body]
pub(crate) fn read_document(buffer: &[u8]) -> (read: Result<Vec<Section>, String>)
    requires
        document_is_shallow(buffer@),
    ensures
        read_view(read) == toml_document(buffer@),
        read matches Ok(sections) ==> distinct_names(sections_of(sections@)),
{
    let doc: toml::value::Table = toml::from_slice(buffer).map_err(|e| e.to_string())?;
    Ok(doc.into_iter().map(|(name, top)| Section {
        name,
        table: top.as_table().map(|t| t.iter().map(|(key, v)| Entry {
            key: key.clone(),
            value: match v {
                Value::Boolean(b) => Setting::Flag(*b),
                Value::String(s) => Setting::Text(s.clone()),
                Value::Array(a) => Setting::List(a.iter().map(|i| i.as_str().map(String::from)).collect()),
                _ => Setting::Other,
            },
        }).collect()),
    }).collect())
}

/// The message for a document that is not flat enough to be read.
pub open spec fn too_deep_message() -> Seq<char> {
    "the document nests too deeply"@
}

/// What is read from the document in `bytes`: what the `toml` crate finds
/// in it where it is flat enough, else an error.
pub open spec fn document_of(bytes: Seq<u8>) -> Result<Seq<SectionView>, Seq<char>> {
    if document_is_shallow(bytes) {
        toml_document(bytes)
    } else {
        Err(too_deep_message())
    }
}

/// Reads the document in `buffer`, unless it nests too deeply.
pub fn read_shallow_document(buffer: &[u8]) -> (read: Result<Vec<Section>, String>)
    ensures
        read_view(read) == document_of(buffer@),
        read matches Ok(sections) ==> distinct_names(sections_of(sections@)),
{
    if is_shallow(buffer) {
        read_document(buffer)
    } else {
        Err("the document nests too deeply".to_owned())
    }
}

/// The value of the first entry of `table` with the key `key`.
pub open spec fn lookup(table: Seq<EntryView>, key: Seq<char>) -> Option<SettingView>
    decreases table.len(),
{
    if table.len() == 0 {
        None
    } else if table[0].key == key {
        Some(table[0].value)
    } else {
        lookup(table.drop_first(), key)
    }
}

/// The entry of `table` with the key `key` that comes first.
pub fn find<'a>(table: &'a Vec<Entry>, key: &str) -> (found: Option<&'a Setting>)
    ensures
        match found {
            Some(value) => lookup(entries_of(table@), key@) == Some(value@),
            None => lookup(entries_of(table@), key@) is None,
        },
{
    let ghost entries = entries_of(table@);
    let mut at: usize = 0;
    assert(entries.skip(0) =~= entries);
    while at < table.len()
        invariant
            at <= table.len(),
            entries == entries_of(table@),
            lookup(entries, key@) == lookup(entries.skip(at as int), key@),
        decreases table.len() - at,
    {
        assert(entries.skip(at as int).drop_first() =~= entries.skip(at + 1));
        if same_text(table[at].key.as_str(), key) {
            return Some(&table[at].value);
        }
        at = at + 1;
    }
    None
}

} // verus!
