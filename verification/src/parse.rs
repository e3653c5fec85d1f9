//! From a settings document to profiles.
//!
//! Every section of a document is one profile. A key that a profile knows
//! must hold a value of the kind that belongs to it; a key that it does not
//! know is passed over. A setting that is absent keeps its initial value.
use crate::config::{ci_of, views_of, Config, ConfigError, ConfigView};
use crate::document::{
    distinct_names, document_of, entries_of, find, items_of, lookup, read_shallow_document,
    read_view, sections_of,
    Entry, EntryView, Section, SectionView, Setting, SettingView,
};
use crate::exclusion::{ExcludedFiles, ExcludedView};
use crate::strings::{lemma_texts_push, slice_text, text_of, texts_of};
use crate::types::{
    ci_named, output_file_named, run_type_named, timeout_of, CiName, CiService, OutputFile,
    RunType, Timeout,
};
use vstd::prelude::*;
use vstd::string::StringExecFns;

verus! {

/// Whether `key` is absent from `table` or holds a boolean.
pub open spec fn flag_fits(table: Seq<EntryView>, key: Seq<char>) -> bool {
    match lookup(table, key) {
        None => true,
        Some(SettingView::Flag(_)) => true,
        Some(_) => false,
    }
}

/// The boolean that `key` holds in `table`, or `initial`.
pub open spec fn flag_value(table: Seq<EntryView>, key: Seq<char>, initial: bool) -> bool {
    match lookup(table, key) {
        Some(SettingView::Flag(flag)) => flag,
        _ => initial,
    }
}

/// Whether `key` is absent from `table` or holds a string.
pub open spec fn text_fits(table: Seq<EntryView>, key: Seq<char>) -> bool {
    match lookup(table, key) {
        None => true,
        Some(SettingView::Text(_)) => true,
        Some(_) => false,
    }
}

/// The string that `key` holds in `table`, if any.
pub open spec fn text_value(table: Seq<EntryView>, key: Seq<char>) -> Option<Seq<char>> {
    match lookup(table, key) {
        Some(SettingView::Text(text)) => Some(text),
        _ => None,
    }
}

/// The string that `key` holds in `table`, or `initial`.
pub open spec fn text_or(table: Seq<EntryView>, key: Seq<char>, initial: Seq<char>) -> Seq<char> {
    match text_value(table, key) {
        Some(text) => text,
        None => initial,
    }
}

/// Whether every item of an array is a string.
pub open spec fn all_texts(items: Seq<Option<Seq<char>>>) -> bool {
    forall|i: int| 0 <= i < items.len() ==> (#[trigger] items[i]) is Some
}

/// The strings of an array of strings.
pub open spec fn item_texts(items: Seq<Option<Seq<char>>>) -> Seq<Seq<char>> {
    items.map_values(|item: Option<Seq<char>>| item->0)
}

/// Whether `key` is absent from `table` or holds an array of strings.
pub open spec fn list_fits(table: Seq<EntryView>, key: Seq<char>) -> bool {
    match lookup(table, key) {
        None => true,
        Some(SettingView::List(items)) => all_texts(items),
        Some(_) => false,
    }
}

/// The strings of the array that `key` holds in `table`, if it holds one.
pub open spec fn list_value(table: Seq<EntryView>, key: Seq<char>) -> Option<Seq<Seq<char>>> {
    match lookup(table, key) {
        Some(SettingView::List(items)) => Some(item_texts(items)),
        _ => None,
    }
}

/// The strings of the array that `key` holds in `table`; none where it holds
/// no array.
pub open spec fn list_or_empty(table: Seq<EntryView>, key: Seq<char>) -> Seq<Seq<char>> {
    match list_value(table, key) {
        Some(texts) => texts,
        None => Seq::empty(),
    }
}

/// Whether every one of `names` is the name of a run type.
pub open spec fn all_run_types(names: Seq<Seq<char>>) -> bool {
    forall|i: int| 0 <= i < names.len() ==> run_type_named(#[trigger] names[i]) is Some
}

/// The run types with the names `names`.
pub open spec fn run_types_named(names: Seq<Seq<char>>) -> Seq<RunType> {
    names.map_values(|name: Seq<char>| run_type_named(name)->0)
}

/// Whether every one of `names` is the name of a report format.
pub open spec fn all_output_files(names: Seq<Seq<char>>) -> bool {
    forall|i: int| 0 <= i < names.len() ==> output_file_named(#[trigger] names[i]) is Some
}

/// The report formats with the names `names`.
pub open spec fn output_files_named(names: Seq<Seq<char>>) -> Seq<OutputFile> {
    names.map_values(|name: Seq<char>| output_file_named(name)->0)
}

/// Whether the run types of `table` can be read: the key is absent or holds
/// an array of names of run types.
pub open spec fn run_types_fit(table: Seq<EntryView>) -> bool {
    &&& list_fits(table, "run-types"@)
    &&& list_value(table, "run-types"@) matches Some(names) ==> all_run_types(names)
}

/// The run types of `table`; tests alone where it names none.
pub open spec fn run_types_value(table: Seq<EntryView>) -> Seq<RunType> {
    match list_value(table, "run-types"@) {
        Some(names) => run_types_named(names),
        None => seq![RunType::Tests],
    }
}

/// Whether the report formats of `table` can be read.
pub open spec fn outputs_fit(table: Seq<EntryView>) -> bool {
    &&& list_fits(table, "out"@)
    &&& list_value(table, "out"@) matches Some(names) ==> all_output_files(names)
}

/// The report formats of `table`.
pub open spec fn outputs_value(table: Seq<EntryView>) -> Seq<OutputFile> {
    match list_value(table, "out"@) {
        Some(names) => output_files_named(names),
        None => Seq::empty(),
    }
}

/// Whether the timeout of `table` can be read: the key is absent or holds a
/// string that stands for a length of time and is short enough in digits.
pub open spec fn timeout_fits(table: Seq<EntryView>) -> bool {
    &&& text_fits(table, "timeout"@)
    &&& text_value(table, "timeout"@) matches Some(text) ==> timeout_of(text) is Some
}

/// The timeout of `table`; a minute where it names none.
pub open spec fn timeout_value(table: Seq<EntryView>) -> Timeout {
    match text_value(table, "timeout"@) {
        Some(text) => timeout_of(text)->0,
        None => Timeout { secs: 60, nanos: 0 },
    }
}

/// The service of `table`, if it names one.
pub open spec fn ci_value(table: Seq<EntryView>) -> Option<CiName> {
    match text_value(table, "ciserver"@) {
        Some(name) => Some(ci_named(name)),
        None => None,
    }
}

/// Whether the setting for the whole workspace can be read. It goes by two
/// keys, of which a table may hold one.
pub open spec fn workspace_fits(table: Seq<EntryView>) -> bool {
    &&& flag_fits(table, "all"@)
    &&& flag_fits(table, "workspace"@)
    &&& !(lookup(table, "all"@) is Some && lookup(table, "workspace"@) is Some)
}

/// The setting for the whole workspace.
pub open spec fn workspace_value(table: Seq<EntryView>) -> bool {
    flag_value(table, "all"@, false) || flag_value(table, "workspace"@, false)
}

/// Whether the booleans of `table` can be read.
pub open spec fn flags_fit(table: Seq<EntryView>) -> bool {
    &&& flag_fits(table, "ignored"@)
    &&& flag_fits(table, "ignore-tests"@)
    &&& flag_fits(table, "ignore-panics"@)
    &&& flag_fits(table, "force-clean"@)
    &&& flag_fits(table, "verbose"@)
    &&& flag_fits(table, "debug"@)
    &&& flag_fits(table, "count"@)
    &&& flag_fits(table, "line"@)
    &&& flag_fits(table, "branch"@)
    &&& flag_fits(table, "forward"@)
    &&& flag_fits(table, "all-features"@)
    &&& flag_fits(table, "no-default-features"@)
    &&& flag_fits(table, "release"@)
    &&& flag_fits(table, "no-run"@)
    &&& flag_fits(table, "locked"@)
    &&& flag_fits(table, "frozen"@)
    &&& flag_fits(table, "offline"@)
    &&& workspace_fits(table)
}

/// Whether the strings of `table` can be read.
pub open spec fn texts_fit(table: Seq<EntryView>) -> bool {
    &&& text_fits(table, "name"@)
    &&& text_fits(table, "manifest-path"@)
    &&& text_fits(table, "config"@)
    &&& text_fits(table, "root"@)
    &&& text_fits(table, "output-dir"@)
    &&& text_fits(table, "coveralls"@)
    &&& text_fits(table, "ciserver"@)
    &&& text_fits(table, "report-uri"@)
    &&& text_fits(table, "target-dir"@)
    &&& timeout_fits(table)
}

/// Whether the arrays of `table` can be read.
pub open spec fn lists_fit(table: Seq<EntryView>) -> bool {
    &&& run_types_fit(table)
    &&& outputs_fit(table)
    &&& list_fits(table, "packages"@)
    &&& list_fits(table, "exclude"@)
    &&& list_fits(table, "exclude-files"@)
    &&& list_fits(table, "args"@)
    &&& list_fits(table, "features"@)
    &&& list_fits(table, "Z"@)
}

/// Whether `table` can be read as a profile: each key that a profile knows
/// holds a value of its kind.
pub open spec fn profile_fits(table: Seq<EntryView>) -> bool {
    flags_fit(table) && texts_fit(table) && lists_fit(table)
}

/// The profile with the name `name` that `table` describes.
pub open spec fn profile_of(name: Seq<char>, table: Seq<EntryView>) -> ConfigView {
    ConfigView {
        name,
        manifest: text_or(table, "manifest-path"@, "./Cargo.toml"@),
        config: text_value(table, "config"@),
        root: text_value(table, "root"@),
        run_ignored: flag_value(table, "ignored"@, false),
        ignore_tests: flag_value(table, "ignore-tests"@, false),
        ignore_panics: flag_value(table, "ignore-panics"@, false),
        force_clean: flag_value(table, "force-clean"@, false),
        verbose: flag_value(table, "verbose"@, false),
        debug: flag_value(table, "debug"@, false),
        count: flag_value(table, "count"@, false),
        line_coverage: flag_value(table, "line"@, true),
        branch_coverage: flag_value(table, "branch"@, false),
        output_directory: text_or(table, "output-dir"@, Seq::empty()),
        coveralls: text_value(table, "coveralls"@),
        ci_tool: ci_value(table),
        report_uri: text_value(table, "report-uri"@),
        forward_signals: flag_value(table, "forward"@, false),
        all_features: flag_value(table, "all-features"@, false),
        no_default_features: flag_value(table, "no-default-features"@, false),
        all: workspace_value(table),
        test_timeout: timeout_value(table),
        release: flag_value(table, "release"@, false),
        no_run: flag_value(table, "no-run"@, false),
        locked: flag_value(table, "locked"@, false),
        frozen: flag_value(table, "frozen"@, false),
        target_dir: text_value(table, "target-dir"@),
        offline: flag_value(table, "offline"@, false),
        run_types: run_types_value(table),
        packages: list_or_empty(table, "packages"@),
        exclude: list_or_empty(table, "exclude"@),
        excluded_files: ExcludedView {
            raw: list_or_empty(table, "exclude-files"@),
            cache: Seq::empty(),
        },
        varargs: list_or_empty(table, "args"@),
        features: list_or_empty(table, "features"@),
        unstable_features: list_or_empty(table, "Z"@),
        generate: outputs_value(table),
    }
}

/// Reads the boolean at `key`. `ok` turns false where the key holds
/// something else.
fn read_flag(table: &Vec<Entry>, key: &str, initial: bool, ok: &mut bool) -> (value: bool)
    ensures
        *final(ok) == (*old(ok) && flag_fits(entries_of(table@), key@)),
        value == flag_value(entries_of(table@), key@, initial),
{
    match find(table, key) {
        None => initial,
        Some(Setting::Flag(flag)) => *flag,
        Some(_) => {
            *ok = false;
            initial
        },
    }
}

/// Reads the string at `key`. `ok` turns false where the key holds
/// something else.
fn read_text(table: &Vec<Entry>, key: &str, ok: &mut bool) -> (value: Option<String>)
    ensures
        *final(ok) == (*old(ok) && text_fits(entries_of(table@), key@)),
        text_of(value) == text_value(entries_of(table@), key@),
{
    match find(table, key) {
        None => None,
        Some(Setting::Text(text)) => Some(text.clone()),
        Some(_) => {
            *ok = false;
            None
        },
    }
}

/// The strings of `items`, where every item is one.
fn texts_from_items(items: &Vec<Option<String>>) -> (texts: Option<Vec<String>>)
    ensures
        texts is Some == all_texts(items_of(items@)),
        texts matches Some(list) ==> texts_of(list@) == item_texts(
            items_of(items@),
        ),
{
    let ghost all = items_of(items@);
    let mut texts: Vec<String> = Vec::new();
    let mut at: usize = 0;
    assert(texts_of(texts@) =~= item_texts(all).take(0));
    while at < items.len()
        invariant
            at <= items.len(),
            all == items_of(items@),
            forall|i: int| 0 <= i < at ==> (#[trigger] all[i]) is Some,
            texts_of(texts@) == item_texts(all).take(at as int),
        decreases items.len() - at,
    {
        match &items[at] {
            Some(text) => {
                let copy = text.clone();
                proof {
                    lemma_texts_push(texts@, copy);
                }
                texts.push(copy);
            },
            None => {
                assert(all[at as int] is None);
                return None;
            },
        }
        at = at + 1;
        assert(texts_of(texts@) =~= item_texts(all).take(at as int));
    }
    assert(item_texts(all).take(at as int) =~= item_texts(all));
    Some(texts)
}

/// Reads the array of strings at `key`. `ok` turns false where the key
/// holds something else.
fn read_list(table: &Vec<Entry>, key: &str, ok: &mut bool) -> (value: Option<Vec<String>>)
    ensures
        *final(ok) == (*old(ok) && list_fits(entries_of(table@), key@)),
        *final(ok) ==> match value {
            Some(list) => list_value(entries_of(table@), key@) == Some(texts_of(list@)),
            None => list_value(entries_of(table@), key@) is None,
        },
{
    match find(table, key) {
        None => None,
        Some(Setting::List(items)) => {
            let texts = texts_from_items(items);
            if texts.is_none() {
                *ok = false;
            }
            texts
        },
        Some(_) => {
            *ok = false;
            None
        },
    }
}

/// Reads the array of strings at `key`, empty where the key is absent.
fn read_strings(table: &Vec<Entry>, key: &str, ok: &mut bool) -> (value: Vec<String>)
    ensures
        *final(ok) == (*old(ok) && list_fits(entries_of(table@), key@)),
        *final(ok) ==> texts_of(value@) == list_or_empty(entries_of(table@), key@),
{
    match read_list(table, key, ok) {
        Some(list) => list,
        None => {
            let empty: Vec<String> = Vec::new();
            assert(texts_of(empty@) =~= Seq::<Seq<char>>::empty());
            empty
        },
    }
}

/// The run types with the names `names`, where each is the name of one.
pub fn run_types_from_names(names: &Vec<String>) -> (kinds: Option<Vec<RunType>>)
    ensures
        kinds is Some == all_run_types(texts_of(names@)),
        kinds matches Some(list) ==> list@ == run_types_named(texts_of(names@)),
{
    let ghost all = texts_of(names@);
    let mut kinds: Vec<RunType> = Vec::new();
    let mut at: usize = 0;
    while at < names.len()
        invariant
            at <= names.len(),
            all == texts_of(names@),
            forall|i: int| 0 <= i < at ==> run_type_named(#[trigger] all[i]) is Some,
            kinds@ == run_types_named(all).take(at as int),
        decreases names.len() - at,
    {
        match RunType::from_name(names[at].as_str()) {
            Some(kind) => {
                kinds.push(kind);
            },
            None => {
                assert(run_type_named(all[at as int]) is None);
                return None;
            },
        }
        at = at + 1;
        assert(kinds@ =~= run_types_named(all).take(at as int));
    }
    assert(run_types_named(all).take(at as int) =~= run_types_named(all));
    Some(kinds)
}

/// The report formats with the names `names`, where each is the name of
/// one.
pub fn output_files_from_names(names: &Vec<String>) -> (formats: Option<Vec<OutputFile>>)
    ensures
        formats is Some == all_output_files(texts_of(names@)),
        formats matches Some(list) ==> list@ == output_files_named(texts_of(names@)),
{
    let ghost all = texts_of(names@);
    let mut formats: Vec<OutputFile> = Vec::new();
    let mut at: usize = 0;
    while at < names.len()
        invariant
            at <= names.len(),
            all == texts_of(names@),
            forall|i: int| 0 <= i < at ==> output_file_named(#[trigger] all[i]) is Some,
            formats@ == output_files_named(all).take(at as int),
        decreases names.len() - at,
    {
        match OutputFile::from_name(names[at].as_str()) {
            Some(format) => {
                formats.push(format);
            },
            None => {
                assert(output_file_named(all[at as int]) is None);
                return None;
            },
        }
        at = at + 1;
        assert(formats@ =~= output_files_named(all).take(at as int));
    }
    assert(output_files_named(all).take(at as int) =~= output_files_named(all));
    Some(formats)
}

/// Reads the run types of `table`.
fn read_run_types(table: &Vec<Entry>, ok: &mut bool) -> (value: Vec<RunType>)
    ensures
        *final(ok) == (*old(ok) && run_types_fit(entries_of(table@))),
        *final(ok) ==> value@ == run_types_value(entries_of(table@)),
{
    let mut fits = true;
    let names = read_list(table, "run-types", &mut fits);
    let kinds = match names {
        Some(list) => run_types_from_names(&list),
        None => {
            let mut tests: Vec<RunType> = Vec::new();
            tests.push(RunType::Tests);
            assert(tests@ =~= seq![RunType::Tests]);
            Some(tests)
        },
    };
    match kinds {
        Some(list) => {
            if !fits {
                *ok = false;
            }
            list
        },
        None => {
            *ok = false;
            Vec::new()
        },
    }
}

/// Reads the report formats of `table`.
fn read_outputs(table: &Vec<Entry>, ok: &mut bool) -> (value: Vec<OutputFile>)
    ensures
        *final(ok) == (*old(ok) && outputs_fit(entries_of(table@))),
        *final(ok) ==> value@ == outputs_value(entries_of(table@)),
{
    let mut fits = true;
    let names = read_list(table, "out", &mut fits);
    let formats = match names {
        Some(list) => output_files_from_names(&list),
        None => Some(Vec::new()),
    };
    match formats {
        Some(list) => {
            if !fits {
                *ok = false;
            }
            list
        },
        None => {
            *ok = false;
            Vec::new()
        },
    }
}

/// Reads the timeout of `table`.
fn read_timeout(table: &Vec<Entry>, ok: &mut bool) -> (value: Timeout)
    ensures
        *final(ok) == (*old(ok) && timeout_fits(entries_of(table@))),
        *final(ok) ==> value == timeout_value(entries_of(table@)),
{
    let mut fits = true;
    let initial = Timeout { secs: 60, nanos: 0 };
    let value = match read_text(table, "timeout", &mut fits) {
        Some(text) => match Timeout::from_text(text.as_str()) {
            Some(timeout) => timeout,
            None => {
                fits = false;
                initial
            },
        },
        None => initial,
    };
    if !fits {
        *ok = false;
    }
    value
}

/// Reads the service of `table`.
fn read_ci(table: &Vec<Entry>, ok: &mut bool) -> (value: Option<CiService>)
    ensures
        *final(ok) == (*old(ok) && text_fits(entries_of(table@), "ciserver"@)),
        ci_of(value) == ci_value(entries_of(table@)),
{
    match read_text(table, "ciserver", ok) {
        Some(name) => Some(CiService::from_name(name.as_str())),
        None => None,
    }
}

/// Reads the setting for the whole workspace of `table`.
fn read_workspace(table: &Vec<Entry>, ok: &mut bool) -> (value: bool)
    ensures
        *final(ok) == (*old(ok) && workspace_fits(entries_of(table@))),
        value == workspace_value(entries_of(table@)),
{
    let all = read_flag(table, "all", false, ok);
    let workspace = read_flag(table, "workspace", false, ok);
    if find(table, "all").is_some() && find(table, "workspace").is_some() {
        *ok = false;
    }
    all || workspace
}

/// The string `value`, or a copy of `initial` where there is none.
fn text_or_initial(value: Option<String>, initial: &str) -> (text: String)
    ensures
        text@ == (match text_of(value) {
            Some(given) => given,
            None => initial@,
        }),
{
    match value {
        Some(given) => given,
        None => initial.to_owned(),
    }
}

/// The profile with the name `name` that `table` describes, where the table
/// can be read as one.
pub fn profile_from_table(name: &str, table: &Vec<Entry>) -> (profile: Option<Config>)
    ensures
        profile is Some == profile_fits(entries_of(table@)),
        profile matches Some(config) ==> config@ == profile_of(name@, entries_of(table@)),
{
    let mut flags = true;
    let run_ignored = read_flag(table, "ignored", false, &mut flags);
    let ignore_tests = read_flag(table, "ignore-tests", false, &mut flags);
    let ignore_panics = read_flag(table, "ignore-panics", false, &mut flags);
    let force_clean = read_flag(table, "force-clean", false, &mut flags);
    let verbose = read_flag(table, "verbose", false, &mut flags);
    let debug = read_flag(table, "debug", false, &mut flags);
    let count = read_flag(table, "count", false, &mut flags);
    let line_coverage = read_flag(table, "line", true, &mut flags);
    let branch_coverage = read_flag(table, "branch", false, &mut flags);
    let forward_signals = read_flag(table, "forward", false, &mut flags);
    let all_features = read_flag(table, "all-features", false, &mut flags);
    let no_default_features = read_flag(table, "no-default-features", false, &mut flags);
    let release = read_flag(table, "release", false, &mut flags);
    let no_run = read_flag(table, "no-run", false, &mut flags);
    let locked = read_flag(table, "locked", false, &mut flags);
    let frozen = read_flag(table, "frozen", false, &mut flags);
    let offline = read_flag(table, "offline", false, &mut flags);
    let all = read_workspace(table, &mut flags);
    assert(flags == flags_fit(entries_of(table@)));

    let mut texts = true;
    let _ = read_text(table, "name", &mut texts);
    let manifest = text_or_initial(read_text(table, "manifest-path", &mut texts), "./Cargo.toml");
    let config = read_text(table, "config", &mut texts);
    let root = read_text(table, "root", &mut texts);
    let output_directory = text_or_initial(read_text(table, "output-dir", &mut texts), "");
    let coveralls = read_text(table, "coveralls", &mut texts);
    let ci_tool = read_ci(table, &mut texts);
    let report_uri = read_text(table, "report-uri", &mut texts);
    let target_dir = read_text(table, "target-dir", &mut texts);
    let test_timeout = read_timeout(table, &mut texts);
    assert(texts == texts_fit(entries_of(table@)));

    let mut lists = true;
    let run_types = read_run_types(table, &mut lists);
    let generate = read_outputs(table, &mut lists);
    let packages = read_strings(table, "packages", &mut lists);
    let exclude = read_strings(table, "exclude", &mut lists);
    let excluded = read_strings(table, "exclude-files", &mut lists);
    let varargs = read_strings(table, "args", &mut lists);
    let features = read_strings(table, "features", &mut lists);
    let unstable_features = read_strings(table, "Z", &mut lists);
    assert(lists == lists_fit(entries_of(table@)));

    if !(flags && texts && lists) {
        return None;
    }
    proof {
        reveal_strlit("");
        assert(""@ =~= Seq::<char>::empty());
    }
    let excluded_files = ExcludedFiles::new(excluded);
    assert(excluded_files@.cache =~= Seq::<Option<Seq<char>>>::empty());
    Some(
        Config {
            name: name.to_owned(),
            manifest,
            config,
            root,
            run_ignored,
            ignore_tests,
            ignore_panics,
            force_clean,
            verbose,
            debug,
            count,
            line_coverage,
            branch_coverage,
            output_directory,
            coveralls,
            ci_tool,
            report_uri,
            forward_signals,
            all_features,
            no_default_features,
            all,
            test_timeout,
            release,
            no_run,
            locked,
            frozen,
            target_dir,
            offline,
            run_types,
            packages,
            exclude,
            excluded_files,
            varargs,
            features,
            unstable_features,
            generate,
        },
    )
}

/// The profile that `section` describes, where it is a table that can be
/// read as one.
pub open spec fn section_profile(section: SectionView) -> Option<ConfigView> {
    match section.table {
        Some(table) => if profile_fits(table) {
            Some(profile_of(section.name, table))
        } else {
            None
        },
        None => None,
    }
}

/// The profiles of `sections`, in order, or the name of the first section
/// that cannot be read as a profile.
pub open spec fn profiles_of(sections: Seq<SectionView>) -> Result<Seq<ConfigView>, Seq<char>>
    decreases sections.len(),
{
    if sections.len() == 0 {
        Ok(Seq::empty())
    } else {
        match profiles_of(sections.drop_last()) {
            Err(name) => Err(name),
            Ok(profiles) => match section_profile(sections.last()) {
                Some(profile) => Ok(profiles.push(profile)),
                None => Err(sections.last().name),
            },
        }
    }
}

/// Where every section of a document is a profile there is one profile for
/// each section, in the order of the sections, and each has the name of its
/// section, whatever its table says.
pub proof fn lemma_one_profile_per_section(sections: Seq<SectionView>)
    requires
        profiles_of(sections) is Ok,
    ensures
        profiles_of(sections)->Ok_0.len() == sections.len(),
        forall|i: int|
            0 <= i < sections.len() ==> section_profile(#[trigger] sections[i]) == Some(
                profiles_of(sections)->Ok_0[i],
            ),
        forall|i: int|
            0 <= i < sections.len() ==> (#[trigger] profiles_of(sections)->Ok_0[i]).name
                == sections[i].name,
    decreases sections.len(),
{
    if sections.len() > 0 {
        lemma_one_profile_per_section(sections.drop_last());
        let before = profiles_of(sections.drop_last())->Ok_0;
        let all = profiles_of(sections)->Ok_0;
        assert(all == before.push(section_profile(sections.last())->0));
        assert forall|i: int| 0 <= i < sections.len() implies section_profile(
            #[trigger] sections[i],
        ) == Some(all[i]) by {
            if i < sections.len() - 1 {
                assert(sections.drop_last()[i] == sections[i]);
            }
        }
    }
}

/// Whether no two of `profiles` have the same name.
pub open spec fn distinct_profiles(profiles: Seq<ConfigView>) -> bool {
    forall|i: int, j: int|
        0 <= i < j < profiles.len() ==> (#[trigger] profiles[i]).name != (
        #[trigger] profiles[j]).name
}

/// The profiles of sections with different names have different names.
pub proof fn lemma_distinct_names_carry_over(sections: Seq<SectionView>)
    requires
        distinct_names(sections),
        profiles_of(sections) is Ok,
    ensures
        distinct_profiles(profiles_of(sections)->Ok_0),
{
    lemma_one_profile_per_section(sections);
    let profiles = profiles_of(sections)->Ok_0;
    assert forall|i: int, j: int| 0 <= i < j < profiles.len() implies (#[trigger] profiles[i]).name
        != (#[trigger] profiles[j]).name by {
        assert(profiles[i].name == sections[i].name);
        assert(profiles[j].name == sections[j].name);
    }
}

/// Marking profiles with their file leaves their names as they are.
pub proof fn lemma_stamped_keeps_names(profiles: Seq<ConfigView>, file: Seq<char>)
    requires
        distinct_profiles(profiles),
    ensures
        distinct_profiles(stamped(profiles, file)),
        stamped(profiles, file).len() == profiles.len(),
{
    let marked = stamped(profiles, file);
    assert forall|i: int, j: int| 0 <= i < j < marked.len() implies (#[trigger] marked[i]).name != (
    #[trigger] marked[j]).name by {
        assert(marked[i].name == profiles[i].name);
        assert(marked[j].name == profiles[j].name);
    }
}

/// Why a document gave no profiles, as a value.
pub enum ParseFailure {
    /// The document is not well formed or a section is no profile; with the
    /// reason.
    Malformed(Seq<char>),
    /// The document has no section.
    Empty,
}

/// The reason given for a section with the name `name` that cannot be read
/// as a profile.
pub open spec fn misfit_message(name: Seq<char>) -> Seq<char> {
    "invalid settings in profile "@ + name
}

/// The profiles of a document that was read, or why it has none.
///
/// A document that the reader rejects has none, with the reader's message
/// as the reason. Nor has one of which some section is no profile, nor one
/// without sections.
pub open spec fn parsed_profiles(read: Result<Seq<SectionView>, Seq<char>>) -> Result<
    Seq<ConfigView>,
    ParseFailure,
> {
    match read {
        Err(message) => Err(ParseFailure::Malformed(message)),
        Ok(sections) => match profiles_of(sections) {
            Err(name) => Err(ParseFailure::Malformed(misfit_message(name))),
            Ok(profiles) => if profiles.len() == 0 {
                Err(ParseFailure::Empty)
            } else {
                Ok(profiles)
            },
        },
    }
}

/// The failure that `error` stands for, if it comes from a document.
pub open spec fn failure_of(error: ConfigError) -> Option<ParseFailure> {
    match error {
        ConfigError::Io(_) => None,
        ConfigError::MalformedDocument(message) => Some(ParseFailure::Malformed(message@)),
        ConfigError::EmptyDocument => Some(ParseFailure::Empty),
    }
}

/// What parsing gave, as values.
pub open spec fn parse_view(parsed: Result<Vec<Config>, ConfigError>) -> Result<
    Seq<ConfigView>,
    Option<ParseFailure>,
> {
    match parsed {
        Ok(configs) => Ok(views_of(configs@)),
        Err(error) => Err(failure_of(error)),
    }
}

/// What parsing is to give for a document that was read.
pub open spec fn expected_parse(read: Result<Seq<SectionView>, Seq<char>>) -> Result<
    Seq<ConfigView>,
    Option<ParseFailure>,
> {
    match parsed_profiles(read) {
        Ok(profiles) => Ok(profiles),
        Err(failure) => Err(Some(failure)),
    }
}

/// The profiles `profiles`, each marked as read from `file` where one is
/// given.
pub open spec fn marked(profiles: Seq<ConfigView>, file: Option<Seq<char>>) -> Seq<ConfigView> {
    match file {
        Some(path) => stamped(profiles, path),
        None => profiles,
    }
}

/// The profiles of `sections`, each marked as read from `file` where one is
/// given, or the name of the first section that is no profile.
fn collect_profiles(sections: &Vec<Section>, file: Option<&str>) -> (collected: Result<
    Vec<Config>,
    String,
>)
    ensures
        match collected {
            Ok(configs) => profiles_of(sections_of(sections@)) matches Ok(profiles) && views_of(
                configs@,
            ) == marked(profiles, slice_text(file)),
            Err(name) => profiles_of(sections_of(sections@)) == Err::<
                Seq<ConfigView>,
                Seq<char>,
            >(name@),
        },
{
    let ghost all = sections_of(sections@);
    let ghost mut plain: Seq<ConfigView> = Seq::empty();
    let mut result: Vec<Config> = Vec::new();
    let mut at: usize = 0;
    assert(all.take(0) =~= Seq::<SectionView>::empty());
    assert(views_of(result@) =~= marked(plain, slice_text(file)));
    while at < sections.len()
        invariant
            at <= sections.len(),
            all == sections_of(sections@),
            profiles_of(all.take(at as int)) == Ok::<Seq<ConfigView>, Seq<char>>(plain),
            views_of(result@) == marked(plain, slice_text(file)),
        decreases sections.len() - at,
    {
        let section = &sections[at];
        let ghost prefix = all.take(at + 1);
        assert(prefix.drop_last() =~= all.take(at as int));
        assert(prefix.last() == section@);
        let profile = match &section.table {
            Some(table) => profile_from_table(section.name.as_str(), table),
            None => None,
        };
        match profile {
            Some(config) => {
                let ghost before = result@;
                let ghost read = config@;
                let config = match file {
                    Some(path) => config.with_config_file(path),
                    None => config,
                };
                result.push(config);
                proof {
                    assert(views_of(result@) =~= views_of(before).push(config@));
                    assert(marked(plain.push(read), slice_text(file)) =~= marked(
                        plain,
                        slice_text(file),
                    ).push(config@));
                    plain = plain.push(read);
                }
            },
            None => {
                assert(profiles_of(prefix) == Err::<Seq<ConfigView>, Seq<char>>(section@.name));
                proof {
                    lemma_first_misfit_stays(all, at + 1);
                }
                return Err(section.name.clone());
            },
        }
        at = at + 1;
    }
    assert(all.take(at as int) =~= all);
    Ok(result)
}

/// The error for a section with the name `name` that is no profile.
fn misfit(name: String) -> (error: ConfigError)
    ensures
        error matches ConfigError::MalformedDocument(message) && message@ == misfit_message(
            name@,
        ),
{
    let mut message = "invalid settings in profile ".to_owned();
    message.append(name.as_str());
    ConfigError::MalformedDocument(message)
}

/// The profiles of a document that was read.
///
/// Each section becomes one profile, named after the section, whatever name
/// its table may hold. The first section that is no profile makes the whole
/// document invalid, and so does the lack of any section.
pub fn profiles_from_document(read: Result<Vec<Section>, String>) -> (parsed: Result<
    Vec<Config>,
    ConfigError,
>)
    ensures
        parse_view(parsed) == expected_parse(read_view(read)),
{
    match read {
        Err(message) => Err(ConfigError::MalformedDocument(message)),
        Ok(sections) => match collect_profiles(&sections, None) {
            Err(name) => Err(misfit(name)),
            Ok(configs) => if configs.len() == 0 {
                Err(ConfigError::EmptyDocument)
            } else {
                Ok(configs)
            },
        },
    }
}

/// The profiles of the settings file `file`, from the document that was read
/// from it. They are those of [`profiles_from_document`], each marked with
/// the file.
pub fn profiles_from_file(file: &str, read: Result<Vec<Section>, String>) -> (parsed: Result<
    Vec<Config>,
    ConfigError,
>)
    ensures
        parse_view(parsed) == (match expected_parse(read_view(read)) {
            Ok(profiles) => Ok(stamped(profiles, file@)),
            Err(failure) => Err(failure),
        }),
{
    match read {
        Err(message) => Err(ConfigError::MalformedDocument(message)),
        Ok(sections) => match collect_profiles(&sections, Some(file)) {
            Err(name) => Err(misfit(name)),
            Ok(configs) => {
                proof {
                    let profiles = profiles_of(sections_of(sections@))->Ok_0;
                    assert(views_of(configs@).len() == configs.len());
                    assert(stamped(profiles, file@).len() == profiles.len());
                }
                if configs.len() == 0 {
                    Err(ConfigError::EmptyDocument)
                } else {
                    Ok(configs)
                }
            },
        },
    }
}

/// A section that cannot be read in a part of a document cannot be read in
/// the whole of it, and it is the same section.
pub proof fn lemma_first_misfit_stays(sections: Seq<SectionView>, upto: int)
    requires
        0 <= upto <= sections.len(),
        profiles_of(sections.take(upto)) is Err,
    ensures
        profiles_of(sections) == profiles_of(sections.take(upto)),
    decreases sections.len() - upto,
{
    if upto < sections.len() {
        assert(sections.take(upto + 1).drop_last() =~= sections.take(upto));
        lemma_first_misfit_stays(sections, upto + 1);
    } else {
        assert(sections.take(upto) =~= sections);
    }
}

/// Each of `profiles` with `file` as the file that it was read from.
pub open spec fn stamped(profiles: Seq<ConfigView>, file: Seq<char>) -> Seq<ConfigView> {
    profiles.map_values(|profile: ConfigView| profile.from_file(file))
}

/// What loading the file `file` is to give, from what reading it gave: the
/// bytes of the file or the reason why there are none.
pub open spec fn expected_load(file: Seq<char>, contents: Result<Seq<u8>, Seq<char>>) -> Result<
    Seq<ConfigView>,
    LoadFailure,
> {
    match contents {
        Err(reason) => Err(LoadFailure::Io(reason)),
        Ok(bytes) => match parsed_profiles(document_of(bytes)) {
            Ok(profiles) => Ok(stamped(profiles, file)),
            Err(failure) => Err(LoadFailure::Parse(failure)),
        },
    }
}

/// Why a file gave no profiles, as a value.
pub enum LoadFailure {
    /// The file could not be read; with the reason.
    Io(Seq<char>),
    /// The file was read and holds no profiles.
    Parse(ParseFailure),
}

/// What loading gave, as values.
pub open spec fn load_view(loaded: Result<Vec<Config>, ConfigError>) -> Result<
    Seq<ConfigView>,
    LoadFailure,
> {
    match loaded {
        Ok(configs) => Ok(views_of(configs@)),
        Err(ConfigError::Io(reason)) => Err(LoadFailure::Io(reason@)),
        Err(ConfigError::MalformedDocument(message)) => Err(
            LoadFailure::Parse(ParseFailure::Malformed(message@)),
        ),
        Err(ConfigError::EmptyDocument) => Err(LoadFailure::Parse(ParseFailure::Empty)),
    }
}

/// What reading a file gave, as values.
pub open spec fn contents_view(contents: Result<Vec<u8>, String>) -> Result<Seq<u8>, Seq<char>> {
    match contents {
        Ok(bytes) => Ok(bytes@),
        Err(reason) => Err(reason@),
    }
}

impl Config {
    /// The profiles of the settings file `file`, from what reading it gave:
    /// its bytes, or the reason why it could not be read. Each profile is
    /// marked with the file.
    pub fn load_config_file(file: &str, contents: Result<Vec<u8>, String>) -> (loaded: Result<
        Vec<Config>,
        ConfigError,
    >)
        ensures
            load_view(loaded) == expected_load(file@, contents_view(contents)),
            loaded matches Ok(configs) ==> distinct_profiles(views_of(configs@)),
    {
        match contents {
            Err(reason) => Err(ConfigError::Io(reason)),
            Ok(buffer) => {
                let read = read_shallow_document(buffer.as_slice());
                proof {
                    if read is Ok {
                        let all = sections_of(read->Ok_0@);
                        if profiles_of(all) is Ok {
                            lemma_distinct_names_carry_over(all);
                            lemma_stamped_keeps_names(profiles_of(all)->Ok_0, file@);
                        }
                    }
                }
                profiles_from_file(file, read)
            },
        }
    }

    /// The profiles of the settings document in `buffer`.
    pub fn parse_config_toml(buffer: &[u8]) -> (parsed: Result<Vec<Config>, ConfigError>)
        ensures
            parse_view(parsed) == expected_parse(document_of(buffer@)),
            parsed matches Ok(configs) ==> distinct_profiles(views_of(configs@)),
    {
        let read = read_shallow_document(buffer);
        proof {
            if read is Ok {
                let all = sections_of(read->Ok_0@);
                if profiles_of(all) is Ok {
                    lemma_distinct_names_carry_over(all);
                }
            }
        }
        profiles_from_document(read)
    }
}

} // verus!
