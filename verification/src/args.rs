//! The profile that the command line describes, and where the settings file
//! is to come from.
use crate::config::{
    views_of, CandidatesView, Config, ConfigCandidates, ConfigView, ConfigWrapper, Location,
    LocationView,
};
use crate::exclusion::{ExcludedFiles, ExcludedView};
use crate::path::{is_absolute, join_paths, path_is_absolute, path_joined};
use crate::pattern::compiled_slots;
use crate::strings::{copy_strings, copy_text, slice_text, text_of, texts_of};
use crate::types::{ci_named, CiService, OutputFile, RunType, Timeout};
use vstd::prelude::*;

verus! {

/// The arguments of one invocation, already parsed: which flags were given,
/// and the values of the options that take one or more.
#[derive(Debug, Clone, Default)]
pub struct Args {
    pub debug: bool,
    pub verbose: bool,
    pub ignored: bool,
    pub ignore_tests: bool,
    pub ignore_panics: bool,
    pub force_clean: bool,
    pub count: bool,
    pub line: bool,
    pub branch: bool,
    pub forward: bool,
    pub all_features: bool,
    pub no_default_features: bool,
    pub all: bool,
    pub workspace: bool,
    pub release: bool,
    pub no_run: bool,
    pub locked: bool,
    pub frozen: bool,
    pub offline: bool,
    /// Do not look for a settings file.
    pub ignore_config: bool,
    /// The settings file to use.
    pub config: Option<String>,
    pub manifest_path: Option<String>,
    pub root: Option<String>,
    pub output_dir: Option<String>,
    pub coveralls: Option<String>,
    pub ciserver: Option<String>,
    pub report_uri: Option<String>,
    pub target_dir: Option<String>,
    /// The timeout in seconds.
    pub timeout: Option<u64>,
    pub run_types: Vec<RunType>,
    pub out: Vec<OutputFile>,
    pub packages: Vec<String>,
    pub exclude: Vec<String>,
    pub exclude_files: Vec<String>,
    pub args: Vec<String>,
    pub features: Vec<String>,
    pub unstable_features: Vec<String>,
}

/// The string `value`, or `initial` where there is none.
pub open spec fn given_or(value: Option<String>, initial: Seq<char>) -> Seq<char> {
    match value {
        Some(text) => text@,
        None => initial,
    }
}

impl Args {
    /// The profile that these arguments describe.
    ///
    /// Debug output brings verbosity with it. With neither kind of coverage
    /// asked for, lines are covered; otherwise what was asked for. A
    /// workspace is meant under either of its two flags. Options that were
    /// not given keep their initial values: the manifest in the current
    /// directory, a timeout of a minute, tests as the only run type. The
    /// cache of the exclusion patterns is built at once.
    pub open spec fn profile(&self) -> ConfigView {
        ConfigView {
            name: Seq::empty(),
            manifest: given_or(self.manifest_path, "./Cargo.toml"@),
            config: None,
            root: text_of(self.root),
            run_ignored: self.ignored,
            ignore_tests: self.ignore_tests,
            ignore_panics: self.ignore_panics,
            force_clean: self.force_clean,
            verbose: self.verbose || self.debug,
            debug: self.debug,
            count: self.count,
            line_coverage: self.line || !self.branch,
            branch_coverage: self.branch,
            output_directory: given_or(self.output_dir, Seq::empty()),
            coveralls: text_of(self.coveralls),
            ci_tool: match self.ciserver {
                Some(name) => Some(ci_named(name@)),
                None => None,
            },
            report_uri: text_of(self.report_uri),
            forward_signals: self.forward,
            all_features: self.all_features,
            no_default_features: self.no_default_features,
            all: self.all || self.workspace,
            test_timeout: match self.timeout {
                Some(secs) => Timeout { secs, nanos: 0 },
                None => Timeout { secs: 60, nanos: 0 },
            },
            release: self.release,
            no_run: self.no_run,
            locked: self.locked,
            frozen: self.frozen,
            target_dir: text_of(self.target_dir),
            offline: self.offline,
            run_types: if self.run_types.len() == 0 {
                seq![RunType::Tests]
            } else {
                self.run_types@
            },
            packages: texts_of(self.packages@),
            exclude: texts_of(self.exclude@),
            excluded_files: ExcludedView {
                raw: texts_of(self.exclude_files@),
                cache: compiled_slots(texts_of(self.exclude_files@)),
            },
            varargs: texts_of(self.args@),
            features: texts_of(self.features@),
            unstable_features: texts_of(self.unstable_features@),
            generate: self.out@,
        }
    }

    /// Where the profiles are to come from.
    ///
    /// From the arguments alone where they say so. Else from the settings
    /// file that they name. Else from a settings file beside the project, if
    /// there is a directory to look in.
    pub open spec fn source(&self, args_config: ConfigView) -> SourceView {
        if self.ignore_config {
            SourceView::ArgsOnly
        } else {
            match self.config {
                Some(path) => SourceView::File {
                    path: path@,
                    relative: !path_is_absolute(path@),
                },
                None => match args_config.candidates() {
                    Some(places) => SourceView::Search(places),
                    None => SourceView::ArgsOnly,
                },
            }
        }
    }

    /// Where the profiles are to come from; `args_config` is the profile
    /// made from these arguments.
    pub fn config_source(&self, args_config: &Config) -> (source: ConfigSource)
        ensures
            source@ == self.source(args_config@),
    {
        if self.ignore_config {
            ConfigSource::ArgsOnly
        } else {
            match &self.config {
                Some(path) => ConfigSource::File {
                    path: path.clone(),
                    relative: !is_absolute(path.as_str()),
                },
                None => match args_config.check_for_configs() {
                    Some(places) => ConfigSource::Search(places),
                    None => ConfigSource::ArgsOnly,
                },
            }
        }
    }
}

/// Where the manifest of the project lies, from what the command line says
/// of the manifest and of the root.
///
/// A manifest that is named is taken, from the current directory where its
/// path is relative. Without one the manifest is the file `Cargo.toml` in the
/// root, which is taken from the current directory, or in the current
/// directory itself.
pub open spec fn manifest_place(
    manifest_path: Option<Seq<char>>,
    root: Option<Seq<char>>,
    current_dir: Seq<char>,
) -> LocationView {
    match manifest_path {
        Some(path) => if path_is_absolute(path) {
            LocationView::Known(path)
        } else {
            LocationView::Unresolved(path_joined(current_dir, path))
        },
        None => LocationView::Unresolved(
            path_joined(
                match root {
                    Some(dir) => path_joined(current_dir, dir),
                    None => current_dir,
                },
                "Cargo.toml"@,
            ),
        ),
    }
}

/// Where the manifest of the project lies. A place that is not known as it
/// stands has yet to be made canonical.
pub fn manifest_location(manifest_path: Option<&str>, root: Option<&str>, current_dir: &str) -> (place:
    Location)
    ensures
        place@ == manifest_place(slice_text(manifest_path), slice_text(root), current_dir@),
{
    match manifest_path {
        Some(path) => {
            if is_absolute(path) {
                Location::Known(path.to_owned())
            } else {
                Location::Unresolved(join_paths(current_dir, path))
            }
        },
        None => {
            let dir = match root {
                Some(dir) => join_paths(current_dir, dir),
                None => current_dir.to_owned(),
            };
            Location::Unresolved(join_paths(dir.as_str(), "Cargo.toml"))
        },
    }
}

/// Where the profiles of a run come from.
#[derive(Debug, Clone, PartialEq, Eq)]
pub enum ConfigSource {
    /// From the command line alone.
    ArgsOnly,
    /// From the settings file at `path`, which has yet to be made absolute
    /// where it is relative.
    File { path: String, relative: bool },
    /// From the first of these places that exists, else from the command
    /// line alone.
    Search(ConfigCandidates),
}

/// The mathematical value of a [`ConfigSource`].
pub enum SourceView {
    ArgsOnly,
    File { path: Seq<char>, relative: bool },
    Search(CandidatesView),
}

impl View for ConfigSource {
    type V = SourceView;

    open spec fn view(&self) -> SourceView {
        match self {
            ConfigSource::ArgsOnly => SourceView::ArgsOnly,
            ConfigSource::File { path, relative } => SourceView::File {
                path: path@,
                relative: *relative,
            },
            ConfigSource::Search(places) => SourceView::Search(places@),
        }
    }
}

impl Config {
    /// The profile that the arguments `args` describe.
    pub fn from_args(args: &Args) -> (config: Config)
        ensures
            config@ == args.profile(),
    {
        let manifest = match &args.manifest_path {
            Some(path) => path.clone(),
            None => "./Cargo.toml".to_owned(),
        };
        let output_directory = match &args.output_dir {
            Some(path) => path.clone(),
            None => String::new(),
        };
        let ci_tool = match &args.ciserver {
            Some(name) => Some(CiService::from_name(name.as_str())),
            None => None,
        };
        let test_timeout = match args.timeout {
            Some(secs) => Timeout { secs, nanos: 0 },
            None => Timeout { secs: 60, nanos: 0 },
        };
        let mut run_types: Vec<RunType> = Vec::new();
        if args.run_types.len() == 0 {
            run_types.push(RunType::Tests);
            assert(run_types@ =~= seq![RunType::Tests]);
        } else {
            let mut at: usize = 0;
            while at < args.run_types.len()
                invariant
                    at <= args.run_types.len(),
                    run_types@ == args.run_types@.take(at as int),
                decreases args.run_types.len() - at,
            {
                run_types.push(args.run_types[at]);
                at = at + 1;
                assert(run_types@ =~= args.run_types@.take(at as int));
            }
            assert(args.run_types@.take(at as int) =~= args.run_types@);
        }
        let mut generate: Vec<OutputFile> = Vec::new();
        let mut at: usize = 0;
        while at < args.out.len()
            invariant
                at <= args.out.len(),
                generate@ == args.out@.take(at as int),
            decreases args.out.len() - at,
        {
            generate.push(args.out[at]);
            at = at + 1;
            assert(generate@ =~= args.out@.take(at as int));
        }
        assert(args.out@.take(at as int) =~= args.out@);
        Config {
            name: String::new(),
            manifest,
            config: None,
            root: copy_text(&args.root),
            run_ignored: args.ignored,
            ignore_tests: args.ignore_tests,
            ignore_panics: args.ignore_panics,
            force_clean: args.force_clean,
            verbose: args.verbose || args.debug,
            debug: args.debug,
            count: args.count,
            line_coverage: args.line || !args.branch,
            branch_coverage: args.branch,
            output_directory,
            coveralls: copy_text(&args.coveralls),
            ci_tool,
            report_uri: copy_text(&args.report_uri),
            forward_signals: args.forward,
            all_features: args.all_features,
            no_default_features: args.no_default_features,
            all: args.all || args.workspace,
            test_timeout,
            release: args.release,
            no_run: args.no_run,
            locked: args.locked,
            frozen: args.frozen,
            target_dir: copy_text(&args.target_dir),
            offline: args.offline,
            run_types,
            packages: copy_strings(&args.packages),
            exclude: copy_strings(&args.exclude),
            excluded_files: ExcludedFiles::compiled_from(copy_strings(&args.exclude_files)),
            varargs: copy_strings(&args.args),
            features: copy_strings(&args.features),
            unstable_features: copy_strings(&args.unstable_features),
            generate,
        }
    }
}

impl ConfigWrapper {
    /// The one profile of a run without a settings file.
    pub fn from_args_only(args_config: Config) -> (set: ConfigWrapper)
        ensures
            views_of(set.0@) == seq![args_config@],
            set.0.len() == 1,
    {
        let mut only: Vec<Config> = Vec::new();
        only.push(args_config);
        assert(views_of(only@) =~= seq![args_config@]);
        ConfigWrapper(only)
    }
}

} // verus!
