//! A run profile, how two profiles are combined, and what a profile says of
//! a source file.
use crate::exclusion::{ExcludedFiles, ExcludedView};
use crate::path::{
    is_absolute, join_paths, parent_of, path_components, path_is_absolute, path_joined,
    path_parent, path_relative_from, relative_path, same_components, split_components,
};
use crate::strings::{copy_text, text_of, texts_of};
use crate::types::{CiName, CiService, OutputFile, RunType, Timeout};
use vstd::prelude::*;

verus! {

/// One resolved run configuration.
#[derive(Debug, Clone)]
pub struct Config {
    /// The name of the profile; empty for one made from the command line.
    pub name: String,
    /// Path to the project's manifest.
    pub manifest: String,
    /// Path to the settings file that the profile was read from.
    pub config: Option<String>,
    /// The project's root directory.
    pub root: Option<String>,
    /// Also run tests that are marked as ignored.
    pub run_ignored: bool,
    /// Leave test functions out of the statistics.
    pub ignore_tests: bool,
    /// Leave panic handling out of the statistics.
    pub ignore_panics: bool,
    /// Clean the project before it is built.
    pub force_clean: bool,
    /// Print information for the user.
    pub verbose: bool,
    /// Print internal information.
    pub debug: bool,
    /// Count hits.
    pub count: bool,
    /// Collect line coverage.
    pub line_coverage: bool,
    /// Collect branch coverage.
    pub branch_coverage: bool,
    /// Directory for the reports.
    pub output_directory: String,
    /// Key of the coveralls service or repository.
    pub coveralls: Option<String>,
    /// The continuous-integration service in use.
    pub ci_tool: Option<CiService>,
    /// Where to send the report instead of coveralls.
    pub report_uri: Option<String>,
    /// Hand unexpected signals back to the test.
    pub forward_signals: bool,
    /// Build with all features.
    pub all_features: bool,
    /// Build without the default features.
    pub no_default_features: bool,
    /// Build all packages of the workspace.
    pub all: bool,
    /// How long a test may run.
    pub test_timeout: Timeout,
    /// Build in release mode.
    pub release: bool,
    /// Build the tests without running them.
    pub no_run: bool,
    /// Do not update the lock file.
    pub locked: bool,
    /// Do not update the lock file or any cache.
    pub frozen: bool,
    /// Directory for build artifacts.
    pub target_dir: Option<String>,
    /// Do not use the network.
    pub offline: bool,
    /// The kinds of tests to run.
    pub run_types: Vec<RunType>,
    /// Packages to build.
    pub packages: Vec<String>,
    /// Packages to leave out.
    pub exclude: Vec<String>,
    /// Files to leave out of the results, with the cache of their matchers.
    pub excluded_files: ExcludedFiles,
    /// Arguments for the test executables.
    pub varargs: Vec<String>,
    /// Features to build with.
    pub features: Vec<String>,
    /// Unstable build features to use.
    pub unstable_features: Vec<String>,
    /// Reports to write.
    pub generate: Vec<OutputFile>,
}

/// The mathematical value of a [`Config`].
pub struct ConfigView {
    pub name: Seq<char>,
    pub manifest: Seq<char>,
    pub config: Option<Seq<char>>,
    pub root: Option<Seq<char>>,
    pub run_ignored: bool,
    pub ignore_tests: bool,
    pub ignore_panics: bool,
    pub force_clean: bool,
    pub verbose: bool,
    pub debug: bool,
    pub count: bool,
    pub line_coverage: bool,
    pub branch_coverage: bool,
    pub output_directory: Seq<char>,
    pub coveralls: Option<Seq<char>>,
    pub ci_tool: Option<CiName>,
    pub report_uri: Option<Seq<char>>,
    pub forward_signals: bool,
    pub all_features: bool,
    pub no_default_features: bool,
    pub all: bool,
    pub test_timeout: Timeout,
    pub release: bool,
    pub no_run: bool,
    pub locked: bool,
    pub frozen: bool,
    pub target_dir: Option<Seq<char>>,
    pub offline: bool,
    pub run_types: Seq<RunType>,
    pub packages: Seq<Seq<char>>,
    pub exclude: Seq<Seq<char>>,
    pub excluded_files: ExcludedView,
    pub varargs: Seq<Seq<char>>,
    pub features: Seq<Seq<char>>,
    pub unstable_features: Seq<Seq<char>>,
    pub generate: Seq<OutputFile>,
}

/// The value of an optional service.
pub open spec fn ci_of(service: Option<CiService>) -> Option<CiName> {
    match service {
        Some(ci) => Some(ci@),
        None => None,
    }
}

impl View for Config {
    type V = ConfigView;

    open spec fn view(&self) -> ConfigView {
        ConfigView {
            name: self.name@,
            manifest: self.manifest@,
            config: text_of(self.config),
            root: text_of(self.root),
            run_ignored: self.run_ignored,
            ignore_tests: self.ignore_tests,
            ignore_panics: self.ignore_panics,
            force_clean: self.force_clean,
            verbose: self.verbose,
            debug: self.debug,
            count: self.count,
            line_coverage: self.line_coverage,
            branch_coverage: self.branch_coverage,
            output_directory: self.output_directory@,
            coveralls: text_of(self.coveralls),
            ci_tool: ci_of(self.ci_tool),
            report_uri: text_of(self.report_uri),
            forward_signals: self.forward_signals,
            all_features: self.all_features,
            no_default_features: self.no_default_features,
            all: self.all,
            test_timeout: self.test_timeout,
            release: self.release,
            no_run: self.no_run,
            locked: self.locked,
            frozen: self.frozen,
            target_dir: text_of(self.target_dir),
            offline: self.offline,
            run_types: self.run_types@,
            packages: texts_of(self.packages@),
            exclude: texts_of(self.exclude@),
            excluded_files: self.excluded_files@,
            varargs: texts_of(self.varargs@),
            features: texts_of(self.features@),
            unstable_features: texts_of(self.unstable_features@),
            generate: self.generate@,
        }
    }
}

impl ConfigView {
    /// The profile in which nothing has been set.
    pub open spec fn initial() -> ConfigView {
        ConfigView {
            name: Seq::empty(),
            manifest: "./Cargo.toml"@,
            config: None,
            root: None,
            run_ignored: false,
            ignore_tests: false,
            ignore_panics: false,
            force_clean: false,
            verbose: false,
            debug: false,
            count: false,
            line_coverage: true,
            branch_coverage: false,
            output_directory: Seq::empty(),
            coveralls: None,
            ci_tool: None,
            report_uri: None,
            forward_signals: false,
            all_features: false,
            no_default_features: false,
            all: false,
            test_timeout: Timeout { secs: 60, nanos: 0 },
            release: false,
            no_run: false,
            locked: false,
            frozen: false,
            target_dir: None,
            offline: false,
            run_types: seq![RunType::Tests],
            packages: Seq::empty(),
            exclude: Seq::empty(),
            excluded_files: ExcludedView { raw: Seq::empty(), cache: Seq::empty() },
            varargs: Seq::empty(),
            features: Seq::empty(),
            unstable_features: Seq::empty(),
            generate: Seq::empty(),
        }
    }

    /// The profile after the settings of `source` have been laid over it.
    ///
    /// Debug output and verbosity are each on afterwards where either of
    /// the two profiles has them on; `source` switches neither off. The
    /// manifest and the root are those of `source`. The exclusion patterns
    /// of `source` are added at the end. Everything else stays.
    pub open spec fn merged(self, source: ConfigView) -> ConfigView {
        ConfigView {
            debug: self.debug || source.debug,
            verbose: self.verbose || source.verbose,
            manifest: source.manifest,
            root: source.root,
            excluded_files: self.excluded_files.extended(source.excluded_files.raw),
            ..self
        }
    }

    /// The profile marked as read from the settings file `file`.
    pub open spec fn from_file(self, file: Seq<char>) -> ConfigView {
        ConfigView { config: Some(file), ..self }
    }

    /// The profile after an exclusion query: the cache of matchers is up to
    /// date and nothing else has changed.
    pub open spec fn queried(self) -> ConfigView {
        ConfigView { excluded_files: self.excluded_files.refreshed(), ..self }
    }

    /// The directory in which a settings file is looked for: the root where
    /// one is set, else the directory of the manifest, if it has one.
    pub open spec fn search_dir(self) -> Option<Seq<char>> {
        match self.root {
            Some(root) => Some(root),
            None => path_parent(self.manifest),
        }
    }

    /// The places where a settings file for the profile may lie.
    pub open spec fn candidates(self) -> Option<CandidatesView> {
        match self.search_dir() {
            Some(dir) => Some(candidates_in(dir)),
            None => None,
        }
    }

    /// The base directory for relative paths, as far as it is known without
    /// a look at the file system.
    pub open spec fn base_dir(self, current_dir: Seq<char>) -> LocationView {
        match self.root {
            Some(root) => if path_is_absolute(root) {
                LocationView::Known(root)
            } else {
                LocationView::Unresolved(path_joined(current_dir, root))
            },
            None => LocationView::Known(current_dir),
        }
    }
}

/// An exclusion query leaves a cache with one slot for each pattern, and a
/// second query changes nothing more.
pub proof fn lemma_query_completes_the_cache(profile: ConfigView)
    ensures
        profile.queried().excluded_files.cache.len() == profile.queried().excluded_files.raw.len(),
        profile.queried().excluded_files.raw == profile.excluded_files.raw,
        profile.queried().queried() == profile.queried(),
{
}

/// A profile without exclusion patterns excludes no path.
pub proof fn lemma_no_patterns_exclude_no_path(
    profile: ConfigView,
    path: Seq<char>,
    base_dir: Seq<char>,
)
    requires
        profile.excluded_files.raw.len() == 0,
    ensures
        !profile.queried().excluded_files.answer(stripped_path(path, base_dir)),
{
}

/// The answer to an exclusion query is the same the second time, and the
/// same for any two profiles with the same patterns.
pub proof fn lemma_query_answers_are_stable(
    profile: ConfigView,
    other: ConfigView,
    path: Seq<char>,
    base_dir: Seq<char>,
)
    requires
        profile.excluded_files.raw == other.excluded_files.raw,
    ensures
        profile.queried().queried().excluded_files.answer(stripped_path(path, base_dir))
            == profile.queried().excluded_files.answer(stripped_path(path, base_dir)),
        other.queried().excluded_files.answer(stripped_path(path, base_dir))
            == profile.queried().excluded_files.answer(stripped_path(path, base_dir)),
{
}

/// The overlay adds the exclusion patterns of the source behind those of the
/// target, takes manifest and root from the source, and leaves the rest of
/// the target alone.
pub proof fn lemma_merge_adds_patterns(target: ConfigView, source: ConfigView)
    ensures
        target.merged(source).excluded_files.raw == target.excluded_files.raw
            + source.excluded_files.raw,
        target.merged(source).excluded_files.raw.len() == target.excluded_files.raw.len()
            + source.excluded_files.raw.len(),
        source.excluded_files.raw.len() > 0 ==> target.merged(source).excluded_files.cache.len()
            == 0,
        target.merged(source).manifest == source.manifest,
        target.merged(source).root == source.root,
        target.merged(source) == (ConfigView {
            debug: target.merged(source).debug,
            verbose: target.merged(source).verbose,
            manifest: source.manifest,
            root: source.root,
            excluded_files: target.merged(source).excluded_files,
            ..target
        }),
{
    if source.excluded_files.raw.len() == 0 {
        assert(target.excluded_files.raw + source.excluded_files.raw
            =~= target.excluded_files.raw);
    }
}

/// The overlay unites debug output and verbosity: what is on in either
/// profile is on afterwards, and nothing that was on in the target is
/// switched off.
pub proof fn lemma_merge_unites_verbosity(target: ConfigView, source: ConfigView)
    ensures
        target.merged(source).debug == (target.debug || source.debug),
        target.merged(source).verbose == (target.verbose || source.verbose),
        target.debug ==> target.merged(source).debug,
        target.verbose ==> target.merged(source).verbose,
{
}

/// The path `path` as seen from `base_dir`; `path` itself where no relative
/// path is known.
pub open spec fn stripped_path(path: Seq<char>, base_dir: Seq<char>) -> Seq<char> {
    match relative_path(path, base_dir) {
        Some(relative) => relative,
        None => path,
    }
}

/// The two places in a directory where a settings file may lie.
#[derive(Debug, Clone, PartialEq, Eq)]
pub struct ConfigCandidates {
    /// The file that is looked for first.
    pub primary: String,
    /// The file that is looked for where the first is missing.
    pub hidden: String,
}

/// The mathematical value of a [`ConfigCandidates`].
pub struct CandidatesView {
    pub primary: Seq<char>,
    pub hidden: Seq<char>,
}

impl View for ConfigCandidates {
    type V = CandidatesView;

    open spec fn view(&self) -> CandidatesView {
        CandidatesView { primary: self.primary@, hidden: self.hidden@ }
    }
}

/// The places in the directory `dir` where a settings file may lie.
pub open spec fn candidates_in(dir: Seq<char>) -> CandidatesView {
    CandidatesView {
        primary: path_joined(dir, "tarpaulin.toml"@),
        hidden: path_joined(dir, ".tarpaulin.toml"@),
    }
}

/// The value of optional candidates.
pub open spec fn candidates_of(candidates: Option<ConfigCandidates>) -> Option<CandidatesView> {
    match candidates {
        Some(places) => Some(places@),
        None => None,
    }
}

impl ConfigCandidates {
    /// The settings file to use, from what a look at the file system gave
    /// for each place: the first of the two that exists.
    pub fn first_existing(self, primary_exists: bool, hidden_exists: bool) -> (file: Option<
        String,
    >)
        ensures
            text_of(file) == (if primary_exists {
                Some(self@.primary)
            } else if hidden_exists {
                Some(self@.hidden)
            } else {
                None
            }),
    {
        if primary_exists {
            Some(self.primary)
        } else if hidden_exists {
            Some(self.hidden)
        } else {
            None
        }
    }
}

/// A place in the file system, as far as it is known without a look at it.
#[derive(Debug, Clone, PartialEq, Eq)]
pub enum Location {
    /// The path itself.
    Known(String),
    /// A path that has yet to be made canonical on the file system.
    Unresolved(String),
}

/// The mathematical value of a [`Location`].
pub enum LocationView {
    Known(Seq<char>),
    Unresolved(Seq<char>),
}

impl View for Location {
    type V = LocationView;

    open spec fn view(&self) -> LocationView {
        match self {
            Location::Known(path) => LocationView::Known(path@),
            Location::Unresolved(path) => LocationView::Unresolved(path@),
        }
    }
}

impl Default for Config {
    fn default() -> (config: Config)
        ensures
            config@ == ConfigView::initial(),
    {
        let mut run_types: Vec<RunType> = Vec::new();
        run_types.push(RunType::Tests);
        let config = Config {
            name: String::new(),
            manifest: "./Cargo.toml".to_owned(),
            config: None,
            root: None,
            run_ignored: false,
            ignore_tests: false,
            ignore_panics: false,
            force_clean: false,
            verbose: false,
            debug: false,
            count: false,
            line_coverage: true,
            branch_coverage: false,
            output_directory: String::new(),
            coveralls: None,
            ci_tool: None,
            report_uri: None,
            forward_signals: false,
            all_features: false,
            no_default_features: false,
            all: false,
            test_timeout: Timeout { secs: 60, nanos: 0 },
            release: false,
            no_run: false,
            locked: false,
            frozen: false,
            target_dir: None,
            offline: false,
            run_types,
            packages: Vec::new(),
            exclude: Vec::new(),
            excluded_files: ExcludedFiles::new(Vec::new()),
            varargs: Vec::new(),
            features: Vec::new(),
            unstable_features: Vec::new(),
            generate: Vec::new(),
        };
        assert(config@.run_types =~= seq![RunType::Tests]);
        assert(config@.packages =~= Seq::empty());
        assert(config@.exclude =~= Seq::empty());
        assert(config@.varargs =~= Seq::empty());
        assert(config@.features =~= Seq::empty());
        assert(config@.unstable_features =~= Seq::empty());
        assert(config@.generate =~= Seq::empty());
        assert(config@.excluded_files.raw =~= Seq::empty());
        assert(config@.excluded_files.cache =~= Seq::empty());
        config
    }
}

impl Config {
    /// The exclusion patterns as they were given.
    pub fn excluded_files_raw(&self) -> (raw: &Vec<String>)
        ensures
            texts_of(raw@) == self@.excluded_files.raw,
    {
        self.excluded_files.raw()
    }

    /// The number of matchers that the cache holds.
    pub fn compiled_patterns(&self) -> (count: usize)
        ensures
            count == self@.excluded_files.cache.len(),
    {
        self.excluded_files.cached()
    }

    /// The profile, marked as read from the settings file `file`.
    pub fn with_config_file(self, file: &str) -> (marked: Config)
        ensures
            marked@ == self@.from_file(file@),
    {
        Config { config: Some(file.to_owned()), ..self }
    }

    /// The places where a settings file for this profile may lie, or `None`
    /// where there is no directory to look in. Which of them exists is for
    /// the caller to find out.
    pub fn check_for_configs(&self) -> (places: Option<ConfigCandidates>)
        ensures
            candidates_of(places) == self@.candidates(),
    {
        match &self.root {
            Some(root) => Some(Config::check_path_for_configs(root.as_str())),
            None => match parent_of(self.manifest.as_str()) {
                Some(dir) => Some(Config::check_path_for_configs(dir.as_str())),
                None => None,
            },
        }
    }

    /// The places in the directory `path` where a settings file may lie.
    pub fn check_path_for_configs(path: &str) -> (places: ConfigCandidates)
        ensures
            places@ == candidates_in(path@),
    {
        ConfigCandidates {
            primary: join_paths(path, "tarpaulin.toml"),
            hidden: join_paths(path, ".tarpaulin.toml"),
        }
    }

    /// Lays the settings of `other`, a profile made from the command line,
    /// over this one.
    pub fn merge(&mut self, other: &Config)
        ensures
            final(self)@ == old(self)@.merged(other@),
    {
        if other.debug {
            self.debug = true;
        }
        if other.verbose {
            self.verbose = true;
        }
        self.manifest = other.manifest.clone();
        self.root = copy_text(&other.root);
        self.excluded_files.extend(&other.excluded_files);
        assert(self@.excluded_files == old(self)@.excluded_files.extended(
            other@.excluded_files.raw,
        ));
    }

    /// Whether a coveralls key is set.
    pub fn is_coveralls(&self) -> (set: bool)
        ensures
            set == self@.coveralls.is_some(),
    {
        self.coveralls.is_some()
    }

    /// Whether the file at `path` is left out of the results.
    ///
    /// `base_dir` is the profile's base directory. The path is taken
    /// relative to it where that is possible and then held against every
    /// exclusion pattern. The cache of matchers is brought up to date first,
    /// so that afterwards it has one slot for each pattern.
    pub fn exclude_path(&mut self, path: &str, base_dir: &str) -> (excluded: bool)
        ensures
            final(self)@ == old(self)@.queried(),
            excluded == final(self)@.excluded_files.answer(stripped_path(path@, base_dir@)),
            final(self)@.excluded_files.cache.len() == final(self)@.excluded_files.raw.len(),
            old(self)@.excluded_files.raw.len() == 0 ==> !excluded,
    {
        let project = self.strip_base_dir(path, base_dir);
        // The patterns are taken out for the query and put back with their
        // cache up to date.
        let mut files = ExcludedFiles::new(Vec::new());
        std::mem::swap(&mut files, &mut self.excluded_files);
        let excluded = files.matches(project.as_str());
        self.excluded_files = files;
        excluded
    }

    /// Whether a file is left out of the results whose path is given as
    /// text only where it has one: a path that is not valid UTF-8 has none
    /// and is never excluded. The cache is brought up to date either way.
    pub fn exclude_os_path(&mut self, path: Option<&str>, base_dir: &str) -> (excluded: bool)
        ensures
            final(self)@ == old(self)@.queried(),
            excluded == (match path {
                Some(text) => final(self)@.excluded_files.answer(
                    stripped_path(text@, base_dir@),
                ),
                None => false,
            }),
    {
        match path {
            Some(text) => self.exclude_path(text, base_dir),
            None => {
                let mut files = ExcludedFiles::new(Vec::new());
                std::mem::swap(&mut files, &mut self.excluded_files);
                files.refresh();
                self.excluded_files = files;
                false
            },
        }
    }

    /// The base directory of the profile: the root where one is set, else
    /// the current directory. A relative root is joined to the current
    /// directory and has yet to be made canonical.
    pub fn get_base_dir(&self, current_dir: &str) -> (base: Location)
        ensures
            base@ == self@.base_dir(current_dir@),
    {
        match &self.root {
            Some(root) => {
                if is_absolute(root.as_str()) {
                    Location::Known(root.clone())
                } else {
                    Location::Unresolved(join_paths(current_dir, root.as_str()))
                }
            },
            None => Location::Known(current_dir.to_owned()),
        }
    }

    /// The path `path` as seen from `base_dir`, or `path` itself where no
    /// relative path is known.
    pub fn strip_base_dir(&self, path: &str, base_dir: &str) -> (stripped: String)
        ensures
            stripped@ == stripped_path(path@, base_dir@),
    {
        match path_relative_from(path, base_dir) {
            Some(relative) => relative,
            None => path.to_owned(),
        }
    }

    /// Whether the reports go to the current directory.
    pub fn is_default_output_dir(&self, current_dir: &str) -> (default: bool)
        ensures
            default == (path_components(self@.output_directory) == path_components(
                current_dir@,
            )),
    {
        let own = split_components(self.output_directory.as_str());
        let current = split_components(current_dir);
        same_components(&own, &current)
    }
}

/// Why no profiles could be had from a settings file.
#[derive(Debug, Clone, PartialEq, Eq)]
pub enum ConfigError {
    /// The file could not be read; with the reason.
    Io(String),
    /// The document is not well formed or one of its sections is no
    /// profile; with the reason.
    MalformedDocument(String),
    /// The document holds no profile.
    EmptyDocument,
}

/// The profiles of one resolution, in order. There is always at least one.
pub struct ConfigWrapper(pub Vec<Config>);

/// The values of a list of profiles.
pub open spec fn views_of(configs: Seq<Config>) -> Seq<ConfigView> {
    configs.map_values(|c: Config| c@)
}

/// Each of `profiles` with the settings of `source` laid over it.
pub open spec fn merged_all(profiles: Seq<ConfigView>, source: ConfigView) -> Seq<ConfigView> {
    profiles.map_values(|profile: ConfigView| profile.merged(source))
}

/// The profiles to run with: those of the file, each with `backup` laid over
/// it, or `backup` alone where the file gave none.
pub open spec fn resolved_profiles(
    file_configs: Result<Seq<ConfigView>, ConfigError>,
    backup: ConfigView,
) -> Seq<ConfigView> {
    match file_configs {
        Ok(profiles) => if profiles.len() == 0 {
            seq![backup]
        } else {
            merged_all(profiles, backup)
        },
        Err(_) => seq![backup],
    }
}

/// A resolution always has a profile; where the file gave none it is the
/// one made from the command line, unchanged.
pub proof fn lemma_resolved_profiles_never_empty(
    file_configs: Result<Seq<ConfigView>, ConfigError>,
    backup: ConfigView,
)
    ensures
        resolved_profiles(file_configs, backup).len() > 0,
        file_configs is Err ==> resolved_profiles(file_configs, backup) == seq![backup],
        file_configs matches Ok(profiles) ==> resolved_profiles(file_configs, backup).len() == (
        if profiles.len() == 0 {
            1
        } else {
            profiles.len()
        }),
{
}

/// The values of the profiles that a file gave, or the error.
pub open spec fn loaded_views(file_configs: Result<Vec<Config>, ConfigError>) -> Result<
    Seq<ConfigView>,
    ConfigError,
> {
    match file_configs {
        Ok(configs) => Ok(views_of(configs@)),
        Err(error) => Err(error),
    }
}

impl Config {
    /// The profiles to run with, from what the settings file gave and the
    /// profile made from the command line.
    pub fn get_config_vec(file_configs: Result<Vec<Config>, ConfigError>, backup: Config) -> (set:
        ConfigWrapper)
        ensures
            views_of(set.0@) == resolved_profiles(loaded_views(file_configs), backup@),
            set.0.len() > 0,
    {
        match file_configs {
            Err(_) => {
                let mut only: Vec<Config> = Vec::new();
                only.push(backup);
                assert(views_of(only@) =~= seq![backup@]);
                ConfigWrapper(only)
            },
            Ok(mut confs) => {
                let ghost before = views_of(confs@);
                let mut at: usize = 0;
                while at < confs.len()
                    invariant
                        at <= confs.len(),
                        confs.len() == before.len(),
                        forall|i: int|
                            0 <= i < at ==> (#[trigger] confs[i])@ == before[i].merged(backup@),
                        forall|i: int| at <= i < confs.len() ==> (#[trigger] confs[i])@ == before[i],
                    decreases confs.len() - at,
                {
                    confs[at].merge(&backup);
                    at = at + 1;
                }
                if confs.len() == 0 {
                    let mut only: Vec<Config> = Vec::new();
                    only.push(backup);
                    assert(views_of(only@) =~= seq![backup@]);
                    ConfigWrapper(only)
                } else {
                    assert(views_of(confs@) =~= merged_all(before, backup@));
                    ConfigWrapper(confs)
                }
            },
        }
    }
}

} // verus!
