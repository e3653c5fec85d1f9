use clap::{App, ArgMatches};
use tarpaulin_config::args::Args;
use tarpaulin_config::config::{Config, ConfigWrapper};
use tarpaulin_config::exclusion::ExcludedFiles;
use tarpaulin_config::pattern::source_of_pattern;

fn args_from(matches: &ArgMatches) -> Args {
    Args {
        exclude_files: matches
            .values_of_lossy("exclude-files")
            .unwrap_or_else(Vec::new),
        ..Args::default()
    }
}

fn profiles_for(arguments: Vec<&str>) -> Vec<Config> {
    let matches = App::new("tarpaulin")
        .args_from_usage("--exclude-files [FILE]... 'Exclude given files from coverage results has * wildcard'")
        .get_matches_from_safe(arguments)
        .unwrap();
    let args = args_from(&matches);
    ConfigWrapper::from_args_only(Config::from_args(&args)).0
}

#[test]
fn exclude_paths() {
    let mut conf = profiles_for(vec!["tarpaulin", "--exclude-files", "*module*"]);
    assert_eq!(conf.len(), 1);
    assert!(conf[0].exclude_path("src/module/file.rs", "/work"));
    assert!(!conf[0].exclude_path("src/mod.rs", "/work"));
    assert!(!conf[0].exclude_path("unrelated.rs", "/work"));
    assert!(conf[0].exclude_path("module.rs", "/work"));
}

#[test]
fn no_exclusions() {
    let mut conf = profiles_for(vec!["tarpaulin"]);
    assert_eq!(conf.len(), 1);
    assert!(!conf[0].exclude_path("src/module/file.rs", "/work"));
    assert!(!conf[0].exclude_path("src/mod.rs", "/work"));
    assert!(!conf[0].exclude_path("unrelated.rs", "/work"));
    assert!(!conf[0].exclude_path("module.rs", "/work"));
}

#[test]
fn exclude_exact_file() {
    let mut conf = profiles_for(vec!["tarpaulin", "--exclude-files", "*/lib.rs"]);
    assert_eq!(conf.len(), 1);
    assert!(conf[0].exclude_path("src/lib.rs", "/work"));
    assert!(!conf[0].exclude_path("src/mod.rs", "/work"));
    assert!(!conf[0].exclude_path("src/notlib.rs", "/work"));
    assert!(!conf[0].exclude_path("lib.rs", "/work"));
}

#[test]
fn pattern_is_rewritten_for_the_matcher() {
    assert_eq!(source_of_pattern("*/lib.rs"), ".*/lib\\.rs");
    assert_eq!(source_of_pattern("*module*"), ".*module.*");
    assert_eq!(source_of_pattern("plain"), "plain");
    assert_eq!(source_of_pattern(""), "");
}

#[test]
fn dot_in_a_pattern_is_literal() {
    let mut files = ExcludedFiles::new(vec!["a.rs".to_string()]);
    assert!(files.matches("src/a.rs"));
    assert!(!files.matches("src/abrs"));
}

#[test]
fn path_is_taken_relative_to_the_base_directory() {
    let args = Args {
        exclude_files: vec!["work/*".to_string()],
        ..Args::default()
    };
    let mut config = Config::from_args(&args);
    assert!(!config.exclude_path("/work/src/lib.rs", "/work"));
    assert!(config.exclude_path("/work/src/lib.rs", "/elsewhere"));
    assert_eq!(config.strip_base_dir("/work/src/lib.rs", "/work"), "src/lib.rs");
    assert_eq!(config.strip_base_dir("src/lib.rs", "/work"), "src/lib.rs");
}

#[test]
fn cache_has_one_slot_per_pattern_after_a_query() {
    let mut fresh = ExcludedFiles::new(vec!["a*".to_string(), "(".to_string(), "b".to_string()]);
    assert_eq!(fresh.len(), 3);
    assert_eq!(fresh.cached(), 0);
    assert!(fresh.matches("xb"));
    assert_eq!(fresh.cached(), 3);
    assert!(!fresh.matches("("));
    assert_eq!(fresh.cached(), fresh.len());

    let args = Args {
        exclude_files: vec!["*.rs".to_string(), "[".to_string()],
        ..Args::default()
    };
    let mut config = Config::from_args(&args);
    assert_eq!(config.compiled_patterns(), 2);
    assert!(config.exclude_path("main.rs", "/work"));
    assert_eq!(config.compiled_patterns(), config.excluded_files_raw().len());
}

#[test]
fn asking_twice_gives_the_same_answer() {
    let mut files = ExcludedFiles::new(vec!["target/*".to_string(), "*.lock".to_string()]);
    for path in ["target/debug/x", "Cargo.lock", "src/lib.rs", ""] {
        let first = files.matches(path);
        let cached = files.cached();
        let second = files.matches(path);
        assert_eq!(first, second);
        assert_eq!(files.cached(), cached);
    }
    let mut rebuilt = ExcludedFiles::compiled_from(files.raw().clone());
    assert!(rebuilt.matches("target/debug/x"));
    assert!(rebuilt.matches("Cargo.lock"));
    assert!(!rebuilt.matches("src/lib.rs"));
}

#[test]
fn adding_patterns_empties_the_cache() {
    let mut files = ExcludedFiles::compiled_from(vec!["a".to_string()]);
    assert_eq!(files.cached(), 1);
    files.extend(&ExcludedFiles::new(Vec::new()));
    assert_eq!(files.cached(), 1);
    assert_eq!(files.len(), 1);
    files.extend(&ExcludedFiles::new(vec!["b".to_string()]));
    assert_eq!(files.cached(), 0);
    assert_eq!(files.raw(), &vec!["a".to_string(), "b".to_string()]);
    assert!(files.matches("b"));
    assert_eq!(files.cached(), 2);
    let copy = files.clone();
    assert_eq!(copy.raw(), files.raw());
}
