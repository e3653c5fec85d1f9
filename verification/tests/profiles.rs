use tarpaulin_config::args::{manifest_location, Args, ConfigSource};
use tarpaulin_config::config::{
    Config, ConfigCandidates, ConfigError, ConfigWrapper, Location,
};
use tarpaulin_config::types::{CiService, OutputFile, RunType, Timeout};

fn file_profile() -> Config {
    let toml = b"[file]\nroot = \"/from/file\"\nmanifest-path = \"/from/file/Cargo.toml\"\n\
        exclude-files = [\"target/*\"]\npackages = [\"kept\"]\ntimeout = \"7s\"\n\
        branch = true\noutput-dir = \"/out\"\n";
    Config::parse_config_toml(toml).unwrap().remove(0)
}

#[test]
fn merge_takes_over_location_and_adds_exclusions() {
    let mut target = file_profile();
    let source = Config::from_args(&Args {
        manifest_path: Some("/cli/Cargo.toml".to_string()),
        root: None,
        exclude_files: vec!["foo.rs".to_string()],
        packages: vec!["dropped".to_string()],
        timeout: Some(1),
        output_dir: Some("/elsewhere".to_string()),
        ..Args::default()
    });
    target.merge(&source);
    assert_eq!(target.manifest, "/cli/Cargo.toml");
    assert_eq!(target.root, None);
    assert_eq!(
        target.excluded_files_raw(),
        &vec!["target/*".to_string(), "foo.rs".to_string()]
    );
    assert_eq!(target.compiled_patterns(), 0);
    assert_eq!(target.name, "file");
    assert_eq!(target.packages, vec!["kept".to_string()]);
    assert_eq!(target.test_timeout, Timeout { secs: 7, nanos: 0 });
    assert!(target.branch_coverage);
    assert_eq!(target.output_directory, "/out");
    assert_eq!(source.excluded_files_raw().len(), 1);
    assert!(target.exclude_path("foo.rs", "/work"));
    assert!(target.exclude_path("target/debug", "/work"));
    assert_eq!(target.compiled_patterns(), 2);
}

#[test]
fn merge_without_exclusions_keeps_the_cache() {
    let mut target = file_profile();
    assert!(target.exclude_path("target/x", "/work"));
    assert_eq!(target.compiled_patterns(), 1);
    target.merge(&Config::from_args(&Args::default()));
    assert_eq!(target.compiled_patterns(), 1);
    assert_eq!(target.excluded_files_raw().len(), 1);
    assert_eq!(target.manifest, "./Cargo.toml");
}

#[test]
fn merge_unites_verbosity() {
    let quiet = Config::from_args(&Args::default());
    let verbose = Config::from_args(&Args {
        verbose: true,
        ..Args::default()
    });
    let debug = Config::from_args(&Args {
        debug: true,
        ..Args::default()
    });
    assert!(debug.verbose);

    let mut target = Config::default();
    target.merge(&quiet);
    assert!(!target.verbose && !target.debug);
    target.merge(&verbose);
    assert!(target.verbose && !target.debug);
    target.merge(&quiet);
    assert!(target.verbose && !target.debug);
    target.merge(&debug);
    assert!(target.verbose && target.debug);
    target.merge(&quiet);
    assert!(target.verbose && target.debug);

    let mut silent_debug = Config::default();
    silent_debug.debug = true;
    let mut target = Config::default();
    target.verbose = true;
    target.merge(&silent_debug);
    assert!(target.debug);
    assert!(target.verbose);

    let mut target = Config::default();
    target.merge(&silent_debug);
    assert!(target.debug);
    assert!(!target.verbose);

    let mut target = Config::default();
    target.debug = true;
    target.merge(&verbose);
    assert!(target.debug && target.verbose);
}

#[test]
fn profiles_fall_back_to_the_arguments() {
    let backup = || {
        Config::from_args(&Args {
            coveralls: Some("key".to_string()),
            ..Args::default()
        })
    };
    let failed = Config::get_config_vec(Err(ConfigError::Io("gone".to_string())), backup()).0;
    assert_eq!(failed.len(), 1);
    assert_eq!(failed[0].coveralls, Some("key".to_string()));
    assert!(failed[0].is_coveralls());

    let empty = Config::get_config_vec(Ok(Vec::new()), backup()).0;
    assert_eq!(empty.len(), 1);
    assert_eq!(empty[0].coveralls, Some("key".to_string()));

    let only = ConfigWrapper::from_args_only(backup()).0;
    assert_eq!(only.len(), 1);
    assert_eq!(only[0].name, "");
}

#[test]
fn every_file_profile_is_merged_with_the_arguments() {
    let parsed = Config::parse_config_toml(b"[one]\ncount = true\n[two]\nroot = \"/two\"\n");
    let backup = Config::from_args(&Args {
        debug: true,
        root: Some("/cli".to_string()),
        exclude_files: vec!["x".to_string()],
        ..Args::default()
    });
    let set = Config::get_config_vec(parsed, backup).0;
    assert_eq!(set.len(), 2);
    assert_eq!(set[0].name, "one");
    assert_eq!(set[1].name, "two");
    assert!(set[0].count);
    assert!(!set[1].count);
    for c in &set {
        assert!(c.debug && c.verbose);
        assert_eq!(c.root, Some("/cli".to_string()));
        assert_eq!(c.excluded_files_raw(), &vec!["x".to_string()]);
        assert!(!c.is_coveralls());
    }
}

#[test]
fn profile_from_arguments() {
    let config = Config::from_args(&Args::default());
    assert_eq!(config.name, "");
    assert_eq!(config.manifest, "./Cargo.toml");
    assert_eq!(config.config, None);
    assert!(config.line_coverage);
    assert!(!config.branch_coverage);
    assert_eq!(config.test_timeout, Timeout { secs: 60, nanos: 0 });
    assert_eq!(config.run_types, vec![RunType::Tests]);
    assert_eq!(config.output_directory, "");
    assert!(!config.all);

    let config = Config::from_args(&Args {
        branch: true,
        workspace: true,
        ignored: true,
        timeout: Some(3),
        ciserver: Some("codeship".to_string()),
        run_types: vec![RunType::Doctests, RunType::Examples],
        out: vec![OutputFile::Xml, OutputFile::Lcov],
        packages: vec!["p".to_string()],
        exclude: vec!["q".to_string()],
        args: vec!["--nocapture".to_string()],
        features: vec!["f".to_string()],
        unstable_features: vec!["z".to_string()],
        output_dir: Some("/out".to_string()),
        target_dir: Some("/target".to_string()),
        report_uri: Some("http://r".to_string()),
        ..Args::default()
    });
    assert!(!config.line_coverage);
    assert!(config.branch_coverage);
    assert!(config.all);
    assert!(config.run_ignored);
    assert_eq!(config.test_timeout, Timeout { secs: 3, nanos: 0 });
    assert_eq!(config.ci_tool, Some(CiService::Codeship));
    assert_eq!(config.run_types, vec![RunType::Doctests, RunType::Examples]);
    assert_eq!(config.generate, vec![OutputFile::Xml, OutputFile::Lcov]);
    assert_eq!(config.packages, vec!["p".to_string()]);
    assert_eq!(config.exclude, vec!["q".to_string()]);
    assert_eq!(config.varargs, vec!["--nocapture".to_string()]);
    assert_eq!(config.features, vec!["f".to_string()]);
    assert_eq!(config.unstable_features, vec!["z".to_string()]);
    assert_eq!(config.output_directory, "/out");
    assert_eq!(config.target_dir, Some("/target".to_string()));
    assert_eq!(config.report_uri, Some("http://r".to_string()));

    let both = Config::from_args(&Args {
        line: true,
        branch: true,
        all: true,
        ..Args::default()
    });
    assert!(both.line_coverage && both.branch_coverage && both.all);
}

#[test]
fn where_the_profiles_come_from() {
    let args = Args {
        ignore_config: true,
        config: Some("x.toml".to_string()),
        ..Args::default()
    };
    let config = Config::from_args(&args);
    assert_eq!(args.config_source(&config), ConfigSource::ArgsOnly);

    let args = Args {
        config: Some("conf/x.toml".to_string()),
        ..Args::default()
    };
    assert_eq!(
        args.config_source(&Config::from_args(&args)),
        ConfigSource::File {
            path: "conf/x.toml".to_string(),
            relative: true
        }
    );
    let args = Args {
        config: Some("/conf/x.toml".to_string()),
        ..Args::default()
    };
    assert_eq!(
        args.config_source(&Config::from_args(&args)),
        ConfigSource::File {
            path: "/conf/x.toml".to_string(),
            relative: false
        }
    );

    let args = Args {
        manifest_path: Some("/proj/Cargo.toml".to_string()),
        ..Args::default()
    };
    assert_eq!(
        args.config_source(&Config::from_args(&args)),
        ConfigSource::Search(ConfigCandidates {
            primary: "/proj/tarpaulin.toml".to_string(),
            hidden: "/proj/.tarpaulin.toml".to_string(),
        })
    );
    let args = Args {
        manifest_path: Some("/".to_string()),
        ..Args::default()
    };
    assert_eq!(
        args.config_source(&Config::from_args(&args)),
        ConfigSource::ArgsOnly
    );
}

#[test]
fn settings_file_is_looked_for_beside_the_project() {
    let mut config = Config::default();
    config.manifest = "/a/b/Cargo.toml".to_string();
    let places = config.check_for_configs().unwrap();
    assert_eq!(places.primary, "/a/b/tarpaulin.toml");
    assert_eq!(places.hidden, "/a/b/.tarpaulin.toml");

    config.root = Some("/root/dir".to_string());
    let places = config.check_for_configs().unwrap();
    assert_eq!(places.primary, "/root/dir/tarpaulin.toml");
    assert_eq!(places.hidden, "/root/dir/.tarpaulin.toml");

    config.root = None;
    config.manifest = "/".to_string();
    assert_eq!(config.check_for_configs(), None);
    config.manifest = "Cargo.toml".to_string();
    let places = config.check_for_configs().unwrap();
    assert_eq!(places.primary, "tarpaulin.toml");

    let places = Config::check_path_for_configs("dir");
    assert_eq!(
        places.clone().first_existing(true, true),
        Some("dir/tarpaulin.toml".to_string())
    );
    assert_eq!(
        places.clone().first_existing(true, false),
        Some("dir/tarpaulin.toml".to_string())
    );
    assert_eq!(
        places.clone().first_existing(false, true),
        Some("dir/.tarpaulin.toml".to_string())
    );
    assert_eq!(places.first_existing(false, false), None);
}

#[test]
fn base_directory() {
    let mut config = Config::default();
    assert_eq!(
        config.get_base_dir("/cwd"),
        Location::Known("/cwd".to_string())
    );
    config.root = Some("/abs/root".to_string());
    assert_eq!(
        config.get_base_dir("/cwd"),
        Location::Known("/abs/root".to_string())
    );
    config.root = Some("rel/root".to_string());
    assert_eq!(
        config.get_base_dir("/cwd"),
        Location::Unresolved("/cwd/rel/root".to_string())
    );
}

#[test]
fn default_output_directory() {
    let mut config = Config::default();
    config.output_directory = "/cwd/".to_string();
    assert!(config.is_default_output_dir("/cwd"));
    assert!(config.is_default_output_dir("/cwd/."));
    assert!(!config.is_default_output_dir("/cwd/sub"));
    config.output_directory = String::new();
    assert!(!config.is_default_output_dir("/cwd"));
    assert!(config.is_default_output_dir(""));
}

#[test]
fn where_the_manifest_lies() {
    assert_eq!(
        manifest_location(Some("/p/Cargo.toml"), Some("r"), "/cwd"),
        Location::Known("/p/Cargo.toml".to_string())
    );
    assert_eq!(
        manifest_location(Some("p/Cargo.toml"), Some("r"), "/cwd"),
        Location::Unresolved("/cwd/p/Cargo.toml".to_string())
    );
    assert_eq!(
        manifest_location(None, Some("r"), "/cwd"),
        Location::Unresolved("/cwd/r/Cargo.toml".to_string())
    );
    assert_eq!(
        manifest_location(None, Some("/r"), "/cwd"),
        Location::Unresolved("/r/Cargo.toml".to_string())
    );
    assert_eq!(
        manifest_location(None, None, "/cwd"),
        Location::Unresolved("/cwd/Cargo.toml".to_string())
    );
}
