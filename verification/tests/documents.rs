use tarpaulin_config::config::{Config, ConfigError};
use tarpaulin_config::document::{
    is_shallow, read_shallow_document, Entry, Section, Setting, MAX_NESTING,
};
use tarpaulin_config::parse::{
    output_files_from_names, profile_from_table, profiles_from_document, profiles_from_file,
    run_types_from_names,
};
use tarpaulin_config::types::{
    timeout_text_is_bounded, CiService, OutputFile, RunType, Timeout, MAX_TIMEOUT_DIGITS,
};

#[test]
fn config_toml() {
    let toml = "[global]
        ignored= true
        coveralls= \"hello\"

        [other]
        run-types = [\"Doctests\", \"Tests\"]";

    let configs = Config::parse_config_toml(toml.as_bytes()).unwrap();
    assert_eq!(configs.len(), 2);
    for c in &configs {
        if c.name == "global" {
            assert_eq!(c.run_ignored, true);
            assert_eq!(c.coveralls, Some("hello".to_string()));
        } else if c.name == "other" {
            assert_eq!(c.run_types, vec![RunType::Doctests, RunType::Tests]);
        } else {
            panic!("Unexpected name {}", c.name);
        }
    }
}

#[test]
fn excluded_merge() {
    let toml = r#"[a]
        exclude-files = ["target/*"]
        [b]
        exclude-files = ["foo.rs"]
        "#;

    let mut configs = Config::parse_config_toml(toml.as_bytes()).unwrap();
    let mut config = configs.remove(0);
    config.merge(&configs[0]);
    println!("{:?}", configs[0].excluded_files_raw());
    println!("{:?}", config.excluded_files_raw());
    assert!(config
        .excluded_files_raw()
        .contains(&"target/*".to_string()));
    assert!(config.excluded_files_raw().contains(&"foo.rs".to_string()));

    assert_eq!(config.excluded_files_raw().len(), 2);
    assert_eq!(configs[0].excluded_files_raw().len(), 1);
}

#[test]
fn all_toml_options() {
    let toml = r#"[all]
        debug = true
        verbose = true
        ignore-panics = true
        count = true
        ignored = true
        force-clean = true
        branch = true
        forward = true
        coveralls = "hello"
        report-uri = "http://hello.com"
        no-default-features = true
        features = ["a"]
        all-features = true
        workspace = true
        packages = ["pack_1"]
        exclude = ["pack_2"]
        exclude-files = ["fuzz/*"]
        timeout = "5s"
        release = true
        no-run = true
        locked = true
        frozen = true
        target-dir = "/tmp"
        offline = true
        Z = ["something-nightly"]
        out = ["Html"]
        run-types = ["Doctests"]
        root = "/home/rust"
        manifest-path = "/home/rust/foo/Cargo.toml"
        ciserver = "travis-ci"
        args = ["--nocapture"]
        "#;
    let mut configs = Config::parse_config_toml(toml.as_bytes()).unwrap();
    assert_eq!(configs.len(), 1);
    let config = configs.remove(0);
    assert!(config.debug);
    assert!(config.verbose);
    assert!(config.ignore_panics);
    assert!(config.count);
    assert!(config.run_ignored);
    assert!(config.force_clean);
    assert!(config.branch_coverage);
    assert!(config.forward_signals);
    assert_eq!(config.coveralls, Some("hello".to_string()));
    assert_eq!(config.report_uri, Some("http://hello.com".to_string()));
    assert!(config.no_default_features);
    assert!(config.all_features);
    assert!(config.all);
    assert!(config.release);
    assert!(config.no_run);
    assert!(config.locked);
    assert!(config.frozen);
    assert!(config.offline);
    assert_eq!(config.test_timeout, Timeout { secs: 5, nanos: 0 });
    assert_eq!(config.unstable_features.len(), 1);
    assert_eq!(config.unstable_features[0], "something-nightly");
    assert_eq!(config.varargs.len(), 1);
    assert_eq!(config.varargs[0], "--nocapture");
    assert_eq!(config.features.len(), 1);
    assert_eq!(config.features[0], "a");
    assert_eq!(config.excluded_files_raw().len(), 1);
    assert_eq!(config.excluded_files_raw()[0], "fuzz/*");
    assert_eq!(config.packages.len(), 1);
    assert_eq!(config.packages[0], "pack_1");
    assert_eq!(config.exclude.len(), 1);
    assert_eq!(config.exclude[0], "pack_2");
    assert_eq!(config.generate.len(), 1);
    assert_eq!(config.generate[0], OutputFile::Html);
    assert_eq!(config.run_types.len(), 1);
    assert_eq!(config.run_types[0], RunType::Doctests);
    assert_eq!(config.ci_tool, Some(CiService::Travis));
    assert_eq!(config.root, Some("/home/rust".to_string()));
    assert_eq!(config.manifest, "/home/rust/foo/Cargo.toml".to_string());
    assert_eq!(config.target_dir, Some("/tmp".to_string()));
    assert_eq!(config.name, "all");
    assert!(config.line_coverage);
    assert_eq!(config.config, None);
    assert_eq!(config.compiled_patterns(), 0);
}

#[test]
fn absent_settings_keep_their_initial_values() {
    let configs = Config::parse_config_toml(b"[plain]\n").unwrap();
    assert_eq!(configs.len(), 1);
    let config = &configs[0];
    let initial = Config::default();
    assert_eq!(config.name, "plain");
    assert_eq!(initial.name, "");
    assert_eq!(config.manifest, "./Cargo.toml");
    assert_eq!(config.manifest, initial.manifest);
    assert_eq!(config.config, None);
    assert_eq!(config.root, None);
    assert!(!config.run_ignored && !config.ignore_tests && !config.ignore_panics);
    assert!(!config.force_clean && !config.verbose && !config.debug && !config.count);
    assert!(config.line_coverage);
    assert!(!config.branch_coverage);
    assert_eq!(config.output_directory, "");
    assert_eq!(config.coveralls, None);
    assert_eq!(config.ci_tool, None);
    assert_eq!(config.report_uri, None);
    assert!(!config.forward_signals && !config.all_features && !config.no_default_features);
    assert!(!config.all);
    assert_eq!(config.test_timeout, Timeout { secs: 60, nanos: 0 });
    assert_eq!(config.test_timeout, initial.test_timeout);
    assert!(!config.release && !config.no_run && !config.locked && !config.frozen);
    assert_eq!(config.target_dir, None);
    assert!(!config.offline);
    assert_eq!(config.run_types, vec![RunType::Tests]);
    assert_eq!(config.run_types, initial.run_types);
    assert!(config.packages.is_empty() && config.exclude.is_empty());
    assert!(config.excluded_files_raw().is_empty());
    assert!(config.varargs.is_empty() && config.features.is_empty());
    assert!(config.unstable_features.is_empty() && config.generate.is_empty());
    assert!(!config.is_coveralls());
}

#[test]
fn section_name_wins_over_a_name_in_the_table() {
    let configs = Config::parse_config_toml(b"[outer]\nname = \"inner\"\n").unwrap();
    assert_eq!(configs.len(), 1);
    assert_eq!(configs[0].name, "outer");
}

#[test]
fn unknown_keys_are_passed_over() {
    let toml = "[a]\nunheard-of = 3\nnested = { x = 1 }\ncount = true\n";
    let configs = Config::parse_config_toml(toml.as_bytes()).unwrap();
    assert_eq!(configs.len(), 1);
    assert!(configs[0].count);
}

#[test]
fn line_coverage_can_be_switched_off() {
    let configs = Config::parse_config_toml(b"[a]\nline = false\n").unwrap();
    assert!(!configs[0].line_coverage);
}

#[test]
fn either_key_stands_for_the_workspace() {
    let configs = Config::parse_config_toml(b"[a]\nall = true\n").unwrap();
    assert!(configs[0].all);
    let configs = Config::parse_config_toml(b"[a]\nworkspace = true\n").unwrap();
    assert!(configs[0].all);
    let configs = Config::parse_config_toml(b"[a]\nworkspace = false\n").unwrap();
    assert!(!configs[0].all);
    let both = Config::parse_config_toml(b"[a]\nworkspace = true\nall = true\n");
    assert_eq!(
        both.unwrap_err(),
        ConfigError::MalformedDocument("invalid settings in profile a".to_string())
    );
}

#[test]
fn timeout_is_read_as_a_length_of_time() {
    let configs = Config::parse_config_toml(b"[a]\ntimeout = \"1m 30s 5ms\"\n").unwrap();
    assert_eq!(
        configs[0].test_timeout,
        Timeout {
            secs: 90,
            nanos: 5_000_000
        }
    );
    let bad = Config::parse_config_toml(b"[a]\ntimeout = \"soon\"\n");
    assert!(matches!(bad, Err(ConfigError::MalformedDocument(_))));
    let number = Config::parse_config_toml(b"[a]\ntimeout = 5\n");
    assert!(matches!(number, Err(ConfigError::MalformedDocument(_))));
}

#[test]
fn service_names() {
    let named = |name: &str| {
        let toml = format!("[a]\nciserver = \"{}\"\n", name);
        Config::parse_config_toml(toml.as_bytes()).unwrap()[0]
            .ci_tool
            .clone()
    };
    assert_eq!(named("travis-ci"), Some(CiService::Travis));
    assert_eq!(named("travis-pro"), Some(CiService::TravisPro));
    assert_eq!(named("circle-ci"), Some(CiService::Circle));
    assert_eq!(named("semaphore"), Some(CiService::Semaphore));
    assert_eq!(named("jenkins"), Some(CiService::Jenkins));
    assert_eq!(named("codeship"), Some(CiService::Codeship));
    assert_eq!(
        named("homegrown"),
        Some(CiService::Other("homegrown".to_string()))
    );
    assert_eq!(CiService::from_name("jenkins"), CiService::Jenkins);
    assert_eq!(CiService::Circle.duplicate(), CiService::Circle);
}

#[test]
fn names_of_run_types_and_report_formats() {
    assert_eq!(RunType::from_name("Tests"), Some(RunType::Tests));
    assert_eq!(RunType::from_name("Doctests"), Some(RunType::Doctests));
    assert_eq!(RunType::from_name("Benchmarks"), Some(RunType::Benchmarks));
    assert_eq!(RunType::from_name("Examples"), Some(RunType::Examples));
    assert_eq!(RunType::from_name("tests"), None);
    assert_eq!(OutputFile::from_name("Json"), Some(OutputFile::Json));
    assert_eq!(OutputFile::from_name("Toml"), Some(OutputFile::Toml));
    assert_eq!(OutputFile::from_name("Stdout"), Some(OutputFile::Stdout));
    assert_eq!(OutputFile::from_name("Xml"), Some(OutputFile::Xml));
    assert_eq!(OutputFile::from_name("Html"), Some(OutputFile::Html));
    assert_eq!(OutputFile::from_name("Lcov"), Some(OutputFile::Lcov));
    assert_eq!(OutputFile::from_name("Pdf"), None);
    assert_eq!(
        run_types_from_names(&vec!["Examples".to_string(), "Tests".to_string()]),
        Some(vec![RunType::Examples, RunType::Tests])
    );
    assert_eq!(
        run_types_from_names(&vec!["Examples".to_string(), "Nothing".to_string()]),
        None
    );
    assert_eq!(
        output_files_from_names(&vec!["Xml".to_string()]),
        Some(vec![OutputFile::Xml])
    );
    assert_eq!(output_files_from_names(&vec!["xml".to_string()]), None);
    assert_eq!(output_files_from_names(&Vec::new()), Some(Vec::new()));
}

#[test]
fn document_without_sections_is_rejected() {
    assert_eq!(
        Config::parse_config_toml(b"").unwrap_err(),
        ConfigError::EmptyDocument
    );
    assert_eq!(
        profiles_from_document(Ok(Vec::new())).unwrap_err(),
        ConfigError::EmptyDocument
    );
}

#[test]
fn document_that_is_not_well_formed_is_rejected() {
    let parsed = Config::parse_config_toml(b"[a\nignored = true");
    match parsed {
        Err(ConfigError::MalformedDocument(message)) => assert!(!message.is_empty()),
        other => panic!("unexpected {:?}", other.map(|c| c.len())),
    }
    let not_text = Config::parse_config_toml(&[0xff, 0xfe, 0x00]);
    assert!(matches!(
        not_text,
        Err(ConfigError::MalformedDocument(_))
    ));
    assert_eq!(
        profiles_from_document(Err("line 1".to_string())).unwrap_err(),
        ConfigError::MalformedDocument("line 1".to_string())
    );
}

#[test]
fn section_that_is_no_profile_is_rejected() {
    let wrong_kind = Config::parse_config_toml(b"[a]\ncount = true\n[b]\nignored = \"yes\"\n");
    assert_eq!(
        wrong_kind.unwrap_err(),
        ConfigError::MalformedDocument("invalid settings in profile b".to_string())
    );
    let no_table = Config::parse_config_toml(b"top = 1\n");
    assert_eq!(
        no_table.unwrap_err(),
        ConfigError::MalformedDocument("invalid settings in profile top".to_string())
    );
    let mixed_list = Config::parse_config_toml(b"[a]\npackages = [[\"x\"]]\n");
    assert!(matches!(
        mixed_list,
        Err(ConfigError::MalformedDocument(_))
    ));
    let unknown_run_type = Config::parse_config_toml(b"[a]\nrun-types = [\"Sometimes\"]\n");
    assert!(matches!(
        unknown_run_type,
        Err(ConfigError::MalformedDocument(_))
    ));
    let unknown_format = Config::parse_config_toml(b"[a]\nout = [\"Pdf\"]\n");
    assert!(matches!(
        unknown_format,
        Err(ConfigError::MalformedDocument(_))
    ));
}

fn entry(key: &str, value: Setting) -> Entry {
    Entry {
        key: key.to_string(),
        value,
    }
}

#[test]
fn profile_from_a_table_written_by_hand() {
    let table = vec![
        entry("debug", Setting::Flag(true)),
        entry("root", Setting::Text("/r".to_string())),
        entry(
            "exclude-files",
            Setting::List(vec![Some("a*".to_string()), Some("b".to_string())]),
        ),
        entry("debug", Setting::Flag(false)),
        entry("something", Setting::Other),
    ];
    let config = profile_from_table("p", &table).unwrap();
    assert_eq!(config.name, "p");
    assert!(config.debug);
    assert!(!config.verbose);
    assert_eq!(config.root, Some("/r".to_string()));
    assert_eq!(
        config.excluded_files_raw(),
        &vec!["a*".to_string(), "b".to_string()]
    );

    let misfit = vec![entry("features", Setting::List(vec![Some("a".to_string()), None]))];
    assert!(profile_from_table("p", &misfit).is_none());
    let misfit = vec![entry("root", Setting::Flag(true))];
    assert!(profile_from_table("p", &misfit).is_none());
    let misfit = vec![entry("name", Setting::Other)];
    assert!(profile_from_table("p", &misfit).is_none());
}

#[test]
fn first_section_that_is_no_profile_is_named() {
    let sections = vec![
        Section {
            name: "good".to_string(),
            table: Some(Vec::new()),
        },
        Section {
            name: "bad".to_string(),
            table: None,
        },
        Section {
            name: "worse".to_string(),
            table: None,
        },
    ];
    assert_eq!(
        profiles_from_document(Ok(sections)).unwrap_err(),
        ConfigError::MalformedDocument("invalid settings in profile bad".to_string())
    );
}

#[test]
fn loaded_profiles_carry_their_file() {
    let toml = b"[a]\nconfig = \"other.toml\"\n[b]\n".to_vec();
    let configs = Config::load_config_file("/p/tarpaulin.toml", Ok(toml)).unwrap();
    assert_eq!(configs.len(), 2);
    assert_eq!(configs[0].name, "a");
    assert_eq!(configs[1].name, "b");
    for c in &configs {
        assert_eq!(c.config, Some("/p/tarpaulin.toml".to_string()));
    }
    let parsed = Config::parse_config_toml(b"[a]\nconfig = \"other.toml\"\n").unwrap();
    assert_eq!(parsed[0].config, Some("other.toml".to_string()));
    let marked = Config::default().with_config_file("x.toml");
    assert_eq!(marked.config, Some("x.toml".to_string()));
    assert_eq!(marked.manifest, "./Cargo.toml");

    let sections = vec![Section {
        name: "only".to_string(),
        table: Some(Vec::new()),
    }];
    let configs = profiles_from_file("f.toml", Ok(sections)).unwrap();
    assert_eq!(configs[0].config, Some("f.toml".to_string()));
    assert_eq!(
        profiles_from_file("f.toml", Ok(Vec::new())).unwrap_err(),
        ConfigError::EmptyDocument
    );
}

#[test]
fn file_that_cannot_be_read_gives_an_error() {
    let loaded = Config::load_config_file("/p/tarpaulin.toml", Err("no such file".to_string()));
    assert_eq!(
        loaded.unwrap_err(),
        ConfigError::Io("no such file".to_string())
    );
    let empty = Config::load_config_file("/p/tarpaulin.toml", Ok(Vec::new()));
    assert_eq!(empty.unwrap_err(), ConfigError::EmptyDocument);
}

fn one_profile(body: &str) -> Config {
    let toml = format!("[p]\n{}\n", body);
    let mut configs = Config::parse_config_toml(toml.as_bytes()).unwrap();
    assert_eq!(configs.len(), 1);
    configs.remove(0)
}

#[test]
fn every_flag_reaches_its_setting() {
    assert!(one_profile("ignored = true").run_ignored);
    assert!(one_profile("ignore-tests = true").ignore_tests);
    assert!(one_profile("ignore-panics = true").ignore_panics);
    assert!(one_profile("force-clean = true").force_clean);
    assert!(one_profile("verbose = true").verbose);
    assert!(one_profile("debug = true").debug);
    assert!(!one_profile("debug = true").verbose);
    assert!(one_profile("count = true").count);
    assert!(one_profile("line = true").line_coverage);
    assert!(!one_profile("line = false").line_coverage);
    assert!(one_profile("branch = true").branch_coverage);
    assert!(one_profile("forward = true").forward_signals);
    assert!(one_profile("all-features = true").all_features);
    assert!(one_profile("no-default-features = true").no_default_features);
    assert!(one_profile("all = true").all);
    assert!(one_profile("workspace = true").all);
    assert!(one_profile("release = true").release);
    assert!(one_profile("no-run = true").no_run);
    assert!(one_profile("locked = true").locked);
    assert!(one_profile("frozen = true").frozen);
    assert!(one_profile("offline = true").offline);
    let off = one_profile("ignored = false\nrelease = false\nbranch = false");
    assert!(!off.run_ignored && !off.release && !off.branch_coverage);
}

#[test]
fn every_string_reaches_its_setting() {
    assert_eq!(one_profile("manifest-path = \"m/Cargo.toml\"").manifest, "m/Cargo.toml");
    assert_eq!(one_profile("config = \"c.toml\"").config, Some("c.toml".to_string()));
    assert_eq!(one_profile("root = \"r\"").root, Some("r".to_string()));
    assert_eq!(one_profile("output-dir = \"o\"").output_directory, "o");
    assert_eq!(one_profile("coveralls = \"k\"").coveralls, Some("k".to_string()));
    assert!(one_profile("coveralls = \"k\"").is_coveralls());
    assert_eq!(
        one_profile("ciserver = \"semaphore\"").ci_tool,
        Some(CiService::Semaphore)
    );
    assert_eq!(
        one_profile("report-uri = \"http://u\"").report_uri,
        Some("http://u".to_string())
    );
    assert_eq!(one_profile("target-dir = \"t\"").target_dir, Some("t".to_string()));
    assert_eq!(
        one_profile("timeout = \"2min\"").test_timeout,
        Timeout { secs: 120, nanos: 0 }
    );
}

#[test]
fn every_list_reaches_its_setting() {
    let two = vec!["x".to_string(), "y".to_string()];
    assert_eq!(one_profile("packages = [\"x\", \"y\"]").packages, two);
    assert_eq!(one_profile("exclude = [\"x\", \"y\"]").exclude, two);
    assert_eq!(
        one_profile("exclude-files = [\"x\", \"y\"]").excluded_files_raw(),
        &two
    );
    assert_eq!(one_profile("args = [\"x\", \"y\"]").varargs, two);
    assert_eq!(one_profile("features = [\"x\", \"y\"]").features, two);
    assert_eq!(one_profile("Z = [\"x\", \"y\"]").unstable_features, two);
    assert_eq!(
        one_profile("out = [\"Json\", \"Toml\", \"Stdout\", \"Xml\", \"Html\", \"Lcov\"]").generate,
        vec![
            OutputFile::Json,
            OutputFile::Toml,
            OutputFile::Stdout,
            OutputFile::Xml,
            OutputFile::Html,
            OutputFile::Lcov
        ]
    );
    assert_eq!(
        one_profile("run-types = [\"Tests\", \"Doctests\", \"Benchmarks\", \"Examples\"]").run_types,
        vec![
            RunType::Tests,
            RunType::Doctests,
            RunType::Benchmarks,
            RunType::Examples
        ]
    );
    assert!(one_profile("run-types = []").run_types.is_empty());
    assert!(one_profile("packages = []").packages.is_empty());
}

#[test]
fn profiles_come_in_the_order_of_their_names() {
    let configs = Config::parse_config_toml(b"[b]\n[c]\n[a]\n").unwrap();
    let names: Vec<&str> = configs.iter().map(|c| c.name.as_str()).collect();
    assert_eq!(names, vec!["a", "b", "c"]);
}

fn nested_arrays(depth: usize) -> String {
    let mut doc = String::from("[p]\npackages = ");
    for _ in 0..depth {
        doc.push('[');
    }
    for _ in 0..depth {
        doc.push(']');
    }
    doc.push('\n');
    doc
}

fn nested_tables(depth: usize) -> String {
    let mut doc = String::from("[p]\nextra = ");
    for _ in 0..depth {
        doc.push_str("{a=");
    }
    doc.push('1');
    for _ in 0..depth {
        doc.push('}');
    }
    doc.push('\n');
    doc
}

fn dotted(depth: usize) -> String {
    let mut doc = String::from("[p");
    for _ in 0..depth {
        doc.push_str(".a");
    }
    doc.push_str("]\nb");
    for _ in 0..depth {
        doc.push_str(".b");
    }
    doc.push_str(" = 1\n");
    doc
}

const TOO_DEEP: &str = "the document nests too deeply";

#[test]
fn document_up_to_the_nesting_limit_is_read() {
    assert_eq!(MAX_NESTING, 256);
    let deepest = Config::parse_config_toml(nested_arrays(256).as_bytes());
    assert_eq!(
        deepest.unwrap_err(),
        ConfigError::MalformedDocument("invalid settings in profile p".to_string())
    );
    let ignored = Config::parse_config_toml(nested_tables(256).as_bytes()).unwrap();
    assert_eq!(ignored.len(), 1);
    assert_eq!(ignored[0].name, "p");
    let long_names = Config::parse_config_toml(dotted(255).as_bytes()).unwrap();
    assert_eq!(long_names.len(), 1);
    assert_eq!(long_names[0].name, "p");
    assert!(is_shallow(nested_arrays(256).as_bytes()));
    assert!(is_shallow(nested_tables(256).as_bytes()));
    assert!(is_shallow(dotted(255).as_bytes()));
}

#[test]
fn document_beyond_the_nesting_limit_is_rejected() {
    for doc in [
        nested_arrays(257),
        nested_tables(257),
        dotted(256),
        nested_arrays(200_000),
        nested_tables(200_000),
        dotted(200_000),
    ] {
        assert!(!is_shallow(doc.as_bytes()));
        assert_eq!(
            Config::parse_config_toml(doc.as_bytes()).unwrap_err(),
            ConfigError::MalformedDocument(TOO_DEEP.to_string())
        );
        assert_eq!(
            Config::load_config_file("f.toml", Ok(doc.into_bytes())).unwrap_err(),
            ConfigError::MalformedDocument(TOO_DEEP.to_string())
        );
    }
    let mut unclosed = String::from("a = ");
    for _ in 0..300_000 {
        unclosed.push('[');
    }
    assert_eq!(
        read_shallow_document(unclosed.as_bytes()),
        Err(TOO_DEEP.to_string())
    );
    let mut in_an_array = String::from("[p]\nextra = [\n");
    for _ in 0..300 {
        in_an_array.push_str("x = [\n");
    }
    assert_eq!(
        Config::parse_config_toml(in_an_array.as_bytes()).is_err(),
        true
    );
    let mut after_a_long_string = String::from("[p]\nextra = \"\"\"\n");
    for _ in 0..300 {
        after_a_long_string.push_str("x = [\n");
    }
    assert!(!is_shallow(after_a_long_string.as_bytes()));
}

#[test]
fn nesting_starts_again_with_every_key() {
    assert!(is_shallow(b""));
    let mut flat = String::new();
    for i in 0..1000 {
        flat.push_str(&format!(
            "[s{}]\nargs = [\"a.b.c\", \"[[[\"]\nexclude-files = [\"x.rs\"]\n",
            i
        ));
    }
    assert!(is_shallow(flat.as_bytes()));
    let profiles = Config::parse_config_toml(flat.as_bytes()).unwrap();
    assert_eq!(profiles.len(), 1000);
    assert_eq!(profiles[0].varargs, vec!["a.b.c".to_string(), "[[[".to_string()]);

    let mut lines = String::from("[s]\nargs = [\n");
    for _ in 0..1000 {
        lines.push_str("\"a.b.c\",\n");
    }
    lines.push_str("]\n");
    assert!(is_shallow(lines.as_bytes()));
    assert_eq!(
        Config::parse_config_toml(lines.as_bytes()).unwrap()[0]
            .varargs
            .len(),
        1000
    );

    let mut headers = String::new();
    for i in 0..256 {
        headers.push_str(&format!("[s{}]\n", i));
    }
    assert!(is_shallow(headers.as_bytes()));
    assert_eq!(Config::parse_config_toml(headers.as_bytes()).unwrap().len(), 256);
    headers.push_str("[last]\n");
    assert!(!is_shallow(headers.as_bytes()));

    let quoted = "[s]\n\"a\" = [[[[1]]]]\nb = [1]\n";
    assert!(is_shallow(quoted.as_bytes()));
    assert_eq!(Config::parse_config_toml(quoted.as_bytes()).unwrap().len(), 1);
}

#[test]
fn timeout_with_too_many_digits_is_rejected() {
    assert_eq!(MAX_TIMEOUT_DIGITS, 11);
    assert_eq!(
        Timeout::from_text("18446744073709551615s 1000ms"),
        None
    );
    let panicking = Config::parse_config_toml(b"[a]\ntimeout = \"18446744073709551615s 1000ms\"\n");
    assert_eq!(
        panicking.unwrap_err(),
        ConfigError::MalformedDocument("invalid settings in profile a".to_string())
    );
    assert!(timeout_text_is_bounded("12345678901s"));
    assert!(!timeout_text_is_bounded("123456789012s"));
    assert!(timeout_text_is_bounded(""));
    assert!(timeout_text_is_bounded("1y 2M 3w 4d 5h 6m 7s 8ms 9us"));
    assert!(!timeout_text_is_bounded("1111s 2222s 3333ms 4"));
    assert_eq!(
        Timeout::from_text("12345678901s"),
        Some(Timeout {
            secs: 12_345_678_901,
            nanos: 0
        })
    );
    assert_eq!(Timeout::from_text("123456789012s"), None);
    assert_eq!(
        Timeout::from_text("1.5s"),
        Some(Timeout {
            secs: 1,
            nanos: 500_000_000
        })
    );
    assert_eq!(Timeout::from_text("soon"), None);
    assert_eq!(Timeout::from_text(""), None);
}

#[test]
fn section_names_of_a_document_are_distinct() {
    let twice = Config::parse_config_toml(b"[a]\n[a]\n");
    assert!(matches!(twice, Err(ConfigError::MalformedDocument(_))));
    let key_twice = Config::parse_config_toml(b"[a]\ncount = true\ncount = false\n");
    assert!(matches!(key_twice, Err(ConfigError::MalformedDocument(_))));
}

#[test]
fn line_that_looks_like_a_key_within_an_array_ends_the_read() {
    for open in ["[p]\nextra = [\n", "[p]\nextra = [ 1,\n", "[p]\nextra =\n"] {
        for line in [
            "x = [\n",
            "1 = [\n",
            "true = [\n",
            "inf = [\n",
            "1.5 = [\n",
            "1979-05-27 = [\n",
            "a.b = [\n",
            " = [\n",
        ] {
            let mut doc = String::from(open);
            for _ in 0..20_000 {
                doc.push_str(line);
            }
            assert!(is_shallow(doc.as_bytes()));
            assert!(matches!(
                Config::parse_config_toml(doc.as_bytes()),
                Err(ConfigError::MalformedDocument(_))
            ));
        }
    }
}
