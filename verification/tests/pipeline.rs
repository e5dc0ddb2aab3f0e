use gbindgen::config::{ConfigError, ConfigFile};
use gbindgen::macros::compose_version_macros;
use gbindgen::package::{LocationError, PackageMetadata, WorkspaceMetadata};
use gbindgen::pipeline::{begin, report_lines, step, Action, Event, Options, State};
use gbindgen::version::Version;

fn options(output: Option<&str>, verify: bool) -> Options {
    Options {
        input: "/work".to_string(),
        lockfile: None,
        package_name: None,
        clean: false,
        metadata_file: None,
        output: output.map(|o| o.to_string()),
        verify,
    }
}

fn workspace(version: &str, crate_dir: Option<&str>) -> WorkspaceMetadata {
    WorkspaceMetadata {
        root_package: Some("mylib".to_string()),
        packages: vec![
            PackageMetadata {
                name: "glib".to_string(),
                version: Some("0.9.0".to_string()),
                crate_dir: Some("/deps/glib".to_string()),
            },
            PackageMetadata {
                name: "mylib".to_string(),
                version: Some(version.to_string()),
                crate_dir: crate_dir.map(|d| d.to_string()),
            },
        ],
    }
}

fn resolved(version: &str) -> Event {
    Event::MetadataResolved { metadata: workspace(version, Some("/work/mylib")) }
}

fn probed(text: &str) -> Event {
    Event::ConfigProbed {
        path: "/work/mylib/gbindgen.toml".to_string(),
        file: ConfigFile::Text(text.to_string()),
    }
}

/// Runs up to the point where the artifact is to be written.
fn run_to_generated(options: &Options, content: &[u8]) -> (State, Action) {
    let (state, _) = step(options, State::Start, resolved("2.0.5"));
    let (state, _) = step(options, state, probed("namespace = \"MyLib\"\n"));
    let (state, _) = step(options, state, Event::Proceeded);
    step(options, state, Event::Generated { content: content.to_vec() })
}

#[test]
fn run_begins_with_the_resolver() {
    let mut opts = options(None, false);
    opts.lockfile = Some("Cargo.lock".to_string());
    opts.package_name = Some("mylib".to_string());
    opts.clean = true;
    opts.metadata_file = Some("meta.json".to_string());
    match begin(&opts) {
        Action::ResolveMetadata { request } => {
            assert_eq!(request.input, "/work");
            assert_eq!(request.lockfile, Some("Cargo.lock".to_string()));
            assert_eq!(request.package_name, Some("mylib".to_string()));
            assert!(request.clean);
            assert_eq!(request.metadata_file, Some("meta.json".to_string()));
        }
        other => panic!("unexpected action {:?}", other),
    }
    match begin(&options(None, false)) {
        Action::ResolveMetadata { request } => {
            assert_eq!(request.lockfile, None);
            assert_eq!(request.package_name, None);
            assert!(!request.clean);
            assert_eq!(request.metadata_file, None);
        }
        other => panic!("unexpected action {:?}", other),
    }
}

#[test]
fn whole_run_to_a_file() {
    let opts = options(Some("out.h"), false);

    let (state, action) = step(&opts, State::Start, resolved("2.0.5"));
    assert!(matches!(&state, State::Located { identity }
        if identity.name == "mylib"
            && identity.version == Version { major: 2, minor: 0, micro: 5 }
            && identity.root_directory == "/work/mylib"));
    assert!(matches!(&action, Action::ProbeConfig { root } if root == "/work/mylib"));

    let (state, action) =
        step(&opts, state, probed("namespace = \"MyLib\"\nsys_includes = [\"glib.h\"]\n"));
    assert!(matches!(&state, State::Configured { config, .. }
        if config.namespace == Some("MyLib".to_string())
            && config.sys_includes == vec!["glib.h".to_string()]));
    assert!(matches!(action, Action::Proceed));

    let (state, action) = step(&opts, state, Event::Proceeded);
    assert!(matches!(state, State::VersionComposed));
    match action {
        Action::Generate { settings } => {
            assert_eq!(settings.tab_width, 4);
            assert!(settings.gobject);
            assert_eq!(settings.sys_includes, vec!["glib.h".to_string()]);
            assert_eq!(
                settings.after_includes,
                Some(compose_version_macros("MyLib", Version { major: 2, minor: 0, micro: 5 }))
            );
            assert_eq!(
                settings.header,
                "/* GObject C binding from Rust mylib project, generated with gbindgen: DO NOT EDIT. */"
            );
        }
        other => panic!("unexpected action {:?}", other),
    }

    let (state, action) = step(&opts, state, Event::Generated { content: b"header".to_vec() });
    assert!(matches!(&state, State::Generated { artifact } if artifact == b"header"));
    assert!(matches!(&action, Action::WriteFile { path, content }
        if path == "out.h" && content == b"header"));

    let (state, action) = step(&opts, state, Event::FileWritten { previous: None });
    assert!(matches!(state, State::Written { changed: true }));
    assert!(matches!(action, Action::Exit { code: 0 }));
    assert!(report_lines(&opts, &state).is_empty());
}

#[test]
fn run_to_the_stream() {
    let opts = options(None, true);
    let (state, action) = run_to_generated(&opts, b"header");
    assert!(matches!(&action, Action::WriteStream { content } if content == b"header"));
    let (state, action) = step(&opts, state, Event::StreamWritten);
    assert!(matches!(state, State::Written { changed: false }));
    assert!(matches!(action, Action::Exit { code: 0 }));
    assert!(report_lines(&opts, &state).is_empty());
}

#[test]
fn second_run_with_verify_reports_no_drift() {
    let first = options(Some("out.h"), false);
    let (state, action) = run_to_generated(&first, b"header");
    let written = match action {
        Action::WriteFile { content, .. } => content,
        other => panic!("unexpected action {:?}", other),
    };
    let (_, action) = step(&first, state, Event::FileWritten { previous: None });
    assert!(matches!(action, Action::Exit { code: 0 }));

    let second = options(Some("out.h"), true);
    let (state, _) = run_to_generated(&second, b"header");
    let (state, action) = step(&second, state, Event::FileWritten { previous: Some(written) });
    assert!(matches!(state, State::Written { changed: false }));
    assert!(matches!(action, Action::Exit { code: 0 }));
    assert!(report_lines(&second, &state).is_empty());
}

#[test]
fn new_file_with_verify_counts_as_changed() {
    let opts = options(Some("out.h"), true);
    let (state, action) = run_to_generated(&opts, b"header");
    assert!(matches!(&action, Action::WriteFile { path, content }
        if path == "out.h" && content == b"header"));
    let (state, action) = step(&opts, state, Event::FileWritten { previous: None });
    assert!(matches!(state, State::Written { changed: true }));
    assert!(matches!(action, Action::Exit { code: 2 }));
    assert_eq!(report_lines(&opts, &state), vec!["Bindings changed: out.h".to_string()]);
}

#[test]
fn changed_file_with_verify_exits_with_two() {
    let opts = options(Some("out.h"), true);
    let (state, _) = run_to_generated(&opts, b"new header");
    let (state, action) =
        step(&opts, state, Event::FileWritten { previous: Some(b"old header".to_vec()) });
    assert!(matches!(state, State::Written { changed: true }));
    assert!(matches!(action, Action::Exit { code: 2 }));
}

#[test]
fn changed_file_without_verify_exits_with_zero() {
    let opts = options(Some("out.h"), false);
    let (state, _) = run_to_generated(&opts, b"new header");
    let (state, action) =
        step(&opts, state, Event::FileWritten { previous: Some(b"old header".to_vec()) });
    assert!(matches!(state, State::Written { changed: true }));
    assert!(matches!(action, Action::Exit { code: 0 }));
    assert!(report_lines(&opts, &state).is_empty());
}

#[test]
fn omitted_namespace_fails_before_the_generator() {
    let opts = options(Some("out.h"), true);
    let mut actions = vec![begin(&opts)];
    let (state, action) = step(&opts, State::Start, resolved("2.0.5"));
    actions.push(action);
    let (state, action) = step(&opts, state, probed("sys_includes = [\"glib.h\"]\n"));
    actions.push(action);
    assert!(matches!(&state, State::Configured { config, .. } if config.namespace.is_none()));
    let (state, action) = step(&opts, state, Event::Proceeded);
    actions.push(action);
    assert!(matches!(state, State::VersionCompositionFailed));
    assert!(matches!(actions[3], Action::Exit { code: 1 }));
    assert!(actions.iter().all(|a| !matches!(
        a,
        Action::Generate { .. } | Action::WriteFile { .. } | Action::WriteStream { .. }
    )));
    assert_eq!(
        report_lines(&opts, &state),
        vec![
            "No namespace is configured: the version macros cannot be named.".to_string(),
            "Couldn't generate bindings for /work.".to_string(),
        ]
    );
    // The run has ended: nothing that comes later asks for the generator or a write.
    let (state, action) = step(&opts, state, Event::Generated { content: b"x".to_vec() });
    assert!(matches!(state, State::VersionCompositionFailed));
    assert!(matches!(action, Action::Exit { code: 1 }));
}

#[test]
fn missing_configuration_file_has_no_namespace() {
    let opts = options(None, false);
    let (state, _) = step(&opts, State::Start, resolved("2.0.5"));
    let (state, action) = step(
        &opts,
        state,
        Event::ConfigProbed { path: "/work/mylib/gbindgen.toml".to_string(), file: ConfigFile::Absent },
    );
    assert!(matches!(&state, State::Configured { config, .. }
        if config.namespace.is_none() && config.sys_includes.is_empty()));
    assert!(matches!(action, Action::Proceed));
    let (state, action) = step(&opts, state, Event::Proceeded);
    assert!(matches!(state, State::VersionCompositionFailed));
    assert!(matches!(action, Action::Exit { code: 1 }));
}

#[test]
fn location_failures_end_the_run() {
    let opts = options(None, false);
    let (state, action) = step(
        &opts,
        State::Start,
        Event::MetadataUnresolved { message: "no manifest".to_string() },
    );
    assert!(matches!(&state, State::LocationFailed {
        error: LocationError::Unresolved { message } } if message == "no manifest"));
    assert!(matches!(action, Action::Exit { code: 1 }));
    assert_eq!(
        report_lines(&opts, &state),
        vec!["no manifest".to_string(), "Couldn't generate bindings for /work.".to_string()]
    );

    let (state, action) = step(&opts, State::Start, resolved("two"));
    assert!(matches!(&state, State::LocationFailed {
        error: LocationError::InvalidVersion { version } } if version == "two"));
    assert!(matches!(action, Action::Exit { code: 1 }));
    assert_eq!(
        report_lines(&opts, &state),
        vec![
            "Failed to parse crate version: two.".to_string(),
            "Couldn't generate bindings for /work.".to_string(),
        ]
    );
}

#[test]
fn package_without_directory_is_configured_at_the_input() {
    let opts = options(None, false);
    let event = Event::MetadataResolved { metadata: workspace("1.0.0", None) };
    let (_, action) = step(&opts, State::Start, event);
    assert!(matches!(&action, Action::ProbeConfig { root } if root == "/work"));
}

#[test]
fn named_package_is_the_one_located() {
    let mut opts = options(None, false);
    opts.package_name = Some("glib".to_string());
    let (state, action) = step(&opts, State::Start, resolved("2.0.5"));
    assert!(matches!(&state, State::Located { identity }
        if identity.name == "glib" && identity.version == Version { major: 0, minor: 9, micro: 0 }));
    assert!(matches!(&action, Action::ProbeConfig { root } if root == "/deps/glib"));

    opts.package_name = Some("gio".to_string());
    let (state, action) = step(&opts, State::Start, resolved("2.0.5"));
    assert!(matches!(&state, State::LocationFailed {
        error: LocationError::PackageNotFound { name } } if name == "gio"));
    assert!(matches!(action, Action::Exit { code: 1 }));
}

#[test]
fn configuration_failures_end_the_run() {
    let opts = options(Some("out.h"), false);
    let (state, _) = step(&opts, State::Start, resolved("2.0.5"));
    let (state, action) = step(&opts, state, probed("namespace = \"A\"\nstyle = \"both\"\n"));
    assert!(matches!(&state, State::ConfigurationFailed {
        error: ConfigError::UnknownField { name } } if name == "style"));
    assert!(matches!(action, Action::Exit { code: 1 }));
    assert_eq!(
        report_lines(&opts, &state),
        vec![
            "Couldn't parse config file: unknown field `style`, expected `sys_includes` or `namespace`."
                .to_string(),
            "Couldn't generate bindings for /work.".to_string(),
        ]
    );

    let (state, _) = step(&opts, State::Start, resolved("2.0.5"));
    let (state, action) = step(
        &opts,
        state,
        Event::ConfigProbed { path: "/p/gbindgen.toml".to_string(), file: ConfigFile::Unreadable },
    );
    assert!(matches!(&state, State::ConfigurationFailed {
        error: ConfigError::Unreadable { path } } if path == "/p/gbindgen.toml"));
    assert!(matches!(action, Action::Exit { code: 1 }));
}

#[test]
fn generator_failure_is_forwarded_as_it_came() {
    let opts = options(Some("out.h"), false);
    let (state, _) = step(&opts, State::Start, resolved("2.0.5"));
    let (state, _) = step(&opts, state, probed("namespace = \"A\"\n"));
    let (state, _) = step(&opts, state, Event::Proceeded);
    let (state, action) =
        step(&opts, state, Event::GenerationFailed { message: "parse error in lib.rs".to_string() });
    assert!(matches!(&state, State::GenerationFailed { message }
        if message == "parse error in lib.rs"));
    assert!(matches!(action, Action::Exit { code: 1 }));
    assert_eq!(
        report_lines(&opts, &state),
        vec![
            "parse error in lib.rs".to_string(),
            "Couldn't generate bindings for /work.".to_string(),
        ]
    );
}

#[test]
fn write_failure_ends_the_run() {
    let opts = options(Some("/readonly/out.h"), true);
    let (state, _) = run_to_generated(&opts, b"header");
    let (state, action) =
        step(&opts, state, Event::WriteFailed { message: "permission denied".to_string() });
    assert!(matches!(&state, State::WriteFailed { message } if message == "permission denied"));
    assert!(matches!(action, Action::Exit { code: 1 }));
    assert_eq!(report_lines(&opts, &state), vec!["permission denied".to_string()]);
}

#[test]
fn ended_runs_stay_where_they_are() {
    let opts = options(Some("out.h"), true);
    let (state, action) = step(&opts, State::Written { changed: true }, Event::Proceeded);
    assert!(matches!(state, State::Written { changed: true }));
    assert!(matches!(action, Action::Exit { code: 2 }));
    let (state, action) = step(&opts, State::Written { changed: false }, Event::StreamWritten);
    assert!(matches!(state, State::Written { changed: false }));
    assert!(matches!(action, Action::Exit { code: 0 }));
    let (state, action) = step(
        &opts,
        State::WriteFailed { message: "m".to_string() },
        Event::FileWritten { previous: None },
    );
    assert!(matches!(&state, State::WriteFailed { message } if message == "m"));
    assert!(matches!(action, Action::Exit { code: 1 }));
}

#[test]
fn unawaited_event_ends_the_run_in_failure() {
    let opts = options(Some("out.h"), false);
    let (state, action) = step(&opts, State::Start, Event::Proceeded);
    assert!(matches!(state, State::Start));
    assert!(matches!(action, Action::Exit { code: 1 }));

    let (state, _) = run_to_generated(&opts, b"header");
    let (state, action) = step(&opts, state, Event::StreamWritten);
    assert!(matches!(&state, State::Generated { artifact } if artifact == b"header"));
    assert!(matches!(action, Action::Exit { code: 1 }));

    let stream = options(None, false);
    let (state, _) = run_to_generated(&stream, b"header");
    let (state, action) = step(&stream, state, Event::FileWritten { previous: None });
    assert!(matches!(state, State::Generated { .. }));
    assert!(matches!(action, Action::Exit { code: 1 }));
    assert!(report_lines(&stream, &state).is_empty());
}
