use cargo_play::directive::extract_headers;
use cargo_play::edition::RustEdition;
use cargo_play::error::CargoPlayError;
use cargo_play::manifest::{dependency_section, CargoManifest, CargoPackage};
use cargo_play::opt::Opt;
use cargo_play::project::{after_child, after_clean, after_ensure, Outcome};
use cargo_play::run::{begin, step, Action, Event, Stage};
use cargo_play::sources::{copy_plan, place, CopyStep};

fn texts(v: &[&str]) -> Vec<String> {
    v.iter().map(|s| s.to_string()).collect()
}

fn opt_for(src: &str) -> Opt {
    Opt {
        clean: false,
        toolchain: None,
        cache_dir: None,
        edition: RustEdition::E2018,
        release: false,
        cached: false,
        src: src.to_string(),
        args: Vec::new(),
    }
}

fn copy(from: &str, to: &str) -> CopyStep {
    CopyStep { from: from.to_string(), to: to.to_string() }
}

fn run(opt: &Opt, events: &[Event]) -> Vec<Action> {
    let mut stage = Stage::Start;
    let mut actions = Vec::new();
    for event in events {
        let (then, action) = step(opt, stage, *event);
        stage = then;
        actions.push(action);
    }
    actions
}

#[test]
fn package_section() {
    let package = CargoPackage::new(String::from("6w0M1i5v7LTZNjxn_pkGJNOqn70"), RustEdition::E2015);
    assert_eq!(package.name, "6w0m1i5v7ltznjxn_pkgjnoqn70");
    assert_eq!(package.version, "0.1.0");
    assert_eq!(package.edition, "2015");
}

#[test]
fn dependency_section_text() {
    assert_eq!(dependency_section(&Vec::new()), "[dependencies]\n");
    assert_eq!(dependency_section(&texts(&["a = \"1\""])), "[dependencies]\na = \"1\"");
    assert_eq!(
        dependency_section(&texts(&["a = \"1\"", "b = \"2\"", "c = \"3\""])),
        "[dependencies]\na = \"1\"\nb = \"2\"\nc = \"3\""
    );
}

#[test]
fn manifest_with_dependencies() {
    let manifest = CargoManifest::new(
        String::from("Name"),
        texts(&["serde = \"1\"", "rand = { version = \"0.8\" }"]),
        RustEdition::E2018,
    )
    .unwrap();
    assert_eq!(manifest.package.name, "name");
    assert_eq!(manifest.package.version, "0.1.0");
    assert_eq!(manifest.package.edition, "2018");
    let table = manifest.dependencies.get("dependencies").unwrap().as_table().unwrap();
    assert_eq!(table.len(), 2);
    assert_eq!(table.get("serde").unwrap().as_str(), Some("1"));
    assert_eq!(
        table.get("rand").unwrap().get("version").unwrap().as_str(),
        Some("0.8")
    );
}

#[test]
fn manifest_without_dependencies() {
    let manifest = CargoManifest::new(String::from("k"), Vec::new(), RustEdition::E2018).unwrap();
    let table = manifest.dependencies.get("dependencies").unwrap().as_table().unwrap();
    assert!(table.is_empty());
    assert_eq!(manifest.dependencies.as_table().unwrap().len(), 1);
}

#[test]
fn manifest_refuses_a_bad_directive() {
    let bad = CargoManifest::new(String::from("k"), texts(&["this is no toml"]), RustEdition::E2018);
    assert!(matches!(bad, Err(CargoPlayError::ManifestParse(_))));
    let twice = CargoManifest::new(
        String::from("k"),
        texts(&["a = \"1\"", "a = \"2\""]),
        RustEdition::E2018,
    );
    assert!(matches!(twice, Err(CargoPlayError::ManifestParse(_))));
}

#[test]
fn manifest_from_a_parsed_fragment() {
    let value = "[dependencies]\nx = \"1\"".parse::<toml::Value>();
    let expected = value.clone().unwrap();
    let manifest = CargoManifest::with_parsed(String::from("K"), value, RustEdition::E2015).unwrap();
    assert_eq!(manifest.dependencies, expected);
    assert_eq!(manifest.package.name, "k");
    assert_eq!(manifest.package.edition, "2015");
    let error = "[dependencies".parse::<toml::Value>();
    let message = error.clone().unwrap_err().to_string();
    assert_eq!(
        CargoManifest::with_parsed(String::from("K"), error, RustEdition::E2015).unwrap_err(),
        CargoPlayError::ManifestParse(message)
    );
}

#[test]
fn plan_for_the_primary_file_alone() {
    assert_eq!(copy_plan(&Vec::new()), Ok(Vec::new()));
    assert_eq!(
        copy_plan(&texts(&["/work/demo/hello.rs"])),
        Ok(vec![copy("/work/demo/hello.rs", "main.rs")])
    );
    assert_eq!(copy_plan(&texts(&["hello.rs"])), Ok(vec![copy("hello.rs", "main.rs")]));
}

#[test]
fn plan_places_files_relative_to_the_primary_file() {
    let plan = copy_plan(&texts(&[
        "/work/demo/hello.rs",
        "/work/demo/sub/util.rs",
        "/work/demo/other.rs",
        "/work/shared/lib.rs",
    ]));
    assert_eq!(
        plan,
        Ok(vec![
            copy("/work/demo/hello.rs", "main.rs"),
            copy("/work/demo/sub/util.rs", "sub/util.rs"),
            copy("/work/demo/other.rs", "other.rs"),
            copy("/work/shared/lib.rs", "../shared/lib.rs"),
        ])
    );
    assert_eq!(
        copy_plan(&texts(&["demo/hello.rs", "demo/sub/util.rs"])),
        Ok(vec![copy("demo/hello.rs", "main.rs"), copy("demo/sub/util.rs", "sub/util.rs")])
    );
}

#[test]
fn plan_names_the_file_that_has_no_place() {
    assert_eq!(
        copy_plan(&texts(&["/work/demo/hello.rs", "/work/demo/a.rs", "rel/b.rs", "c.rs"])),
        Err(CargoPlayError::DiffPath(String::from("rel/b.rs")))
    );
    assert_eq!(
        copy_plan(&texts(&["../hello.rs", "a.rs"])),
        Err(CargoPlayError::DiffPath(String::from("a.rs")))
    );
}

#[test]
fn plan_without_a_directory_stores_the_primary_file_alone() {
    assert_eq!(copy_plan(&texts(&["/", "/a.rs"])), Ok(vec![copy("/", "main.rs")]));
    assert_eq!(copy_plan(&texts(&["", "a.rs"])), Ok(vec![copy("", "main.rs")]));
}

#[test]
fn place_one_file() {
    assert_eq!(
        place("/a/b.rs", Some(String::from("b.rs"))),
        Ok(copy("/a/b.rs", "b.rs"))
    );
    assert_eq!(
        place("/a/b.rs", None),
        Err(CargoPlayError::DiffPath(String::from("/a/b.rs")))
    );
}

#[test]
fn clean_tolerates_a_missing_directory() {
    assert_eq!(after_clean("/t/d", Outcome::Done), Ok(()));
    assert_eq!(after_clean("/t/d", Outcome::NotFound), Ok(()));
    assert_eq!(
        after_clean("/t/d", Outcome::Failed),
        Err(CargoPlayError::FileSystem(String::from("/t/d")))
    );
    assert_eq!(
        after_clean("/t/d", Outcome::AlreadyExists),
        Err(CargoPlayError::FileSystem(String::from("/t/d")))
    );
}

#[test]
fn ensure_tolerates_an_existing_directory() {
    assert_eq!(after_ensure("/t/d", Outcome::Done), Ok(()));
    assert_eq!(after_ensure("/t/d", Outcome::AlreadyExists), Ok(()));
    assert_eq!(
        after_ensure("/t/d", Outcome::Failed),
        Err(CargoPlayError::FileSystem(String::from("/t/d")))
    );
    assert_eq!(
        after_ensure("/t/d", Outcome::NotFound),
        Err(CargoPlayError::FileSystem(String::from("/t/d")))
    );
}

#[test]
fn build_root_prefers_the_cache_directory() {
    let mut opt = opt_for("/tmp/hello.rs");
    assert_eq!(opt.build_root("/tmp"), "/tmp");
    opt.cache_dir = Some(String::from("/var/cache/play"));
    assert_eq!(opt.build_root("/tmp"), "/var/cache/play");
}

#[test]
fn artifact_path_by_mode() {
    let mut opt = opt_for("/tmp/hello.rs");
    assert_eq!(
        opt.artifact_path(),
        texts(&["target", "debug", "6w0m1i5v7ltznjxn_pkgjnoqn70"])
    );
    opt.release = true;
    assert_eq!(
        opt.artifact_path(),
        texts(&["target", "release", "6w0m1i5v7ltznjxn_pkgjnoqn70"])
    );
}

#[test]
fn build_args_plain() {
    let opt = opt_for("/tmp/hello.rs");
    assert_eq!(
        opt.build_args("/t/d/Cargo.toml"),
        texts(&["build", "--manifest-path", "/t/d/Cargo.toml"])
    );
}

#[test]
fn build_args_with_everything() {
    let mut opt = opt_for("/tmp/hello.rs");
    opt.toolchain = Some(String::from("nightly"));
    opt.release = true;
    opt.args = texts(&["one", "--two"]);
    assert_eq!(
        opt.build_args("/t/d/Cargo.toml"),
        texts(&[
            "+nightly",
            "build",
            "--manifest-path",
            "/t/d/Cargo.toml",
            "--release",
            "--",
            "one",
            "--two"
        ])
    );
}

#[test]
fn cache_hit_goes_straight_to_the_program() {
    let mut opt = opt_for("/tmp/hello.rs");
    opt.cached = true;
    opt.clean = true;
    let hit = Event::Probed { dir_exists: true, artifact_exists: true };
    assert_eq!(
        run(&opt, &[Event::Begin, hit, Event::Ran(Some(7))]),
        vec![Action::Probe, Action::Run, Action::Exit(7)]
    );
}

#[test]
fn cache_miss_runs_the_pipeline() {
    let mut opt = opt_for("/tmp/hello.rs");
    opt.cached = true;
    for (dir_exists, artifact_exists) in [(true, false), (false, false), (false, true)] {
        let miss = Event::Probed { dir_exists, artifact_exists };
        assert_eq!(
            run(
                &opt,
                &[
                    Event::Begin,
                    miss,
                    Event::SourcesRead,
                    Event::Ensured,
                    Event::Synthesized,
                    Event::Materialized,
                    Event::Built(Some(0)),
                    Event::Ran(Some(0))
                ]
            ),
            vec![
                Action::Probe,
                Action::Read,
                Action::Ensure,
                Action::Synthesize,
                Action::Materialize,
                Action::Build,
                Action::Run,
                Action::Exit(0)
            ]
        );
    }
}

#[test]
fn fresh_run_from_start_to_exit() {
    let opt = opt_for("/tmp/hello.rs");
    let source = texts(&["fn main() {\n    println!(\"hi\");\n}\n"]);
    let directives = extract_headers(&source);
    assert_eq!(directives, Vec::<String>::new());
    let manifest = CargoManifest::new(opt.src_hash(), directives, opt.edition).unwrap();
    assert_eq!(manifest.package.name, "6w0m1i5v7ltznjxn_pkgjnoqn70");
    assert!(manifest.dependencies.get("dependencies").unwrap().as_table().unwrap().is_empty());
    assert_eq!(
        copy_plan(&vec![opt.src.clone()]),
        Ok(vec![copy("/tmp/hello.rs", "main.rs")])
    );
    assert_eq!(
        run(
            &opt,
            &[
                Event::Begin,
                Event::SourcesRead,
                Event::Ensured,
                Event::Synthesized,
                Event::Materialized,
                Event::Built(Some(0)),
                Event::Ran(Some(42))
            ]
        ),
        vec![
            Action::Read,
            Action::Ensure,
            Action::Synthesize,
            Action::Materialize,
            Action::Build,
            Action::Run,
            Action::Exit(42)
        ]
    );
}

#[test]
fn clean_comes_after_reading_and_before_creating() {
    let mut opt = opt_for("/tmp/hello.rs");
    opt.clean = true;
    assert_eq!(step(&opt, Stage::Start, Event::Begin), (Stage::Read, Action::Read));
    assert_eq!(
        run(
            &opt,
            &[
                Event::Begin,
                Event::SourcesRead,
                Event::Cleaned,
                Event::Ensured,
                Event::Synthesized,
                Event::Materialized,
                Event::Built(Some(0)),
                Event::Ran(Some(5))
            ]
        ),
        vec![
            Action::Read,
            Action::Clean,
            Action::Ensure,
            Action::Synthesize,
            Action::Materialize,
            Action::Build,
            Action::Run,
            Action::Exit(5)
        ]
    );
}

#[test]
fn failed_read_touches_nothing() {
    for clean in [false, true] {
        let mut opt = opt_for("/tmp/hello.rs");
        opt.clean = clean;
        assert_eq!(
            run(&opt, &[Event::Begin, Event::Failed, Event::Cleaned, Event::Ensured]),
            vec![Action::Read, Action::Abort, Action::Abort, Action::Abort]
        );
        opt.cached = true;
        let miss = Event::Probed { dir_exists: true, artifact_exists: false };
        assert_eq!(
            run(&opt, &[Event::Begin, miss, Event::Failed, Event::SourcesRead]),
            vec![Action::Probe, Action::Read, Action::Abort, Action::Abort]
        );
    }
}

#[test]
fn failed_clean_or_create_stops_the_run() {
    let mut opt = opt_for("/tmp/hello.rs");
    opt.clean = true;
    assert_eq!(
        run(&opt, &[Event::Begin, Event::SourcesRead, Event::Failed, Event::Ensured]),
        vec![Action::Read, Action::Clean, Action::Abort, Action::Abort]
    );
    opt.clean = false;
    assert_eq!(
        run(&opt, &[Event::Begin, Event::SourcesRead, Event::Failed, Event::Synthesized]),
        vec![Action::Read, Action::Ensure, Action::Abort, Action::Abort]
    );
}

#[test]
fn unread_command_line_ends_with_zero() {
    assert_eq!(begin(Vec::new()).unwrap_err(), 0);
    assert_eq!(begin(texts(&["cargo-play"])).unwrap_err(), 0);
    let inv = begin(texts(&["cargo-play", "+nightly", "a.rs", "--", "x"])).unwrap();
    assert_eq!(inv.toolchain, Some(String::from("nightly")));
    assert_eq!(inv.options, texts(&["cargo-play", "a.rs"]));
    assert_eq!(inv.trailing, texts(&["x"]));
}

#[test]
fn failed_build_ends_the_run_with_its_code() {
    let opt = opt_for("/tmp/hello.rs");
    assert_eq!(
        step(&opt, Stage::Build, Event::Built(Some(101))),
        (Stage::Done, Action::Exit(101))
    );
    assert_eq!(
        step(&opt, Stage::Build, Event::Built(Some(-3))),
        (Stage::Done, Action::Exit(-3))
    );
}

#[test]
fn child_without_exit_code_gives_the_fallback() {
    let opt = opt_for("/tmp/hello.rs");
    assert_eq!(step(&opt, Stage::Build, Event::Built(None)), (Stage::Done, Action::Exit(-1)));
    assert_eq!(step(&opt, Stage::Run, Event::Ran(None)), (Stage::Done, Action::Exit(-1)));
    assert_eq!(step(&opt, Stage::Run, Event::Ran(Some(0))), (Stage::Done, Action::Exit(0)));
    assert_eq!(
        run(
            &opt,
            &[
                Event::Begin,
                Event::SourcesRead,
                Event::Ensured,
                Event::Synthesized,
                Event::Materialized,
                Event::Built(None),
                Event::Ran(Some(0))
            ]
        ),
        vec![
            Action::Read,
            Action::Ensure,
            Action::Synthesize,
            Action::Materialize,
            Action::Build,
            Action::Exit(-1),
            Action::Abort
        ]
    );
}

#[test]
fn failure_and_stray_events_abort() {
    let opt = opt_for("/tmp/hello.rs");
    for stage in [
        Stage::Start,
        Stage::CacheCheck,
        Stage::Read,
        Stage::Clean,
        Stage::Ensure,
        Stage::Synthesize,
        Stage::Materialize,
        Stage::Build,
        Stage::Run,
        Stage::Done,
    ] {
        assert_eq!(step(&opt, stage, Event::Failed), (Stage::Done, Action::Abort));
    }
    assert_eq!(step(&opt, Stage::Read, Event::Ensured), (Stage::Done, Action::Abort));
    assert_eq!(step(&opt, Stage::Ensure, Event::Synthesized), (Stage::Done, Action::Abort));
    assert_eq!(step(&opt, Stage::Done, Event::Begin), (Stage::Done, Action::Abort));
}

#[test]
fn child_without_status_is_an_error() {
    assert_eq!(after_child("cargo", Some(Some(0))), Ok(Some(0)));
    assert_eq!(after_child("cargo", Some(Some(101))), Ok(Some(101)));
    assert_eq!(after_child("cargo", Some(None)), Ok(None));
    assert_eq!(
        after_child("cargo", None),
        Err(CargoPlayError::ChildProcess(String::from("cargo")))
    );
}

#[test]
fn ensure_twice_and_clean_of_nothing_succeed() {
    assert_eq!(after_ensure("/t/d", Outcome::Done), Ok(()));
    assert_eq!(after_ensure("/t/d", Outcome::AlreadyExists), Ok(()));
    assert_eq!(after_clean("/t/d", Outcome::NotFound), Ok(()));
    assert_eq!(after_clean("/t/d", Outcome::Done), Ok(()));
    assert_eq!(after_ensure("/t/d", Outcome::Done), Ok(()));
}
