use realm::config::{directory_path, manifest_path};
use realm::{Config, DependencyError, Reply, Stage, Step};

fn config_at(root: &str) -> Config {
    let mut config = Config::default();
    config.static_dir = root.to_string();
    config
}

fn read_path(step: Step) -> String {
    match step {
        Step::Read { path } => path,
        other => panic!("a read was expected: {:?}", other),
    }
}

fn list_path(step: Step) -> String {
    match step {
        Step::List { path } => path,
        other => panic!("a walk was expected: {:?}", other),
    }
}

fn failure(step: Step) -> DependencyError {
    match step {
        Step::Failed { error } => error,
        other => panic!("a failure was expected: {:?}", other),
    }
}

/// Runs the resolution against an in-memory static tree.
fn resolve(config: &mut Config, latest: Reply, manifest: Reply, walk: Reply) -> Step {
    let mut replies = vec![walk, manifest, latest];
    let mut step = config.init_elm(None);
    loop {
        match step {
            Step::Read { .. } | Step::List { .. } => {
                step = config.init_elm(replies.pop());
            }
            done => return done,
        }
    }
}

#[test]
fn init_elm() {
    let mut config = Config::default();
    config.static_dir = "./examples/basic".into();
    let end = resolve(
        &mut config,
        Reply::Text("v1\n".into()),
        Reply::Text("{\"main\": [\"main.js\"]}".into()),
        Reply::Listed,
    );
    assert!(matches!(end, Step::Done), "could not load init elm");
}

#[test]
fn start_asks_for_the_version_marker() {
    let mut config = config_at("static");
    let step = config.init_elm(None);
    assert_eq!(read_path(step), "static/latest.txt");
    assert_eq!(config.stage, Stage::Latest);
}

#[test]
fn version_is_trimmed_and_names_the_manifest() {
    let mut config = config_at("static");
    config.init_elm(None);
    let step = config.init_elm(Some(Reply::Text("1.2.3\n".into())));
    assert_eq!(config.latest_elm, "1.2.3");
    assert_eq!(read_path(step), "static/deps/1.2.3/deps.json");
    assert_eq!(config.stage, Stage::Deps);
}

#[test]
fn manifest_fills_the_dependencies_and_asks_for_the_walk() {
    let mut config = config_at("static");
    config.init_elm(None);
    config.init_elm(Some(Reply::Text("v1".into())));
    let step = config.init_elm(Some(Reply::Text(
        " {\"main\": [\"main.js\", \"vendor.js\"], \"admin\": []} \n".into(),
    )));
    assert_eq!(list_path(step), "static/deps/v1/");
    assert_eq!(config.stage, Stage::Listing);
    assert_eq!(config.deps.len(), 2);
    assert_eq!(
        config.deps.get("main"),
        Some(&vec!["main.js".to_string(), "vendor.js".to_string()])
    );
    assert_eq!(config.deps.get("admin"), Some(&vec![]));
    assert_eq!(config.deps.get("other"), None);
    assert_eq!(config.deps.entry(0), Some(("admin", &vec![])));
    assert_eq!(config.deps.entry(1).map(|e| e.0), Some("main"));
    assert_eq!(config.deps.entry(2), None);
}

#[test]
fn end_to_end_resolution() {
    let mut config = config_at("static");
    let end = resolve(
        &mut config,
        Reply::Text("v1".into()),
        Reply::Text("{\"main\": [\"main.js\"]}".into()),
        Reply::Listed,
    );
    assert!(matches!(end, Step::Done));
    assert_eq!(config.stage, Stage::Ready);
    assert_eq!(config.latest_elm, "v1");
    assert_eq!(config.deps.len(), 1);
    assert_eq!(config.deps.get("main"), Some(&vec!["main.js".to_string()]));
}

#[test]
fn missing_version_marker_is_not_found() {
    let mut config = config_at("static");
    let end = resolve(&mut config, Reply::Missing, Reply::Missing, Reply::Listed);
    match failure(end) {
        DependencyError::NotFound { path } => assert_eq!(path, "latest.txt"),
        other => panic!("NotFound was expected: {:?}", other),
    }
    assert_eq!(config.stage, Stage::Idle);
}

#[test]
fn missing_manifest_is_not_found() {
    let mut config = config_at("static");
    let end = resolve(&mut config, Reply::Text("v9".into()), Reply::Missing, Reply::Listed);
    match failure(end) {
        DependencyError::NotFound { path } => assert_eq!(path, "deps/v9/deps.json"),
        other => panic!("NotFound was expected: {:?}", other),
    }
    assert_eq!(config.latest_elm, "v9");
}

#[test]
fn invalid_json_is_a_parse_error() {
    let mut config = config_at("static");
    let end = resolve(
        &mut config,
        Reply::Text("v1".into()),
        Reply::Text("{\"main\": [\"main.js\"".into()),
        Reply::Listed,
    );
    assert!(matches!(failure(end), DependencyError::ParseError { .. }));
    assert_eq!(config.deps.len(), 0);
    assert_eq!(config.stage, Stage::Idle);
}

#[test]
fn json_of_another_shape_is_a_parse_error() {
    let mut config = config_at("static");
    let end = resolve(
        &mut config,
        Reply::Text("v1".into()),
        Reply::Text("{\"main\": \"main.js\"}".into()),
        Reply::Listed,
    );
    assert!(matches!(failure(end), DependencyError::ParseError { .. }));
}

#[test]
fn unreadable_file_is_an_io_error() {
    let mut config = config_at("static");
    let end = resolve(
        &mut config,
        Reply::Failed("stream did not contain valid UTF-8".into()),
        Reply::Missing,
        Reply::Listed,
    );
    match failure(end) {
        DependencyError::IoError { message } => {
            assert_eq!(message, "stream did not contain valid UTF-8")
        }
        other => panic!("IoError was expected: {:?}", other),
    }
}

#[test]
fn failed_walk_is_an_io_error() {
    let mut config = config_at("static");
    let end = resolve(
        &mut config,
        Reply::Text("v1".into()),
        Reply::Text("{}".into()),
        Reply::Failed("permission denied".into()),
    );
    match failure(end) {
        DependencyError::IoError { message } => assert_eq!(message, "permission denied"),
        other => panic!("IoError was expected: {:?}", other),
    }
    assert_eq!(config.stage, Stage::Idle);
}

#[test]
fn reply_that_does_not_fit_is_an_io_error() {
    let mut config = config_at("static");
    config.init_elm(None);
    let step = config.init_elm(Some(Reply::Listed));
    match failure(step) {
        DependencyError::IoError { message } => assert_eq!(message, "unexpected reply"),
        other => panic!("IoError was expected: {:?}", other),
    }
    let mut idle = config_at("static");
    let step = idle.init_elm(Some(Reply::Text("v1".into())));
    assert!(matches!(failure(step), DependencyError::IoError { .. }));
    assert_eq!(idle.stage, Stage::Idle);
    assert_eq!(idle.latest_elm, "");
}

#[test]
fn empty_version_is_accepted() {
    let mut config = config_at("static");
    config.init_elm(None);
    let step = config.init_elm(Some(Reply::Text("  \n".into())));
    assert_eq!(config.latest_elm, "");
    assert_eq!(read_path(step), "static/deps//deps.json");
}

#[test]
fn two_resolutions_of_one_tree_agree() {
    let tree = || {
        (
            Reply::Text("v1\n".into()),
            Reply::Text("{\"b\": [\"b.js\"], \"a\": [\"a.js\", \"a.css\"]}".into()),
            Reply::Listed,
        )
    };
    let mut first = config_at("static");
    let mut second = config_at("static");
    second.latest_elm = "stale".into();
    second.deps.insert("stale".into(), vec![]);
    let (l, m, w) = tree();
    assert!(matches!(resolve(&mut first, l, m, w), Step::Done));
    let (l, m, w) = tree();
    assert!(matches!(resolve(&mut second, l, m, w), Step::Done));
    assert_eq!(first.latest_elm, second.latest_elm);
    assert_eq!(first.deps.len(), second.deps.len());
    for at in 0..first.deps.len() + 1 {
        assert_eq!(first.deps.entry(at), second.deps.entry(at));
    }
}

#[test]
fn resolution_can_start_again() {
    let mut config = config_at("static");
    let end = resolve(&mut config, Reply::Missing, Reply::Missing, Reply::Listed);
    assert!(matches!(end, Step::Failed { .. }));
    let end = resolve(
        &mut config,
        Reply::Text("v2".into()),
        Reply::Text("{\"main\": []}".into()),
        Reply::Listed,
    );
    assert!(matches!(end, Step::Done));
    assert_eq!(config.latest_elm, "v2");
}

#[test]
fn content_trims_or_says_why_not() {
    assert_eq!(Config::content("latest.txt", Reply::Text("\t 1.2.3 \r\n".into())).unwrap(), "1.2.3");
    assert_eq!(Config::content("latest.txt", Reply::Text("a b".into())).unwrap(), "a b");
    assert_eq!(Config::content("latest.txt", Reply::Text("".into())).unwrap(), "");
    assert!(matches!(
        Config::content("x/y.txt", Reply::Missing),
        Err(DependencyError::NotFound { path }) if path == "x/y.txt"
    ));
    assert!(matches!(
        Config::content("x/y.txt", Reply::Failed("broken".into())),
        Err(DependencyError::IoError { message }) if message == "broken"
    ));
    assert!(matches!(
        Config::content("x/y.txt", Reply::Listed),
        Err(DependencyError::IoError { message }) if message == "unexpected reply"
    ));
}

#[test]
fn static_path_joins_root_and_rest() {
    let config = config_at("static");
    assert_eq!(config.static_path("latest.txt"), "static/latest.txt");
    assert_eq!(config.static_path("deps/v1/"), "static/deps/v1/");
    let slashed = config_at("static/");
    assert_eq!(slashed.static_path("latest.txt"), "static/latest.txt");
    let rooted = config_at("/srv/static");
    assert_eq!(rooted.static_path("latest.txt"), "/srv/static/latest.txt");
}

#[test]
fn paths_below_the_root() {
    assert_eq!(manifest_path("1.2.3"), "deps/1.2.3/deps.json");
    assert_eq!(directory_path("1.2.3"), "deps/1.2.3/");
}

#[test]
fn defaults_fill_what_is_not_set() {
    let mut config = Config::default();
    assert_eq!(config.static_dir, "");
    assert_eq!(config.stage, Stage::Idle);
    config.fill_defaults();
    assert_eq!(config.static_dir, "static");
    assert_eq!(config.site_icon, "/static/favicon.ico");
    let mut set = Config::default();
    set.static_dir = "assets".into();
    set.site_icon = "/icon.png".into();
    set.fill_defaults();
    assert_eq!(set.static_dir, "assets");
    assert_eq!(set.site_icon, "/icon.png");
}

#[test]
fn texts_of_dependency_errors() {
    assert_eq!(
        DependencyError::NotFound { path: "latest.txt".into() }.to_string(),
        "File not found: latest.txt"
    );
    assert_eq!(DependencyError::IoError { message: "broken pipe".into() }.to_string(), "broken pipe");
    let mut config = config_at("static");
    let end = resolve(&mut config, Reply::Text("v1".into()), Reply::Text("[1".into()), Reply::Listed);
    let text = failure(end).to_string();
    let refused = serde_json::from_str::<std::collections::BTreeMap<String, Vec<String>>>("[1");
    assert_eq!(text, refused.unwrap_err().to_string());
}

#[test]
fn take_manifest_takes_bundles_or_the_refusal() {
    let mut config = config_at("static");
    config.latest_elm = "v3".into();
    let step = config.take_manifest(Ok(vec![
        ("main".to_string(), vec!["main.js".to_string()]),
        ("main".to_string(), vec!["other.js".to_string()]),
    ]));
    assert_eq!(list_path(step), "static/deps/v3/");
    assert_eq!(config.stage, Stage::Listing);
    assert_eq!(config.deps.len(), 1);
    assert_eq!(config.deps.get("main"), Some(&vec!["other.js".to_string()]));

    let refusal = serde_json::from_str::<Vec<String>>("{").unwrap_err();
    let text = refusal.to_string();
    let step = config.take_manifest(Err(refusal));
    match failure(step) {
        DependencyError::ParseError { error } => assert_eq!(error.to_string(), text),
        other => panic!("ParseError was expected: {:?}", other),
    }
    assert_eq!(config.stage, Stage::Idle);
    assert_eq!(config.deps.len(), 1);
}
