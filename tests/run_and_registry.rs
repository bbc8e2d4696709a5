use dinopkg::cli::Command;
use dinopkg::locate::candidate_dirs;
use dinopkg::package_json::PackageJson;
use dinopkg::registry::{package_url, PackageInfo, ResolveError};
use dinopkg::run_script::{default_shell, exit_outcome, plan_run, RunError, RunPlan};

fn manifest_with_scripts() -> PackageJson {
    PackageJson::parse(
        r#"{"name": "x", "version": "1", "scripts": {"test": "exit 7", "build": "make"}}"#,
    )
    .unwrap()
}

#[test]
fn plan_runs_the_named_script() {
    let m = manifest_with_scripts();
    assert_eq!(
        plan_run(&m, Some("build")),
        Ok(RunPlan::Execute("make".into()))
    );
}

#[test]
fn plan_lists_scripts_in_order() {
    let m = manifest_with_scripts();
    assert_eq!(
        plan_run(&m, None),
        Ok(RunPlan::List(vec![
            ("test".into(), "exit 7".into()),
            ("build".into(), "make".into())
        ]))
    );
}

#[test]
fn missing_script_and_missing_section_differ() {
    let m = manifest_with_scripts();
    assert_eq!(
        plan_run(&m, Some("lint")),
        Err(RunError::ScriptNotFound("lint".into()))
    );
    let bare = PackageJson::parse(r#"{"name": "x", "version": "1"}"#).unwrap();
    assert_eq!(plan_run(&bare, Some("lint")), Err(RunError::NoScriptsDeclared));
    assert_eq!(plan_run(&bare, None), Err(RunError::NoScriptsDeclared));
}

#[test]
fn exit_codes_and_signals() {
    assert_eq!(exit_outcome(Some(0), None), Ok(()));
    assert_eq!(exit_outcome(Some(7), None), Err(RunError::ScriptExitNonZero(7)));
    assert_eq!(exit_outcome(None, Some(9)), Err(RunError::SignalTermination(9)));
    assert_eq!(exit_outcome(Some(0), Some(15)), Err(RunError::SignalTermination(15)));
}

#[test]
fn shells_per_platform() {
    assert_eq!(default_shell(false), ("/bin/sh", "-c"));
    assert_eq!(default_shell(true), ("cmd.exe", "/c"));
}

fn dirs(parts: &[&str]) -> Vec<String> {
    parts.iter().map(|s| s.to_string()).collect()
}

#[test]
fn search_stops_after_max_attempts() {
    let start = dirs(&["home", "u", "proj", "src", "deep"]);
    let c = candidate_dirs(&start, 3);
    assert_eq!(c.len(), 3);
    assert_eq!(c[0], start);
    assert_eq!(c[1], dirs(&["home", "u", "proj", "src"]));
    assert_eq!(c[2], dirs(&["home", "u", "proj"]));
}

#[test]
fn search_reaches_two_levels_up() {
    let start = dirs(&["home", "u", "proj", "src", "deep"]);
    let c = candidate_dirs(&start, 5);
    assert_eq!(c.len(), 5);
    assert!(c.contains(&dirs(&["home", "u", "proj"])));
}

#[test]
fn search_never_goes_above_root() {
    let start = dirs(&["a"]);
    let c = candidate_dirs(&start, 10);
    assert_eq!(c, vec![dirs(&["a"]), dirs(&[])]);
    assert!(candidate_dirs(&start, 0).is_empty());
}

const FIXTURE: &str = r#"{
    "name": "x",
    "versions": {
        "1.0.0": {"name": "x", "version": "1.0.0", "dependencies": {"y": "^2.0.0"}},
        "0.9.0": {"name": "x", "version": "0.9.0"}
    },
    "dist-tags": {"latest": "1.0.0", "beta": "2.0.0-beta"}
}"#;

#[test]
fn latest_resolves_to_its_manifest() {
    let info = PackageInfo::from_body(FIXTURE).unwrap();
    assert_eq!(info.name, "x");
    let m = info.latest().unwrap();
    assert_eq!(m.version, "1.0.0");
    assert_eq!(m.dependencies, Some(vec![("y".into(), "^2.0.0".into())]));
}

#[test]
fn dangling_tag_is_a_lookup_failure() {
    let info = PackageInfo::from_body(FIXTURE).unwrap();
    assert_eq!(
        info.resolve("beta"),
        Err(ResolveError::VersionMissing("2.0.0-beta".into()))
    );
    assert_eq!(
        info.resolve("next"),
        Err(ResolveError::TagMissing("next".into()))
    );
}

#[test]
fn bad_bodies_are_network_errors() {
    assert!(PackageInfo::from_body("<html>").is_err());
    assert!(PackageInfo::from_body(r#"{"name": "x", "versions": {}}"#).is_err());
    assert!(PackageInfo::from_body(r#"{"name": "x", "versions": {"1": 3}, "dist-tags": {}}"#).is_err());
}

#[test]
fn url_is_root_slash_name() {
    assert_eq!(package_url("left-pad"), "https://registry.npmjs.org/left-pad");
    assert_eq!(package_url("@scope/pkg"), "https://registry.npmjs.org/@scope/pkg");
}

#[test]
fn commands_map_to_script_requests() {
    assert_eq!(
        Command::Run { script_name: Some("build".into()) }.script_request(),
        Some(Some("build".into()))
    );
    assert_eq!(Command::Run { script_name: None }.script_request(), Some(None));
    assert_eq!(Command::Test.script_request(), Some(Some("test".into())));
    assert_eq!(Command::Init.script_request(), None);
}
