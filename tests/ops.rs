use cargo_solana::cli::{cargo_subcommand_args, Configuration, ExecutionCommand};
use cargo_solana::error::ProgramError;
use cargo_solana::manifest::{
    add_workspace_member, build_program_manifest, manifest_text, merged_init_manifest,
    program_template_as_manifest, project_template_as_manifest,
};
use cargo_solana::ops::{
    create_program, create_program_update_workspace, create_project_program, next_after,
    plan_create, plan_init, FsAction, Progress, Step,
};
use cargo_toml::{Dependency, Manifest};

const VERSION: &str = "1.14.3";

const EXISTING: &str = "[package]\nname = \"existing\"\nversion = \"0.2.0\"\nedition = \"2021\"\n\n[dependencies]\nserde = \"1\"\n";

fn configuration(name: &str, init_manifest: Option<Manifest>) -> Configuration {
    let progm = build_program_manifest(name.to_string(), VERSION.to_string()).unwrap();
    let projm = project_template_as_manifest().unwrap();
    Configuration {
        progname: name.to_string(),
        command: ExecutionCommand::Init,
        init_manifest,
        program_manifest_template: progm,
        project_manifest_template: projm,
    }
}

fn program_text(c: &Configuration) -> String {
    manifest_text(&c.program_manifest_template).unwrap()
}

fn project_text(c: &Configuration) -> String {
    manifest_text(&c.project_manifest_template).unwrap()
}

fn merged_text(c: &Configuration) -> String {
    manifest_text(&merged_init_manifest(c.init_manifest.as_ref().unwrap())).unwrap()
}

fn simple(d: Option<&Dependency>) -> Option<String> {
    match d {
        Some(Dependency::Simple(v)) => Some(v.clone()),
        _ => None,
    }
}

fn written<'a>(steps: &'a [Step], path: &str) -> Option<&'a str> {
    steps.iter().find_map(|s| match &s.action {
        FsAction::WriteFile(p, t) if p == path => Some(t.as_str()),
        _ => None,
    })
}

#[test]
fn test_create_program_pass() {
    let configuration = configuration("foo", None);
    assert!(create_program(&configuration, false, program_text(&configuration)).is_ok());
}

#[test]
fn test_create_program_update_workspace_pass() {
    let exist_cargo = Some(Manifest::from_str(EXISTING).unwrap());
    let mut configuration = configuration("foo", exist_cargo);
    let (prog, merged) = (program_text(&configuration), merged_text(&configuration));
    assert!(create_program_update_workspace(&mut configuration, false, prog, merged).is_ok());
}

#[test]
fn test_create_project_pass() {
    let configuration = configuration("foo-bar", None);
    let (proj, prog) = (project_text(&configuration), program_text(&configuration));
    assert!(create_project_program(&configuration, false, proj, prog).is_ok());
}

#[test]
fn program_manifest_is_filled() {
    let m = build_program_manifest("foo".to_string(), VERSION.to_string()).unwrap();
    assert_eq!(m.package.as_ref().unwrap().name, "foo");
    assert_eq!(simple(m.dependencies.get("solana-program")).as_deref(), Some(VERSION));
    assert_eq!(simple(m.dev_dependencies.get("solana-program-test")).as_deref(), Some(VERSION));
    assert_eq!(simple(m.dev_dependencies.get("solana-sdk")).as_deref(), Some(VERSION));
}

#[test]
fn program_manifest_round_trip() {
    let m = build_program_manifest("round-trip".to_string(), "2.0.1".to_string()).unwrap();
    let text = manifest_text(&m).unwrap();
    let back = Manifest::from_str(&text).unwrap();
    assert_eq!(back.package.as_ref().unwrap().name, "round-trip");
    assert_eq!(simple(back.dependencies.get("solana-program")).as_deref(), Some("2.0.1"));
    assert_eq!(simple(back.dev_dependencies.get("solana-program-test")).as_deref(), Some("2.0.1"));
    assert_eq!(simple(back.dev_dependencies.get("solana-sdk")).as_deref(), Some("2.0.1"));
}

#[test]
fn templates_parse() {
    assert!(program_template_as_manifest().unwrap().package.is_some());
    let proj = project_template_as_manifest().unwrap();
    assert_eq!(proj.workspace.unwrap().members, vec!["program".to_string()]);
}

#[test]
fn configuration_new_builds_manifests() {
    let c = Configuration::new(ExecutionCommand::Create, "demo".to_string(), None, VERSION.to_string())
        .unwrap();
    assert_eq!(c.progname, "demo");
    assert_eq!(c.command, ExecutionCommand::Create);
    assert!(c.init_manifest.is_none());
    assert_eq!(c.program_manifest_template.package.as_ref().unwrap().name, "demo");
}

#[test]
fn subcommand_word_is_dropped() {
    let args: Vec<String> =
        ["cargo-solana", "solana", "create", "-n", "solana"].iter().map(|s| s.to_string()).collect();
    assert_eq!(cargo_subcommand_args(args), vec!["cargo-solana", "create", "-n"]);
    let plain: Vec<String> = ["cargo-solana", "init", "-n", "x"].iter().map(|s| s.to_string()).collect();
    assert_eq!(cargo_subcommand_args(plain.clone()), plain);
}

#[test]
fn create_program_refuses_existing_directory() {
    let configuration = configuration("foo", None);
    assert!(matches!(create_program(&configuration, true, program_text(&configuration)), Err(ProgramError::ProgramExistsError)));
}

#[test]
fn create_project_refuses_existing_directory() {
    let configuration = configuration("demo", None);
    let (proj, prog) = (project_text(&configuration), program_text(&configuration));
    match create_project_program(&configuration, true, proj, prog) {
        Err(ProgramError::ProjectExistsError(n)) => assert_eq!(n, "demo"),
        Err(e) => panic!("unexpected error {:?}", e),
        Ok(_) => panic!("planned steps for an existing project"),
    }
}

#[test]
fn create_program_plan() {
    let configuration = configuration("foo-bar", None);
    let steps = create_program(&configuration, false, program_text(&configuration)).unwrap();
    assert_eq!(steps.len(), 9);
    assert!(matches!(&steps[0].action, FsAction::CreateDir(p) if p == "program"));
    assert!(matches!(&steps[2].action, FsAction::CreateDir(p) if p == "program/src"));
    assert!(steps.iter().all(|s| s.on_failure.is_empty()));
    let manifest = Manifest::from_str(written(&steps, "program/Cargo.toml").unwrap()).unwrap();
    assert_eq!(manifest.package.unwrap().name, "foo-bar");
    let entry = written(&steps, "program/src/entry_point.rs").unwrap();
    assert!(entry.contains("entry point of foo_bar\n"));
}

#[test]
fn create_project_layout() {
    let configuration = configuration("demo", None);
    let steps = plan_create(&configuration, false).unwrap();
    assert!(matches!(&steps[0].action, FsAction::CreateDir(p) if p == "demo"));
    assert!(steps[0].on_failure.is_empty());
    for s in &steps[1..] {
        assert!(matches!(s.on_failure.as_slice(), [FsAction::RemoveDirAll(p)] if p == "demo"));
    }
    assert!(written(&steps, "demo/Cargo.toml").is_some());
    assert!(written(&steps, "demo/program/Cargo.toml").is_some());
    for f in ["entry_point.rs", "error.rs", "instruction.rs", "process.rs", "state.rs", "lib.rs"] {
        assert!(written(&steps, &format!("demo/program/src/{}", f)).is_some(), "{}", f);
    }
    let entry = written(&steps, "demo/program/src/entry_point.rs").unwrap();
    assert!(entry.contains("entry point of demo\n"));
    assert!(!entry.contains("PROGNAME"));
}

#[test]
fn init_adds_workspace_section() {
    let mut configuration = configuration("prog", Some(Manifest::from_str(EXISTING).unwrap()));
    let steps = plan_init(&mut configuration, false).ok().unwrap();
    let n = steps.len();
    assert!(matches!(&steps[n - 3].action, FsAction::Rename(a, b) if a == "Cargo.toml" && b == "CargoSolana.bak"));
    assert!(matches!(&steps[n - 1].action, FsAction::RemoveFile(p) if p == "CargoSolana.bak"));
    assert!(matches!(
        steps[n - 2].on_failure.as_slice(),
        [FsAction::Rename(a, b), FsAction::RemoveDirAll(p)]
            if a == "CargoSolana.bak" && b == "Cargo.toml" && p == "program"
    ));
    let text = written(&steps, "Cargo.toml").unwrap();
    let updated = Manifest::from_str(text).unwrap();
    assert_eq!(updated.workspace.unwrap().members, vec!["program".to_string()]);
    assert_eq!(updated.package.unwrap().name, "existing");
    assert!(updated.dependencies.contains_key("serde"));
    assert!(configuration.init_manifest.unwrap().workspace.is_none());
}

#[test]
fn init_keeps_existing_members() {
    let text = "[workspace]\nmembers = [\"lib-a\", \"program\"]\nexclude = [\"old\"]\n";
    let mut m = Manifest::from_str(text).unwrap();
    add_workspace_member(&mut m, "program");
    let w = m.workspace.as_ref().unwrap();
    assert_eq!(w.members, vec!["lib-a".to_string(), "program".to_string()]);
    assert_eq!(w.exclude, vec!["old".to_string()]);
    add_workspace_member(&mut m, "other");
    assert_eq!(m.workspace.unwrap().members, vec!["lib-a", "program", "other"]);
}

#[test]
fn init_scaffold_failure_removes_program() {
    let mut configuration = configuration("prog", Some(Manifest::from_str(EXISTING).unwrap()));
    let (prog, merged) = (program_text(&configuration), merged_text(&configuration));
    let steps = create_program_update_workspace(&mut configuration, false, prog, merged).ok().unwrap();
    for s in &steps[..steps.len() - 3] {
        assert!(matches!(s.on_failure.as_slice(), [FsAction::RemoveDirAll(p)] if p == "program"));
    }
    match plan_init(&mut configuration, true) {
        Err(abort) => {
            assert!(matches!(abort.error, ProgramError::ProgramExistsError));
            assert!(matches!(abort.cleanup.as_slice(), [FsAction::RemoveDirAll(p)] if p == "program"));
        },
        Ok(_) => panic!("planned steps over an existing program"),
    }
}

#[test]
fn merge_drops_repeated_member() {
    let text = "[workspace]\nmembers = [\"program\", \"a\", \"program\"]\ndefault-members = [\"a\"]\n";
    let m = Manifest::from_str(text).unwrap();
    let merged = merged_init_manifest(&m);
    let w = merged.workspace.unwrap();
    assert_eq!(w.members, vec!["a", "program"]);
    assert_eq!(w.default_members, vec!["a"]);
    assert_eq!(m.workspace.unwrap().members, vec!["program", "a", "program"]);
}

#[test]
fn project_plan_rejects_existing_project() {
    let configuration = configuration("demo", None);
    assert!(matches!(plan_create(&configuration, true), Err(ProgramError::ProjectExistsError(n)) if n == "demo"));
}

#[test]
fn run_progress_after_each_step() {
    let configuration = configuration("foo", Some(Manifest::from_str(EXISTING).unwrap()));
    let (prog, merged) = (program_text(&configuration), merged_text(&configuration));
    let mut configuration = configuration;
    let steps = create_program_update_workspace(&mut configuration, false, prog, merged).ok().unwrap();
    let n = steps.len();
    assert!(matches!(next_after(&steps, 0, Ok(())), Progress::Next(1)));
    assert!(matches!(next_after(&steps, n - 1, Ok(())), Progress::Finished));
    match next_after(&steps, n - 2, Err("disk full".to_string())) {
        Progress::Failed(actions, ProgramError::IoError(m)) => {
            assert_eq!(m, "disk full");
            assert!(matches!(actions.as_slice(), [FsAction::Rename(a, _), FsAction::RemoveDirAll(_)] if a == "CargoSolana.bak"));
        },
        _ => panic!("expected a failure"),
    }
}

#[test]
fn templates_hold_what_is_read_of_them() {
    let prog = program_template_as_manifest().unwrap();
    assert_eq!(prog.package.as_ref().unwrap().name, "PROGNAME");
    assert_eq!(prog.dependencies.len(), 1);
    assert_eq!(simple(prog.dependencies.get("solana-program")).as_deref(), Some("1"));
    assert_eq!(prog.dev_dependencies.len(), 2);
    assert_eq!(simple(prog.dev_dependencies.get("solana-program-test")).as_deref(), Some("1"));
    assert_eq!(simple(prog.dev_dependencies.get("solana-sdk")).as_deref(), Some("1"));
    assert!(prog.workspace.is_none());
    let proj = project_template_as_manifest().unwrap();
    assert!(proj.package.is_none());
    assert!(proj.dependencies.is_empty() && proj.dev_dependencies.is_empty());
    let w = proj.workspace.unwrap();
    assert_eq!(w.members, vec!["program"]);
    assert!(w.default_members.is_empty() && w.exclude.is_empty());
}
