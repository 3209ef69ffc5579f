//! The operations of the tool as plans: lists of filesystem steps, each with the
//! rollback to carry out should it fail.
//!
//! A plan is carried out in order, in the directory where the tool runs; the
//! first step that fails stops it: its rollback actions are carried out (their
//! own failures ignored) and the run fails with an I/O error. A plan that
//! cannot be made is an `Abort`: its cleanup actions are carried out and the
//! run fails with its error.

use vstd::prelude::*;
use crate::cli::Configuration;
use crate::error::{CargoResult, ProgramError};
use crate::manifest::{
    is_merged_manifest, lemma_merge_lists_member_once, manifest_text, merged_init_manifest,
    no_duplicates, occurs_once, workspace_members_of,
};
use crate::resources::{files_view, get_program_resources, program_resources};
use cargo_toml::Manifest;

verus! {

/// The directory of a program.
pub const PROGRAM_DIR: &'static str = "program";

/// The source directory inside a program's directory.
pub const SRC_DIR: &'static str = "src";

/// The name of a manifest file.
pub const MANIFEST_FILE: &'static str = "Cargo.toml";

/// The name that the current manifest has while it is being replaced.
pub const BACKUP_FILE: &'static str = "CargoSolana.bak";

/// One filesystem operation, on paths relative to the directory where the tool runs.
pub enum FsAction {
    /// Create the directory.
    CreateDir(String),
    /// Create or truncate the file and write the text into it.
    WriteFile(String, String),
    /// Rename the first path to the second.
    Rename(String, String),
    /// Delete the file.
    RemoveFile(String),
    /// Delete the directory with everything in it.
    RemoveDirAll(String),
}

/// The view of an `FsAction`.
pub enum ActionView {
    CreateDir(Seq<char>),
    WriteFile(Seq<char>, Seq<char>),
    Rename(Seq<char>, Seq<char>),
    RemoveFile(Seq<char>),
    RemoveDirAll(Seq<char>),
}

impl View for FsAction {
    type V = ActionView;

    open spec fn view(&self) -> ActionView {
        match self {
            FsAction::CreateDir(p) => ActionView::CreateDir(p@),
            FsAction::WriteFile(p, t) => ActionView::WriteFile(p@, t@),
            FsAction::Rename(p, q) => ActionView::Rename(p@, q@),
            FsAction::RemoveFile(p) => ActionView::RemoveFile(p@),
            FsAction::RemoveDirAll(p) => ActionView::RemoveDirAll(p@),
        }
    }
}

/// One step of a plan: an action, and what undoes the plan should it fail.
pub struct Step {
    pub action: FsAction,
    pub on_failure: Vec<FsAction>,
}

/// A plan that could not be made: the error, and the actions to carry out before
/// reporting it.
pub struct Abort {
    pub error: ProgramError,
    pub cleanup: Vec<FsAction>,
}

/// The views of a list of actions.
pub open spec fn actions_view(a: Seq<FsAction>) -> Seq<ActionView> {
    a.map_values(|x: FsAction| x@)
}

impl View for Step {
    type V = (ActionView, Seq<ActionView>);

    open spec fn view(&self) -> (ActionView, Seq<ActionView>) {
        (self.action@, actions_view(self.on_failure@))
    }
}

/// The views of a list of steps.
pub open spec fn steps_view(s: Seq<Step>) -> Seq<(ActionView, Seq<ActionView>)> {
    s.map_values(|x: Step| x@)
}

/// Each action as a step with the same rollback.
pub open spec fn with_rollback(actions: Seq<ActionView>, rollback: Seq<ActionView>) -> Seq<
    (ActionView, Seq<ActionView>),
> {
    actions.map_values(|a: ActionView| (a, rollback))
}

/// The path `b` inside the directory `a`.
pub open spec fn join(a: Seq<char>, b: Seq<char>) -> Seq<char> {
    a + seq!['/'] + b
}

/// The name with every `-` replaced by `_`, as a Rust identifier needs.
pub open spec fn underscored(name: Seq<char>) -> Seq<char> {
    name.map_values(|c: char| if c == '-' { '_' } else { c })
}

/// The actions that create a program in the directory `dir`: the directory, its
/// manifest with the text `manifest_text`, its source directory and the source
/// files for the underscored name.
pub open spec fn program_actions(dir: Seq<char>, manifest_text: Seq<char>, name: Seq<char>) -> Seq<
    ActionView,
> {
    seq![
        ActionView::CreateDir(dir),
        ActionView::WriteFile(join(dir, MANIFEST_FILE@), manifest_text),
        ActionView::CreateDir(join(dir, SRC_DIR@)),
    ] + program_resources(underscored(name)).map_values(
        |f: (Seq<char>, Seq<char>)| ActionView::WriteFile(join(join(dir, SRC_DIR@), f.0), f.1),
    )
}

/// The path `b` inside the directory `a`.
fn join_path(a: &str, b: &str) -> (r: String)
    ensures
        r@ == join(a@, b@),
{
    proof {
        reveal_strlit("/");
    }
    let mut r = String::from_str(a);
    r.append("/");
    r.append(b);
    r
}

/// The name with every `-` replaced by `_`.
pub fn underscore_name(name: &str) -> (r: String)
    ensures
        r@ == underscored(name@),
{
    let n = name.unicode_len();
    let mut r = String::new();
    let mut i: usize = 0;
    while i < n
        invariant
            i <= n,
            n == name@.len(),
            r@.len() == i,
            r@ == underscored(name@).subrange(0, i as int),
        decreases n - i,
    {
        let c = name.get_char(i);
        let ghost prev = r@;
        if c == '-' {
            r.append("_");
            proof {
                reveal_strlit("_");
            }
            assert(r@ =~= prev.push('_'));
        } else {
            r.append(name.substring_char(i, i + 1));
            assert(r@ =~= prev.push(c));
        }
        assert(underscored(name@)[i as int] == if c == '-' { '_' } else { c });
        assert(r@ =~= underscored(name@).subrange(0, i as int + 1));
        i = i + 1;
    }
    assert(r@ =~= underscored(name@));
    r
}

/// A copy of an action.
fn copy_action(a: &FsAction) -> (r: FsAction)
    ensures
        r@ == a@,
{
    match a {
        FsAction::CreateDir(p) => FsAction::CreateDir(p.clone()),
        FsAction::WriteFile(p, t) => FsAction::WriteFile(p.clone(), t.clone()),
        FsAction::Rename(p, q) => FsAction::Rename(p.clone(), q.clone()),
        FsAction::RemoveFile(p) => FsAction::RemoveFile(p.clone()),
        FsAction::RemoveDirAll(p) => FsAction::RemoveDirAll(p.clone()),
    }
}

/// A copy of a list of actions.
fn copy_actions(v: &Vec<FsAction>) -> (r: Vec<FsAction>)
    ensures
        actions_view(r@) == actions_view(v@),
{
    let mut r: Vec<FsAction> = Vec::new();
    let mut i: usize = 0;
    while i < v.len()
        invariant
            i <= v.len(),
            r@.len() == i,
            actions_view(r@) == actions_view(v@).subrange(0, i as int),
        decreases v.len() - i,
    {
        r.push(copy_action(&v[i]));
        assert(actions_view(r@) =~= actions_view(v@).subrange(0, i as int + 1));
        i = i + 1;
    }
    assert(actions_view(r@) =~= actions_view(v@));
    r
}

/// Appends each action to `steps` as a step with the rollback `on_failure`.
fn push_steps(steps: &mut Vec<Step>, actions: &Vec<FsAction>, on_failure: &Vec<FsAction>)
    ensures
        steps_view(final(steps)@) == steps_view(old(steps)@) + with_rollback(
            actions_view(actions@),
            actions_view(on_failure@),
        ),
{
    let ghost start = steps_view(steps@);
    let mut i: usize = 0;
    while i < actions.len()
        invariant
            i <= actions.len(),
            steps@.len() == start.len() + i,
            steps_view(steps@) == start + with_rollback(
                actions_view(actions@).subrange(0, i as int),
                actions_view(on_failure@),
            ),
        decreases actions.len() - i,
    {
        let step = Step { action: copy_action(&actions[i]), on_failure: copy_actions(on_failure) };
        let ghost prev = steps_view(steps@);
        steps.push(step);
        assert(steps_view(steps@) =~= prev.push((actions@[i as int]@, actions_view(on_failure@))));
        assert(steps_view(steps@) =~= start + with_rollback(
            actions_view(actions@).subrange(0, i as int + 1),
            actions_view(on_failure@),
        ));
        i = i + 1;
    }
    assert(actions_view(actions@).subrange(0, actions@.len() as int) =~= actions_view(actions@));
}

/// The actions that create a program in the directory `dir`.
fn program_actions_in(dir: &str, manifest_text: String, progname: &str) -> (r: Vec<FsAction>)
    ensures
        actions_view(r@) == program_actions(dir@, manifest_text@, progname@),
{
    let src = join_path(dir, SRC_DIR);
    let mut r = vec![
        FsAction::CreateDir(String::from_str(dir)),
        FsAction::WriteFile(join_path(dir, MANIFEST_FILE), manifest_text),
        FsAction::CreateDir(src.clone()),
    ];
    let ghost head = actions_view(r@);
    let files = get_program_resources(underscore_name(progname));
    let ghost fs = files_view(files@);
    let ghost write = |f: (Seq<char>, Seq<char>)| ActionView::WriteFile(join(src@, f.0), f.1);
    let mut i: usize = 0;
    while i < files.len()
        invariant
            i <= files.len(),
            r@.len() == 3 + i,
            head.len() == 3,
            fs == files_view(files@),
            write == (|f: (Seq<char>, Seq<char>)| ActionView::WriteFile(join(src@, f.0), f.1)),
            actions_view(r@) == head + fs.subrange(0, i as int).map_values(write),
        decreases files.len() - i,
    {
        let path = join_path(src.as_str(), files[i].0.as_str());
        let ghost prev = actions_view(r@);
        r.push(FsAction::WriteFile(path, files[i].1.clone()));
        assert(fs[i as int] == (files@[i as int].0@, files@[i as int].1@));
        assert(actions_view(r@) =~= prev.push(write(fs[i as int])));
        assert(actions_view(r@) =~= head + fs.subrange(0, i as int + 1).map_values(write));
        i = i + 1;
    }
    assert(fs.subrange(0, fs.len() as int) =~= fs);
    assert(actions_view(r@) =~= program_actions(dir@, manifest_text@, progname@));
    r
}

/// The steps that create a program in `dir`, each with the rollback `on_failure`.
fn program_steps(dir: &str, progname: &str, program_text: String, on_failure: &Vec<FsAction>) -> (r:
    Vec<Step>)
    ensures
        steps_view(r@) == with_rollback(
            program_actions(dir@, program_text@, progname@),
            actions_view(on_failure@),
        ),
{
    let actions = program_actions_in(dir, program_text, progname);
    let mut steps: Vec<Step> = Vec::new();
    push_steps(&mut steps, &actions, on_failure);
    assert(steps_view(steps@) =~= with_rollback(actions_view(actions@), actions_view(on_failure@)));
    steps
}

/// The plan that creates the program's directory, `program`, in the current
/// directory: the directory, its manifest with the text `program_text`, its
/// `src` directory and the source files. It fails with `ProgramExistsError`,
/// and plans nothing, where that directory exists already. No step has a
/// rollback: the caller removes what was created.
pub fn create_program(config: &Configuration, program_exists: bool, program_text: String) -> (r:
    CargoResult<Vec<Step>>)
    ensures
        program_exists ==> r matches Err(ProgramError::ProgramExistsError),
        !program_exists ==> (r matches Ok(s) && steps_view(s@) == with_rollback(
            program_actions(PROGRAM_DIR@, program_text@, config.progname@),
            seq![],
        )),
{
    if program_exists {
        return Err(ProgramError::ProgramExistsError);
    }
    let none: Vec<FsAction> = Vec::new();
    assert(actions_view(none@) =~= seq![]);
    Ok(program_steps(PROGRAM_DIR, config.progname.as_str(), program_text, &none))
}

/// The plan of `create_project_program` for the project `name`, the project
/// manifest text `project_text` and the program manifest text `program_text`:
/// every step after the first removes the project directory should it fail.
pub open spec fn project_steps(name: Seq<char>, project_text: Seq<char>, program_text: Seq<char>) -> Seq<
    (ActionView, Seq<ActionView>),
> {
    let undo = seq![ActionView::RemoveDirAll(name)];
    seq![
        (ActionView::CreateDir(name), seq![]),
        (ActionView::WriteFile(join(name, MANIFEST_FILE@), project_text), undo),
    ] + with_rollback(program_actions(join(name, PROGRAM_DIR@), program_text, name), undo)
}

/// The plan that creates a project directory named after the program, with the
/// project manifest (text `project_text`) and, inside it, the program (manifest
/// text `program_text`); should a step after the first fail, the project
/// directory is removed. It fails with `ProjectExistsError`, and plans nothing,
/// where that directory exists already.
pub fn create_project_program(
    config: &Configuration,
    project_exists: bool,
    project_text: String,
    program_text: String,
) -> (r: CargoResult<Vec<Step>>)
    ensures
        project_exists ==> (r matches Err(ProgramError::ProjectExistsError(n)) && n@
            == config.progname@),
        !project_exists ==> (r matches Ok(s) && steps_view(s@) == project_steps(
            config.progname@,
            project_text@,
            program_text@,
        )),
{
    if project_exists {
        return Err(ProgramError::ProjectExistsError(config.progname.clone()));
    }
    let name = config.progname.as_str();
    let ghost program_view = program_text@;
    let undo = vec![FsAction::RemoveDirAll(config.progname.clone())];
    assert(actions_view(undo@) =~= seq![ActionView::RemoveDirAll(name@)]);
    let program_dir = join_path(name, PROGRAM_DIR);
    let mut program = program_steps(program_dir.as_str(), name, program_text, &undo);
    let mut steps = vec![
        Step { action: FsAction::CreateDir(config.progname.clone()), on_failure: Vec::new() },
        Step {
            action: FsAction::WriteFile(join_path(name, MANIFEST_FILE), project_text),
            on_failure: copy_actions(&undo),
        },
    ];
    assert(actions_view(steps@[0].on_failure@) =~= seq![]);
    let ghost project_view = match steps@[1].action {
        FsAction::WriteFile(_, t) => t@,
        _ => Seq::empty(),
    };
    steps.append(&mut program);
    assert(steps_view(steps@) =~= project_steps(name@, project_view, program_view));
    Ok(steps)
}

/// What removes the program's directory.
pub open spec fn program_cleanup() -> Seq<ActionView> {
    seq![ActionView::RemoveDirAll(PROGRAM_DIR@)]
}

/// The plan of `create_program_update_workspace`, for the program manifest text
/// `program_text` and the updated manifest text `manifest_text`: the program is
/// created, the current manifest is renamed to the backup, the updated manifest
/// is written, and the backup is removed. Until the manifest is written, a
/// failure removes the program's directory; a failed write also puts the
/// backup back in place.
pub open spec fn workspace_steps(program_text: Seq<char>, name: Seq<char>, manifest_text: Seq<char>) -> Seq<
    (ActionView, Seq<ActionView>),
> {
    with_rollback(program_actions(PROGRAM_DIR@, program_text, name), program_cleanup()) + seq![
        (ActionView::Rename(MANIFEST_FILE@, BACKUP_FILE@), program_cleanup()),
        (
            ActionView::WriteFile(MANIFEST_FILE@, manifest_text),
            seq![
                ActionView::Rename(BACKUP_FILE@, MANIFEST_FILE@),
                ActionView::RemoveDirAll(PROGRAM_DIR@),
            ],
        ),
        (ActionView::RemoveFile(BACKUP_FILE@), seq![]),
    ]
}

/// An abort that removes the program's directory before the error is reported.
fn abort_program(error: ProgramError) -> (r: Abort)
    ensures
        r.error == error,
        actions_view(r.cleanup@) == program_cleanup(),
{
    let cleanup = vec![FsAction::RemoveDirAll(String::from_str(PROGRAM_DIR))];
    assert(actions_view(cleanup@) =~= program_cleanup());
    Abort { error, cleanup }
}

/// The plan that adds a program (manifest text `program_text`) to the current
/// directory and replaces the current manifest by `manifest_text`, the manifest
/// with the program in its workspace. Where the `program` directory exists
/// already, the plan is an abort that removes that directory.
pub fn create_program_update_workspace(
    config: &mut Configuration,
    program_exists: bool,
    program_text: String,
    manifest_text: String,
) -> (r: Result<Vec<Step>, Abort>)
    ensures
        *final(config) == *old(config),
        program_exists ==> (r matches Err(a) && a.error is ProgramExistsError && actions_view(
            a.cleanup@,
        ) == program_cleanup()),
        !program_exists ==> (r matches Ok(s) && steps_view(s@) == workspace_steps(
            program_text@,
            old(config).progname@,
            manifest_text@,
        )),
{
    if program_exists {
        return Err(abort_program(ProgramError::ProgramExistsError));
    }
    let cleanup = vec![FsAction::RemoveDirAll(String::from_str(PROGRAM_DIR))];
    assert(actions_view(cleanup@) =~= program_cleanup());
    let ghost manifest_view = manifest_text@;
    let mut steps = program_steps(PROGRAM_DIR, config.progname.as_str(), program_text, &cleanup);
    let ghost program_part = steps_view(steps@);
    let rename = Step {
        action: FsAction::Rename(String::from_str(MANIFEST_FILE), String::from_str(BACKUP_FILE)),
        on_failure: copy_actions(&cleanup),
    };
    let write = Step {
        action: FsAction::WriteFile(String::from_str(MANIFEST_FILE), manifest_text),
        on_failure: vec![
            FsAction::Rename(String::from_str(BACKUP_FILE), String::from_str(MANIFEST_FILE)),
            FsAction::RemoveDirAll(String::from_str(PROGRAM_DIR)),
        ],
    };
    let remove = Step {
        action: FsAction::RemoveFile(String::from_str(BACKUP_FILE)),
        on_failure: Vec::new(),
    };
    assert(write@.1 =~= seq![
        ActionView::Rename(BACKUP_FILE@, MANIFEST_FILE@),
        ActionView::RemoveDirAll(PROGRAM_DIR@),
    ]);
    assert(remove@.1 =~= seq![]);
    steps.push(rename);
    steps.push(write);
    steps.push(remove);
    assert(steps_view(steps@) =~= program_part + seq![rename@, write@, remove@]);
    assert(steps_view(steps@) =~= workspace_steps(
        steps_view(steps@)[1].0->WriteFile_1,
        config.progname@,
        manifest_view,
    ));
    Ok(steps)
}

/// The plan of the `create` command: the project manifest and the program
/// manifest of the configuration are serialized and handed to
/// `create_project_program`. It fails with `ProjectExistsError` where the
/// project directory exists, otherwise only where a manifest cannot be
/// serialized.
pub fn plan_create(config: &Configuration, project_exists: bool) -> (r: CargoResult<Vec<Step>>)
    ensures
        project_exists ==> (r matches Err(ProgramError::ProjectExistsError(n)) && n@
            == config.progname@),
        !project_exists ==> (r matches Err(e) ==> e is TomlError),
        r matches Ok(s) ==> exists|project_text: Seq<char>, program_text: Seq<char>|
            #![trigger project_steps(config.progname@, project_text, program_text)]
            steps_view(s@) == project_steps(config.progname@, project_text, program_text),
{
    if project_exists {
        return Err(ProgramError::ProjectExistsError(config.progname.clone()));
    }
    let project_text = manifest_text(&config.project_manifest_template)?;
    let program_text = manifest_text(&config.program_manifest_template)?;
    let ghost pt = project_text@;
    let ghost t = program_text@;
    let r = create_project_program(config, false, project_text, program_text);
    assert(r matches Ok(s) && steps_view(s@) == project_steps(config.progname@, pt, t));
    r
}

/// The plan of the `init` command: where the `program` directory is free, the
/// program manifest and the current manifest with `program` added to its
/// workspace are serialized and handed to `create_program_update_workspace`.
/// Every abort removes the `program` directory; apart from an existing one, it
/// comes only of a manifest that cannot be serialized.
pub fn plan_init(config: &mut Configuration, program_exists: bool) -> (r: Result<Vec<Step>, Abort>)
    requires
        old(config).init_manifest is Some,
    ensures
        *final(config) == *old(config),
        r matches Err(a) ==> actions_view(a.cleanup@) == program_cleanup(),
        program_exists ==> (r matches Err(a) && a.error is ProgramExistsError),
        !program_exists ==> (r matches Err(a) ==> a.error is TomlError),
        r matches Ok(s) ==> exists|program_text: Seq<char>, updated: Manifest, text: Seq<char>|
            #![trigger workspace_steps(program_text, old(config).progname@, text), is_merged_manifest(updated, old(config).init_manifest->Some_0)]
            is_merged_manifest(updated, old(config).init_manifest->Some_0) && steps_view(s@)
                == workspace_steps(program_text, old(config).progname@, text),
{
    if program_exists {
        return Err(abort_program(ProgramError::ProgramExistsError));
    }
    let program_text = match manifest_text(&config.program_manifest_template) {
        Ok(t) => t,
        Err(e) => return Err(abort_program(e)),
    };
    let updated = match &config.init_manifest {
        Some(m) => merged_init_manifest(m),
        None => unreached(),
    };
    let text = match manifest_text(&updated) {
        Ok(t) => t,
        Err(e) => return Err(abort_program(e)),
    };
    let ghost pt = program_text@;
    let ghost tt = text@;
    let r = create_program_update_workspace(config, false, program_text, text);
    assert(is_merged_manifest(updated, config.init_manifest->Some_0));
    assert(r matches Ok(s) && steps_view(s@) == workspace_steps(pt, config.progname@, tt));
    r
}

/// What follows a step of a plan that is being carried out.
pub enum Progress {
    /// Carry out the step at this index.
    Next(usize),
    /// Every step has succeeded.
    Finished,
    /// A step failed: carry out these actions, ignoring their failures, and
    /// report the error.
    Failed(Vec<FsAction>, ProgramError),
}

/// What follows the step at `index` of `steps` once it has been carried out:
/// after a success the next step, or the end; after a failure (with its
/// message) the step's rollback and an I/O error.
pub fn next_after(steps: &Vec<Step>, index: usize, outcome: Result<(), String>) -> (r: Progress)
    requires
        index < steps@.len(),
    ensures
        outcome is Ok && index + 1 < steps@.len() ==> r == Progress::Next((index + 1) as usize),
        outcome is Ok && index + 1 == steps@.len() ==> r == Progress::Finished,
        outcome matches Err(m) ==> (r matches Progress::Failed(actions, ProgramError::IoError(e))
            && actions_view(actions@) == actions_view(steps@[index as int].on_failure@) && e@
            == m@),
{
    match outcome {
        Ok(()) => if index < steps.len() - 1 {
            Progress::Next(index + 1)
        } else {
            Progress::Finished
        },
        Err(m) => Progress::Failed(copy_actions(&steps[index].on_failure), ProgramError::IoError(m)),
    }
}

/// Whether the action brings the path `p` into being.
pub open spec fn creates(a: ActionView, p: Seq<char>) -> bool {
    match a {
        ActionView::CreateDir(q) => q == p,
        ActionView::WriteFile(q, _) => q == p,
        ActionView::Rename(_, q) => q == p,
        _ => false,
    }
}

/// Whether the path `p` is the directory `dir` or lies inside it.
pub open spec fn within(p: Seq<char>, dir: Seq<char>) -> bool {
    p == dir || (p.len() > dir.len() && p.subrange(0, dir.len() as int + 1) == dir + seq!['/'])
}

/// Whether the action touches nothing outside the directory `dir`.
pub open spec fn action_within(a: ActionView, dir: Seq<char>) -> bool {
    match a {
        ActionView::CreateDir(p) => within(p, dir),
        ActionView::WriteFile(p, _) => within(p, dir),
        ActionView::Rename(p, q) => within(p, dir) && within(q, dir),
        ActionView::RemoveFile(p) => within(p, dir),
        ActionView::RemoveDirAll(p) => within(p, dir),
    }
}

proof fn lemma_join_within(dir: Seq<char>, rest: Seq<char>)
    ensures
        within(dir + seq!['/'] + rest, dir),
{
    assert((dir + seq!['/'] + rest).subrange(0, dir.len() as int + 1) =~= dir + seq!['/']);
}

/// Every action that creates a program in `dir` stays inside `dir`.
pub proof fn lemma_program_actions_within(dir: Seq<char>, manifest_text: Seq<char>, name: Seq<char>)
    ensures
        forall|i: int|
            0 <= i < program_actions(dir, manifest_text, name).len() ==> action_within(
                #[trigger] program_actions(dir, manifest_text, name)[i],
                dir,
            ),
{
    let acts = program_actions(dir, manifest_text, name);
    let src = join(dir, SRC_DIR@);
    lemma_join_within(dir, MANIFEST_FILE@);
    lemma_join_within(dir, SRC_DIR@);
    assert forall|i: int| 0 <= i < acts.len() implies action_within(#[trigger] acts[i], dir) by {
        if i >= 3 {
            let f = program_resources(underscored(name))[i - 3];
            assert(acts[i] == ActionView::WriteFile(join(src, f.0), f.1));
            assert(join(src, f.0) =~= dir + seq!['/'] + (SRC_DIR@ + seq!['/'] + f.0));
            lemma_join_within(dir, SRC_DIR@ + seq!['/'] + f.0);
        }
    }
}

/// Should a step that creates the program fail while a program is added to a
/// workspace, the rollback removes the `program` directory and nothing else, and
/// no step up to that point touches anything outside that directory: the
/// current manifest stays as it was.
pub proof fn lemma_scaffold_failure_rolls_back(program_text: Seq<char>, name: Seq<char>, manifest_text: Seq<char>)
    ensures
        ({
            let steps = workspace_steps(program_text, name, manifest_text);
            let n = program_actions(PROGRAM_DIR@, program_text, name).len();
            forall|i: int|
                0 <= i < n ==> action_within(#[trigger] steps[i].0, PROGRAM_DIR@) && steps[i].1
                    == program_cleanup()
        }),
        !within(MANIFEST_FILE@, PROGRAM_DIR@),
        !within(BACKUP_FILE@, PROGRAM_DIR@),
{
    reveal_strlit("program");
    reveal_strlit("Cargo.toml");
    reveal_strlit("CargoSolana.bak");
    lemma_program_actions_within(PROGRAM_DIR@, program_text, name);
    let steps = workspace_steps(program_text, name, manifest_text);
    let acts = program_actions(PROGRAM_DIR@, program_text, name);
    assert forall|i: int| 0 <= i < acts.len() implies action_within(#[trigger] steps[i].0, PROGRAM_DIR@)
        && steps[i].1 == program_cleanup() by {
        assert(steps[i] == (acts[i], program_cleanup()));
    }
    assert(MANIFEST_FILE@[0] != PROGRAM_DIR@[0]);
    assert(BACKUP_FILE@[0] != PROGRAM_DIR@[0]);
    if within(MANIFEST_FILE@, PROGRAM_DIR@) {
        assert(MANIFEST_FILE@.subrange(0, 8)[0] == (PROGRAM_DIR@ + seq!['/'])[0]);
    }
    if within(BACKUP_FILE@, PROGRAM_DIR@) {
        assert(BACKUP_FILE@.subrange(0, 8)[0] == (PROGRAM_DIR@ + seq!['/'])[0]);
    }
}

/// Once every step of adding a program to a workspace has succeeded, the
/// manifest written lists `program` exactly once (among distinct members, where
/// they were distinct before), and the last step has removed the backup, which
/// only the rename before it creates.
pub proof fn lemma_workspace_update_complete(
    init: Manifest,
    updated: Manifest,
    program_text: Seq<char>,
    name: Seq<char>,
    manifest_text: Seq<char>,
)
    requires
        is_merged_manifest(updated, init),
    ensures
        ({
            let members = workspace_members_of(updated)->Some_0;
            &&& occurs_once(members, PROGRAM_DIR@)
            &&& (workspace_members_of(init) matches Some(s) && no_duplicates(s)) ==> no_duplicates(members)
        }),
        ({
            let steps = workspace_steps(program_text, name, manifest_text);
            let n = steps.len();
            &&& steps[n - 2].0 == ActionView::WriteFile(MANIFEST_FILE@, manifest_text)
            &&& steps[n - 1].0 == ActionView::RemoveFile(BACKUP_FILE@)
            &&& forall|i: int| 0 <= i < n - 1 && creates(#[trigger] steps[i].0, BACKUP_FILE@) ==> i == n - 3
        }),
{
    lemma_merge_lists_member_once(workspace_members_of(init), PROGRAM_DIR@);
    lemma_scaffold_failure_rolls_back(program_text, name, manifest_text);
    reveal_strlit("Cargo.toml");
    reveal_strlit("CargoSolana.bak");
    let steps = workspace_steps(program_text, name, manifest_text);
    let k = program_actions(PROGRAM_DIR@, program_text, name).len();
    assert(MANIFEST_FILE@.len() != BACKUP_FILE@.len());
    assert forall|i: int| 0 <= i < steps.len() - 1 && creates(#[trigger] steps[i].0, BACKUP_FILE@) implies i == steps.len() - 3 by {
        if i < k {
            assert(action_within(steps[i].0, PROGRAM_DIR@));
            match steps[i].0 {
                ActionView::Rename(_, q) => assert(within(q, PROGRAM_DIR@)),
                ActionView::WriteFile(q, _) => assert(within(q, PROGRAM_DIR@)),
                ActionView::CreateDir(q) => assert(within(q, PROGRAM_DIR@)),
                _ => {},
            }
        }
    }
}

} // verus!
