//! The run's configuration: the operation chosen on the command line, the
//! program's name and the manifests that the operation writes.

use vstd::prelude::*;
use crate::error::CargoResult;
use crate::manifest::{
    build_program_manifest, dependencies_of, dev_dependencies_of, is_program_manifest,
    is_project_template, project_template_as_manifest, strings_view, workspace_members_of,
};
use crate::manifest::{SOLANA_PROGRAM, SOLANA_PROGRAM_TEST, SOLANA_SDK};
use cargo_toml::Manifest;

verus! {

/// The argument that cargo inserts when it runs this tool as its subcommand.
pub const SOLANA_NAME: &'static str = "solana";

/// The operation to carry out.
#[derive(Debug, Clone, Copy, PartialEq, Eq, Structural)]
pub enum ExecutionCommand {
    /// Create a project directory holding a new program.
    Create,
    /// Add a new program to the current directory and to its workspace.
    Init,
}

/// Everything an operation needs, resolved once per run.
pub struct Configuration {
    /// The name given on the command line.
    pub progname: String,
    /// The operation chosen.
    pub command: ExecutionCommand,
    /// The manifest of the current directory, for `Init`.
    pub init_manifest: Option<Manifest>,
    /// The program's manifest, with its name and Solana version filled in.
    pub program_manifest_template: Manifest,
    /// The project's manifest.
    pub project_manifest_template: Manifest,
}

impl Configuration {
    /// The configuration of a run: the program manifest is built for `progname`
    /// and `solana_version`, the project manifest is the project template.
    pub fn new(
        command: ExecutionCommand,
        progname: String,
        init_manifest: Option<Manifest>,
        solana_version: String,
    ) -> (r: CargoResult<Configuration>)
        ensures
            r matches Ok(c) && {
                &&& c.progname@ == progname@
                &&& c.command == command
                &&& c.init_manifest == init_manifest
                &&& is_program_manifest(c.program_manifest_template, progname@, solana_version@)
                &&& dependencies_of(c.program_manifest_template) == map![
                    SOLANA_PROGRAM@ => Some(solana_version@),
                ]
                &&& dev_dependencies_of(c.program_manifest_template) == map![
                    SOLANA_PROGRAM_TEST@ => Some(solana_version@),
                    SOLANA_SDK@ => Some(solana_version@),
                ]
                &&& workspace_members_of(c.program_manifest_template) is None
                &&& is_project_template(c.project_manifest_template)
            },
    {
        let program_manifest_template = build_program_manifest(progname.clone(), solana_version)?;
        let project_manifest_template = project_template_as_manifest()?;
        Ok(Configuration {
            progname,
            command,
            init_manifest,
            program_manifest_template,
            project_manifest_template,
        })
    }
}

/// The arguments with every `solana` left out: run as `cargo solana`, the tool
/// receives that word as an extra argument.
pub open spec fn forwarded_args(args: Seq<Seq<char>>) -> Seq<Seq<char>> {
    args.filter(|a: Seq<char>| a != SOLANA_NAME@)
}

/// The command line without the word that cargo inserts.
pub fn cargo_subcommand_args(args: Vec<String>) -> (r: Vec<String>)
    ensures
        strings_view(r@) == forwarded_args(strings_view(args@)),
{
    let solana = String::from_str(SOLANA_NAME);
    let mut r: Vec<String> = Vec::new();
    let mut i: usize = 0;
    while i < args.len()
        invariant
            i <= args.len(),
            solana@ == SOLANA_NAME@,
            strings_view(r@) == forwarded_args(strings_view(args@).subrange(0, i as int)),
        decreases args.len() - i,
    {
        let ghost seen = strings_view(args@).subrange(0, i as int + 1);
        assert(seen.drop_last() =~= strings_view(args@).subrange(0, i as int));
        assert(seen.last() == args@[i as int]@);
        let ghost prev = strings_view(r@);
        let is_solana = args[i] == solana;
        assert(forwarded_args(seen) == if seen.last() != SOLANA_NAME@ {
            forwarded_args(seen.drop_last()).push(seen.last())
        } else {
            forwarded_args(seen.drop_last())
        }) by {
            reveal(Seq::filter);
        }
        if !is_solana {
            r.push(args[i].clone());
            assert(strings_view(r@) =~= prev.push(args@[i as int]@));
        }
        i = i + 1;
    }
    assert(strings_view(args@).subrange(0, args@.len() as int) =~= strings_view(args@));
    r
}

} // verus!
