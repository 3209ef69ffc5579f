//! Manifests: the templates of a program's and a project's `Cargo.toml`, the
//! program manifest with its name and Solana version filled in, and the merge
//! of a new member into a workspace.

use vstd::prelude::*;
use crate::error::{CargoResult, ProgramError};
use crate::ops::PROGRAM_DIR;
use cargo_toml::Manifest;

verus! {

/// A parsed `Cargo.toml`, opaque: what this library reads of it is named below.
#[verifier::external_type_specification]
#[verifier::external_body]
#[verifier::reject_recursive_types(Metadata)]
pub struct ExManifest<Metadata>(cargo_toml::Manifest<Metadata>);

/// The metadata type of `cargo_toml::Manifest`, which its default type parameter names.
#[verifier::external_type_specification]
#[verifier::external_body]
pub struct ExTomlValue(toml::Value);

#[verifier::external_type_specification]
#[verifier::external_body]
pub struct ExCargoError(cargo_toml::Error);

#[verifier::external_type_specification]
#[verifier::external_body]
pub struct ExTomlSerError(toml::ser::Error);

/// Template of a program's `Cargo.toml`.
pub const PROGRAM_MANIFEST_TEMPLATE: &'static str = "[package]
name = \"PROGNAME\"
version = \"0.1.0\"
edition = \"2021\"
publish = false

[features]
no-entrypoint = []

[dependencies]
solana-program = \"1\"

[dev-dependencies]
solana-program-test = \"1\"
solana-sdk = \"1\"

[lib]
crate-type = [\"cdylib\", \"lib\"]
";

/// Template of a project's `Cargo.toml`: a workspace of the one program.
pub const PROJECT_MANIFEST_TEMPLATE: &'static str = "[workspace]
members = [\"program\"]
";

/// The dependency of a program on the Solana runtime.
pub const SOLANA_PROGRAM: &'static str = "solana-program";

/// The development dependency of a program on the Solana test harness.
pub const SOLANA_PROGRAM_TEST: &'static str = "solana-program-test";

/// The development dependency of a program on the Solana SDK.
pub const SOLANA_SDK: &'static str = "solana-sdk";

/// The name under `[package]`, if the manifest has that section.
pub uninterp spec fn package_name_of(m: Manifest) -> Option<Seq<char>>;

/// The `[dependencies]` table: for each name, `Some(v)` where the entry is the
/// bare version requirement `v`, `None` where it is a table.
pub uninterp spec fn dependencies_of(m: Manifest) -> Map<Seq<char>, Option<Seq<char>>>;

/// The `[dev-dependencies]` table, in the form of `dependencies_of`.
pub uninterp spec fn dev_dependencies_of(m: Manifest) -> Map<Seq<char>, Option<Seq<char>>>;

/// The `members` list of `[workspace]`, if the manifest has that section.
pub uninterp spec fn workspace_members_of(m: Manifest) -> Option<Seq<Seq<char>>>;

/// The `default-members` list of `[workspace]`; empty where there is no such section.
pub uninterp spec fn workspace_default_members_of(m: Manifest) -> Seq<Seq<char>>;

/// The `exclude` list of `[workspace]`; empty where there is no such section.
pub uninterp spec fn workspace_exclude_of(m: Manifest) -> Seq<Seq<char>>;

/// The views of a list of strings.
pub open spec fn strings_view(v: Seq<String>) -> Seq<Seq<char>> {
    v.map_values(|s: String| s@)
}

/// Whether two manifests agree on their package name and both dependency tables.
pub open spec fn same_package(a: Manifest, b: Manifest) -> bool {
    &&& package_name_of(a) == package_name_of(b)
    &&& dependencies_of(a) == dependencies_of(b)
    &&& dev_dependencies_of(a) == dev_dependencies_of(b)
}

/// Whether two manifests agree on the workspace lists besides `members`.
pub open spec fn same_workspace_lists(a: Manifest, b: Manifest) -> bool {
    &&& workspace_default_members_of(a) == workspace_default_members_of(b)
    &&& workspace_exclude_of(a) == workspace_exclude_of(b)
}

/// What this library reads of the program manifest template.
pub open spec fn is_program_template(m: Manifest) -> bool {
    &&& package_name_of(m) == Some("PROGNAME"@)
    &&& dependencies_of(m) == map![SOLANA_PROGRAM@ => Some("1"@)]
    &&& dev_dependencies_of(m) == map![SOLANA_PROGRAM_TEST@ => Some("1"@), SOLANA_SDK@ => Some("1"@)]
    &&& workspace_members_of(m) is None
    &&& workspace_default_members_of(m) == Seq::<Seq<char>>::empty()
    &&& workspace_exclude_of(m) == Seq::<Seq<char>>::empty()
}

/// What this library reads of the project manifest template.
pub open spec fn is_project_template(m: Manifest) -> bool {
    &&& package_name_of(m) is None
    &&& dependencies_of(m) == Map::<Seq<char>, Option<Seq<char>>>::empty()
    &&& dev_dependencies_of(m) == Map::<Seq<char>, Option<Seq<char>>>::empty()
    &&& workspace_members_of(m) == Some(seq![PROGRAM_DIR@])
    &&& workspace_default_members_of(m) == Seq::<Seq<char>>::empty()
    &&& workspace_exclude_of(m) == Seq::<Seq<char>>::empty()
}

/// Relies on `cargo_toml::Manifest::from_str` applied to the program manifest
/// template: it parses, with the `[package]` name, one dependency and two
/// development dependencies that the template writes, and no workspace.
#[verifier::external_body]
fn parse_program_template() -> (r: Result<Manifest, cargo_toml::Error>)
    ensures
        r is Ok,
        is_program_template(r->Ok_0),
{
    Manifest::from_str(PROGRAM_MANIFEST_TEMPLATE)
}

/// Relies on `cargo_toml::Manifest::from_str` applied to the project manifest
/// template: it parses to a workspace of the one member `program`, with no
/// package and no dependencies.
#[verifier::external_body]
fn parse_project_template() -> (r: Result<Manifest, cargo_toml::Error>)
    ensures
        r is Ok,
        is_project_template(r->Ok_0),
{
    Manifest::from_str(PROJECT_MANIFEST_TEMPLATE)
}

/// Relies on `toml::to_string` applied to a `cargo_toml::Manifest`. Nothing is
/// stated of the text: tables held in a hash map come out in an order that
/// varies between processes.
#[verifier::external_body]
fn serialize_manifest(m: &Manifest) -> (r: Result<String, toml::ser::Error>)
{
    toml::to_string(m)
}

/// Relies on `Clone` of `cargo_toml::Manifest`, derived field by field.
#[verifier::external_body]
fn clone_manifest(m: &Manifest) -> (r: Manifest)
    ensures
        same_package(r, *m),
        same_workspace_lists(r, *m),
        workspace_members_of(r) == workspace_members_of(*m),
{
    m.clone()
}

/// Relies on the field `package.name` of `cargo_toml::Manifest`: it is set where
/// the manifest has a `[package]` section.
#[verifier::external_body]
fn set_package_name(m: &mut Manifest, name: String) -> (r: bool)
    ensures
        r == (package_name_of(*old(m)) is Some),
        package_name_of(*final(m)) == if r {
            Some(name@)
        } else {
            package_name_of(*old(m))
        },
        dependencies_of(*final(m)) == dependencies_of(*old(m)),
        dev_dependencies_of(*final(m)) == dev_dependencies_of(*old(m)),
        workspace_members_of(*final(m)) == workspace_members_of(*old(m)),
        same_workspace_lists(*final(m), *old(m)),
{
    match m.package.as_mut() {
        Some(p) => {
            p.name = name;
            true
        },
        None => false,
    }
}

/// Relies on `BTreeMap::get_mut` over the field `dependencies` of
/// `cargo_toml::Manifest`: an existing entry becomes `Dependency::Simple`.
#[verifier::external_body]
fn set_dependency(m: &mut Manifest, key: &str, version: String) -> (r: bool)
    ensures
        r == dependencies_of(*old(m)).contains_key(key@),
        dependencies_of(*final(m)) == if r {
            dependencies_of(*old(m)).insert(key@, Some(version@))
        } else {
            dependencies_of(*old(m))
        },
        package_name_of(*final(m)) == package_name_of(*old(m)),
        dev_dependencies_of(*final(m)) == dev_dependencies_of(*old(m)),
        workspace_members_of(*final(m)) == workspace_members_of(*old(m)),
        same_workspace_lists(*final(m), *old(m)),
{
    match m.dependencies.get_mut(key) {
        Some(d) => {
            *d = cargo_toml::Dependency::Simple(version);
            true
        },
        None => false,
    }
}

/// Relies on `BTreeMap::get_mut` over the field `dev_dependencies` of
/// `cargo_toml::Manifest`: an existing entry becomes `Dependency::Simple`.
#[verifier::external_body]
fn set_dev_dependency(m: &mut Manifest, key: &str, version: String) -> (r: bool)
    ensures
        r == dev_dependencies_of(*old(m)).contains_key(key@),
        dev_dependencies_of(*final(m)) == if r {
            dev_dependencies_of(*old(m)).insert(key@, Some(version@))
        } else {
            dev_dependencies_of(*old(m))
        },
        package_name_of(*final(m)) == package_name_of(*old(m)),
        dependencies_of(*final(m)) == dependencies_of(*old(m)),
        workspace_members_of(*final(m)) == workspace_members_of(*old(m)),
        same_workspace_lists(*final(m), *old(m)),
{
    match m.dev_dependencies.get_mut(key) {
        Some(d) => {
            *d = cargo_toml::Dependency::Simple(version);
            true
        },
        None => false,
    }
}

/// Relies on the field `workspace.members` of `cargo_toml::Manifest`.
#[verifier::external_body]
fn workspace_members(m: &Manifest) -> (r: Option<Vec<String>>)
    ensures
        r is Some <==> workspace_members_of(*m) is Some,
        r is Some ==> strings_view(r->Some_0@) == workspace_members_of(*m)->Some_0,
{
    m.workspace.as_ref().map(|w| w.members.clone())
}

/// Relies on the field `workspace` of `cargo_toml::Manifest`: an existing
/// section gets the new members, and a missing one is added with those members
/// and every other field empty.
#[verifier::external_body]
fn set_workspace_members(m: &mut Manifest, members: Vec<String>)
    ensures
        workspace_members_of(*final(m)) == Some(strings_view(members@)),
        same_package(*final(m), *old(m)),
        workspace_default_members_of(*final(m)) == workspace_default_members_of(*old(m)),
        workspace_exclude_of(*final(m)) == workspace_exclude_of(*old(m)),
{
    match m.workspace.as_mut() {
        Some(w) => w.members = members,
        None => {
            m.workspace = Some(cargo_toml::Workspace {
                members,
                package: None,
                default_members: Vec::new(),
                exclude: Vec::new(),
                metadata: None,
                resolver: None,
                dependencies: std::collections::BTreeMap::new(),
            })
        },
    }
}

/// The manifest in TOML, with a serialization failure as this library's error.
pub fn manifest_text(m: &Manifest) -> (r: CargoResult<String>)
    ensures
        r matches Err(e) ==> e is TomlError,
{
    match serialize_manifest(m) {
        Ok(s) => Ok(s),
        Err(e) => Err(ProgramError::TomlError(e.to_string())),
    }
}

/// The program manifest template, parsed.
pub fn program_template_as_manifest() -> (r: CargoResult<Manifest>)
    ensures
        r matches Ok(m) && is_program_template(m),
{
    match parse_program_template() {
        Ok(m) => Ok(m),
        Err(e) => Err(ProgramError::CargoError(e.to_string())),
    }
}

/// The project manifest template, parsed.
pub fn project_template_as_manifest() -> (r: CargoResult<Manifest>)
    ensures
        r matches Ok(m) && is_project_template(m),
{
    match parse_project_template() {
        Ok(m) => Ok(m),
        Err(e) => Err(ProgramError::CargoError(e.to_string())),
    }
}

/// Whether a manifest carries the given package name and has the Solana
/// dependency and both Solana development dependencies pinned to `version`.
pub open spec fn is_program_manifest(m: Manifest, name: Seq<char>, version: Seq<char>) -> bool {
    &&& package_name_of(m) == Some(name)
    &&& dependencies_of(m).contains_key(SOLANA_PROGRAM@)
    &&& dependencies_of(m)[SOLANA_PROGRAM@] == Some(version)
    &&& dev_dependencies_of(m).contains_key(SOLANA_PROGRAM_TEST@)
    &&& dev_dependencies_of(m)[SOLANA_PROGRAM_TEST@] == Some(version)
    &&& dev_dependencies_of(m).contains_key(SOLANA_SDK@)
    &&& dev_dependencies_of(m)[SOLANA_SDK@] == Some(version)
}

/// Fills a parsed program manifest: the package name and the three Solana
/// dependencies. Fails, leaving the outcome unspecified, where the manifest
/// lacks the `[package]` section or one of those dependencies.
pub fn fill_program_manifest(m: &mut Manifest, name: String, solana_version: String) -> (r:
    CargoResult<()>)
    ensures
        r is Ok <==> {
            &&& package_name_of(*old(m)) is Some
            &&& dependencies_of(*old(m)).contains_key(SOLANA_PROGRAM@)
            &&& dev_dependencies_of(*old(m)).contains_key(SOLANA_PROGRAM_TEST@)
            &&& dev_dependencies_of(*old(m)).contains_key(SOLANA_SDK@)
        },
        r is Ok ==> {
            &&& package_name_of(*final(m)) == Some(name@)
            &&& dependencies_of(*final(m)) == dependencies_of(*old(m)).insert(
                SOLANA_PROGRAM@,
                Some(solana_version@),
            )
            &&& dev_dependencies_of(*final(m)) == dev_dependencies_of(*old(m)).insert(
                SOLANA_PROGRAM_TEST@,
                Some(solana_version@),
            ).insert(SOLANA_SDK@, Some(solana_version@))
            &&& workspace_members_of(*final(m)) == workspace_members_of(*old(m))
            &&& same_workspace_lists(*final(m), *old(m))
        },
        r is Ok ==> is_program_manifest(*final(m), name@, solana_version@),
        r matches Err(e) ==> e is CargoError,
{
    let has_package = set_package_name(m, name);
    let has_program = set_dependency(m, SOLANA_PROGRAM, solana_version.clone());
    let has_test = set_dev_dependency(m, SOLANA_PROGRAM_TEST, solana_version.clone());
    let has_sdk = set_dev_dependency(m, SOLANA_SDK, solana_version);
    if has_package && has_program && has_test && has_sdk {
        Ok(())
    } else {
        Err(
            ProgramError::CargoError(
                String::from_str("the program manifest template lacks an expected entry"),
            ),
        )
    }
}

/// The program manifest: the template with the given package name and the
/// Solana dependency and development dependencies pinned to `solana_version`.
pub fn build_program_manifest(name: String, solana_version: String) -> (r: CargoResult<Manifest>)
    ensures
        r matches Ok(m) && {
            &&& is_program_manifest(m, name@, solana_version@)
            &&& dependencies_of(m) == map![SOLANA_PROGRAM@ => Some(solana_version@)]
            &&& dev_dependencies_of(m) == map![
                SOLANA_PROGRAM_TEST@ => Some(solana_version@),
                SOLANA_SDK@ => Some(solana_version@),
            ]
            &&& workspace_members_of(m) is None
            &&& workspace_default_members_of(m) == Seq::<Seq<char>>::empty()
            &&& workspace_exclude_of(m) == Seq::<Seq<char>>::empty()
        },
{
    let mut m = program_template_as_manifest()?;
    proof {
        reveal_strlit("solana-program");
        reveal_strlit("solana-program-test");
        reveal_strlit("solana-sdk");
    }
    assert(SOLANA_PROGRAM_TEST@.len() != SOLANA_SDK@.len());
    fill_program_manifest(&mut m, name, solana_version)?;
    assert(dependencies_of(m) =~= map![SOLANA_PROGRAM@ => Some(solana_version@)]);
    assert(dev_dependencies_of(m) =~= map![
        SOLANA_PROGRAM_TEST@ => Some(solana_version@),
        SOLANA_SDK@ => Some(solana_version@),
    ]);
    Ok(m)
}

/// Whether an entry differs from `member`.
pub open spec fn other_than(member: Seq<char>) -> spec_fn(Seq<char>) -> bool {
    |x: Seq<char>| x != member
}

/// The list without any entry equal to `member`.
pub open spec fn without_member(s: Seq<Seq<char>>, member: Seq<char>) -> Seq<Seq<char>> {
    s.filter(other_than(member))
}

/// The members of a workspace after `member` has been added to them: a missing
/// workspace gets `member` alone; otherwise every earlier entry equal to
/// `member` is dropped and `member` is listed last.
pub open spec fn merged_members(members: Option<Seq<Seq<char>>>, member: Seq<char>) -> Seq<Seq<char>> {
    match members {
        None => seq![member],
        Some(s) => without_member(s, member).push(member),
    }
}

/// Whether the list holds no entry twice.
pub open spec fn no_duplicates(s: Seq<Seq<char>>) -> bool {
    forall|i: int, j: int| 0 <= i < s.len() && 0 <= j < s.len() && i != j ==> s[i] != s[j]
}

/// Whether `x` stands in `s` exactly once.
pub open spec fn occurs_once(s: Seq<Seq<char>>, x: Seq<char>) -> bool {
    exists|i: int| 0 <= i < s.len() && s[i] == x && forall|j: int| 0 <= j < s.len() && j != i ==> s[j] != x
}

/// Adds `member` to the workspace of the manifest, creating the workspace
/// where there is none; a member listed before is listed once, last. Nothing
/// else that this library reads of the manifest changes.
pub fn add_workspace_member(m: &mut Manifest, member: &str)
    ensures
        workspace_members_of(*final(m)) == Some(merged_members(workspace_members_of(*old(m)), member@)),
        same_package(*final(m), *old(m)),
        same_workspace_lists(*final(m), *old(m)),
{
    let entry = String::from_str(member);
    match workspace_members(m) {
        Some(members) => {
            let ghost all = strings_view(members@);
            let mut kept: Vec<String> = Vec::new();
            let mut i: usize = 0;
            while i < members.len()
                invariant
                    i <= members.len(),
                    all == strings_view(members@),
                    entry@ == member@,
                    strings_view(kept@) == without_member(all.subrange(0, i as int), member@),
                decreases members.len() - i,
            {
                let ghost seen = all.subrange(0, i as int + 1);
                assert(seen.drop_last() =~= all.subrange(0, i as int));
                assert(seen.last() == members@[i as int]@);
                assert(without_member(seen, member@) == if seen.last() != member@ {
                    without_member(seen.drop_last(), member@).push(seen.last())
                } else {
                    without_member(seen.drop_last(), member@)
                }) by {
                    reveal(Seq::filter);
                }
                let ghost prev = strings_view(kept@);
                let same = members[i] == entry;
                if !same {
                    kept.push(members[i].clone());
                    assert(strings_view(kept@) =~= prev.push(members@[i as int]@));
                }
                i = i + 1;
            }
            assert(all.subrange(0, all.len() as int) =~= all);
            let ghost before = strings_view(kept@);
            kept.push(entry);
            assert(strings_view(kept@) =~= before.push(member@));
            set_workspace_members(m, kept);
        },
        None => {
            let members = vec![entry];
            assert(strings_view(members@) =~= seq![member@]);
            set_workspace_members(m, members);
        },
    }
}

/// Whether `m` is `init` with `program` added to its workspace, as far as this
/// library reads a manifest.
pub open spec fn is_merged_manifest(m: Manifest, init: Manifest) -> bool {
    &&& workspace_members_of(m) == Some(merged_members(workspace_members_of(init), PROGRAM_DIR@))
    &&& same_package(m, init)
    &&& same_workspace_lists(m, init)
}

/// A copy of `init` with `program` added to its workspace.
pub fn merged_init_manifest(init: &Manifest) -> (m: Manifest)
    ensures
        is_merged_manifest(m, *init),
{
    let mut m = clone_manifest(init);
    add_workspace_member(&mut m, PROGRAM_DIR);
    m
}

/// Leaving out the entries equal to `member` keeps a list free of duplicates.
proof fn lemma_without_member_distinct(s: Seq<Seq<char>>, member: Seq<char>)
    requires
        no_duplicates(s),
    ensures
        no_duplicates(without_member(s, member)),
    decreases s.len(),
{
    reveal(Seq::filter);
    if s.len() > 0 {
        let init = s.drop_last();
        assert(no_duplicates(init)) by {
            assert forall|i: int, j: int|
                0 <= i < init.len() && 0 <= j < init.len() && i != j implies init[i] != init[j] by {
                assert(init[i] == s[i] && init[j] == s[j]);
            }
        }
        lemma_without_member_distinct(init, member);
        let f = without_member(init, member);
        if s.last() != member {
            if f.contains(s.last()) {
                init.lemma_filter_contains_rev(other_than(member), s.last());
                let k = choose|k: int| 0 <= k < init.len() && init[k] == s.last();
                assert(s[k] == s[s.len() - 1]);
            }
            assert(without_member(s, member) == f.push(s.last()));
            assert forall|i: int, j: int|
                0 <= i < f.len() + 1 && 0 <= j < f.len() + 1 && i != j implies f.push(s.last())[i]
                != f.push(s.last())[j] by {
                if i == f.len() {
                    assert(f[j] != s.last());
                } else if j == f.len() {
                    assert(f[i] != s.last());
                }
            }
        }
    }
}

/// Adding a member to a workspace lists it exactly once, and keeps distinct
/// members distinct.
pub proof fn lemma_merge_lists_member_once(members: Option<Seq<Seq<char>>>, member: Seq<char>)
    ensures
        occurs_once(merged_members(members, member), member),
        (members matches Some(s) && no_duplicates(s)) ==> no_duplicates(merged_members(members, member)),
{
    let merged = merged_members(members, member);
    match members {
        None => {
            assert(merged[0] == member);
        },
        Some(s) => {
            let f = without_member(s, member);
            s.filter_lemma(other_than(member));
            assert(merged == f.push(member));
            assert(merged[f.len() as int] == member);
            assert forall|j: int| 0 <= j < merged.len() && j != f.len() implies merged[j] != member by {
                assert(merged[j] == f[j]);
            }
            if no_duplicates(s) {
                lemma_without_member_distinct(s, member);
                assert forall|i: int, j: int|
                    0 <= i < merged.len() && 0 <= j < merged.len() && i != j implies merged[i]
                    != merged[j] by {
                    if i != f.len() && j != f.len() {
                        assert(merged[i] == f[i] && merged[j] == f[j]);
                    }
                }
            }
        },
    }
}

} // verus!
