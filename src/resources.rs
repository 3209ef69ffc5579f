//! The source files of a new program: fixed templates, of which the entry point
//! receives the program's name in place of its placeholder.

use vstd::prelude::*;

verus! {

/// The token of the entry point template that stands for the program's name.
pub const PROG_IDENTIFIER: &'static str = "PROGNAME";

/// Template of `entry_point.rs`.
pub const ENTRY_POINT_TEMPLATE: &'static str = "//! Program entry point of PROGNAME

use crate::process::Processor;
use solana_program::{
    account_info::AccountInfo, entrypoint, entrypoint::ProgramResult, msg, pubkey::Pubkey,
};

entrypoint!(process_instruction);

fn process_instruction(
    program_id: &Pubkey,
    accounts: &[AccountInfo],
    instruction_data: &[u8],
) -> ProgramResult {
    msg!(\"PROGNAME: entry\");
    Processor::process(program_id, accounts, instruction_data)
}
";

/// Template of `error.rs`.
pub const ERROR_TEMPLATE: &'static str = "//! Errors of the program

use solana_program::program_error::ProgramError;

/// Errors that the program may return
#[derive(Clone, Copy, Debug, PartialEq, Eq)]
pub enum SampleError {
    /// The instruction data could not be read
    InvalidInstruction,
    /// The account is not owned by the program
    WrongOwner,
}

impl From<SampleError> for ProgramError {
    fn from(e: SampleError) -> Self {
        ProgramError::Custom(e as u32)
    }
}
";

/// Template of `instruction.rs`.
pub const INSTRUCTION_TEMPLATE: &'static str = "//! Instructions of the program

use crate::error::SampleError;
use solana_program::program_error::ProgramError;

/// The instructions that the program accepts
#[derive(Clone, Copy, Debug, PartialEq, Eq)]
pub enum ProgramInstruction {
    /// Set up the program's account
    Initialize,
    /// Record a value in the program's account
    Store(u8),
}

impl ProgramInstruction {
    /// Reads an instruction from its bytes
    pub fn unpack(input: &[u8]) -> Result<Self, ProgramError> {
        match input {
            [0] => Ok(Self::Initialize),
            [1, v] => Ok(Self::Store(*v)),
            _ => Err(SampleError::InvalidInstruction.into()),
        }
    }
}
";

/// Template of `process.rs`.
pub const PROCESS_TEMPLATE: &'static str = "//! Processing of the program's instructions

use crate::{error::SampleError, instruction::ProgramInstruction, state::ProgramState};
use solana_program::{
    account_info::{next_account_info, AccountInfo},
    entrypoint::ProgramResult,
    msg,
    pubkey::Pubkey,
};

/// Carries out instructions
pub struct Processor;

impl Processor {
    /// Decodes and carries out one instruction
    pub fn process(program_id: &Pubkey, accounts: &[AccountInfo], data: &[u8]) -> ProgramResult {
        let instruction = ProgramInstruction::unpack(data)?;
        let iter = &mut accounts.iter();
        let account = next_account_info(iter)?;
        if account.owner != program_id {
            return Err(SampleError::WrongOwner.into());
        }
        let mut state = ProgramState::unpack(&account.data.borrow())?;
        match instruction {
            ProgramInstruction::Initialize => {
                msg!(\"Initialize\");
                state.initialized = true;
            }
            ProgramInstruction::Store(v) => {
                msg!(\"Store\");
                state.value = v;
            }
        }
        state.pack(&mut account.data.borrow_mut())
    }
}
";

/// Template of `state.rs`.
pub const STATE_TEMPLATE: &'static str = "//! State kept in the program's account

use crate::error::SampleError;
use solana_program::program_error::ProgramError;

/// What the program's account holds
#[derive(Clone, Copy, Debug, Default, PartialEq, Eq)]
pub struct ProgramState {
    /// Whether the account has been set up
    pub initialized: bool,
    /// The value last stored
    pub value: u8,
}

impl ProgramState {
    /// Reads the state from the account's bytes
    pub fn unpack(data: &[u8]) -> Result<Self, ProgramError> {
        match data {
            [i, v, ..] => Ok(Self { initialized: *i != 0, value: *v }),
            _ => Err(SampleError::InvalidInstruction.into()),
        }
    }

    /// Writes the state into the account's bytes
    pub fn pack(&self, data: &mut [u8]) -> Result<(), ProgramError> {
        match data {
            [i, v, ..] => {
                *i = self.initialized as u8;
                *v = self.value;
                Ok(())
            }
            _ => Err(SampleError::InvalidInstruction.into()),
        }
    }
}
";

/// Template of `lib.rs`.
pub const LIB_TEMPLATE: &'static str = "//! A Solana program

pub mod error;
pub mod instruction;
pub mod process;
pub mod state;

#[cfg(not(feature = \"no-entrypoint\"))]
mod entry_point;
";

/// A pattern that a regular expression matches literally: one to 64 ASCII
/// letters or digits.
pub open spec fn literal_pattern(p: Seq<char>) -> bool {
    &&& 1 <= p.len() <= 64
    &&& forall|i: int|
        0 <= i < p.len() ==> ('a' <= #[trigger] p[i] <= 'z' || 'A' <= p[i] <= 'Z' || '0' <= p[i]
            <= '9')
}

/// Whether `pat` occurs in `text` at position `i`.
pub open spec fn occurs_at(text: Seq<char>, pat: Seq<char>, i: int) -> bool {
    0 <= i && i + pat.len() <= text.len() && text.subrange(i, i + pat.len()) == pat
}

/// `text` with every occurrence of `pat`, taken from left to right without
/// overlap, replaced by `rep`.
pub open spec fn replace_literal(text: Seq<char>, pat: Seq<char>, rep: Seq<char>) -> Seq<char>
    decreases text.len(),
{
    if pat.len() == 0 || text.len() == 0 {
        text
    } else if occurs_at(text, pat, 0) {
        rep + replace_literal(text.subrange(pat.len() as int, text.len() as int), pat, rep)
    } else {
        seq![text[0]] + replace_literal(text.drop_first(), pat, rep)
    }
}

/// Relies on `regex::Regex::new` and `regex::Regex::replace_all` with
/// `regex::NoExpand`: a pattern of ASCII letters and digits compiles and matches
/// exactly its own text, and every non-overlapping match, leftmost first, is
/// replaced by the replacement taken literally.
#[verifier::external_body]
fn regex_replace_all(pattern: &str, text: &str, rep: &str) -> (r: Option<String>)
    ensures
        literal_pattern(pattern@) ==> r is Some,
        literal_pattern(pattern@) ==> r->Some_0@ == replace_literal(text@, pattern@, rep@),
{
    regex::Regex::new(pattern).ok().map(|re| re.replace_all(text, regex::NoExpand(rep)).into_owned())
}

/// The entry point file: its template with the name in place of every placeholder.
pub fn get_entry_point_resource(new_name: String) -> (r: String)
    ensures
        r@ == replace_literal(ENTRY_POINT_TEMPLATE@, PROG_IDENTIFIER@, new_name@),
{
    proof {
        reveal_strlit("PROGNAME");
    }
    assert(literal_pattern(PROG_IDENTIFIER@));
    match regex_replace_all(PROG_IDENTIFIER, ENTRY_POINT_TEMPLATE, new_name.as_str()) {
        Some(s) => s,
        None => String::new(),
    }
}

/// The `error.rs` file.
pub fn get_error_resource() -> (r: String)
    ensures
        r@ == ERROR_TEMPLATE@,
{
    String::from_str(ERROR_TEMPLATE)
}

/// The `instruction.rs` file.
pub fn get_instruction_resource() -> (r: String)
    ensures
        r@ == INSTRUCTION_TEMPLATE@,
{
    String::from_str(INSTRUCTION_TEMPLATE)
}

/// The `process.rs` file.
pub fn get_process_resource() -> (r: String)
    ensures
        r@ == PROCESS_TEMPLATE@,
{
    String::from_str(PROCESS_TEMPLATE)
}

/// The `state.rs` file.
pub fn get_state_resource() -> (r: String)
    ensures
        r@ == STATE_TEMPLATE@,
{
    String::from_str(STATE_TEMPLATE)
}

/// The `lib.rs` file.
pub fn get_lib_resource() -> (r: String)
    ensures
        r@ == LIB_TEMPLATE@,
{
    String::from_str(LIB_TEMPLATE)
}

/// The files of a program's `src` directory for the given name: each file's
/// name beside its content.
pub open spec fn program_resources(name: Seq<char>) -> Seq<(Seq<char>, Seq<char>)> {
    seq![
        ("entry_point.rs"@, replace_literal(ENTRY_POINT_TEMPLATE@, PROG_IDENTIFIER@, name)),
        ("error.rs"@, ERROR_TEMPLATE@),
        ("instruction.rs"@, INSTRUCTION_TEMPLATE@),
        ("lib.rs"@, LIB_TEMPLATE@),
        ("process.rs"@, PROCESS_TEMPLATE@),
        ("state.rs"@, STATE_TEMPLATE@),
    ]
}

/// The view of a list of (file name, content) pairs.
pub open spec fn files_view(files: Seq<(String, String)>) -> Seq<(Seq<char>, Seq<char>)> {
    files.map_values(|f: (String, String)| (f.0@, f.1@))
}

/// All the files of a program's `src` directory, in a fixed order.
pub fn get_program_resources(new_name: String) -> (r: Vec<(String, String)>)
    ensures
        files_view(r@) == program_resources(new_name@),
{
    let r = vec![
        (String::from_str("entry_point.rs"), get_entry_point_resource(new_name)),
        (String::from_str("error.rs"), get_error_resource()),
        (String::from_str("instruction.rs"), get_instruction_resource()),
        (String::from_str("lib.rs"), get_lib_resource()),
        (String::from_str("process.rs"), get_process_resource()),
        (String::from_str("state.rs"), get_state_resource()),
    ];
    assert(files_view(r@) =~= program_resources(new_name@));
    r
}

/// An ASCII capital letter.
pub open spec fn is_upper(c: char) -> bool {
    'A' <= c <= 'Z'
}

/// A program name that cannot form a placeholder: not empty, and without ASCII
/// capital letters.
pub open spec fn valid_program_name(name: Seq<char>) -> bool {
    &&& name.len() > 0
    &&& forall|i: int| 0 <= i < name.len() ==> !is_upper(#[trigger] name[i])
}

/// Where the first `k` characters of a replacement's result are capitals, they
/// were copied from the text unchanged.
proof fn lemma_upper_prefix_copied(text: Seq<char>, pat: Seq<char>, rep: Seq<char>, k: int)
    requires
        pat.len() > 0,
        rep.len() > 0,
        !is_upper(rep[0]),
        0 <= k <= replace_literal(text, pat, rep).len(),
        forall|i: int| 0 <= i < k ==> is_upper(#[trigger] replace_literal(text, pat, rep)[i]),
    ensures
        k <= text.len(),
        replace_literal(text, pat, rep).subrange(0, k) == text.subrange(0, k),
    decreases text.len(),
{
    let r = replace_literal(text, pat, rep);
    if k == 0 {
        assert(r.subrange(0, 0) =~= text.subrange(0, 0));
    } else if text.len() == 0 {
    } else if occurs_at(text, pat, 0) {
        assert(is_upper(r[0]));
        assert(r[0] == rep[0]);
    } else {
        let rest = text.drop_first();
        let r2 = replace_literal(rest, pat, rep);
        assert(r == seq![text[0]] + r2);
        assert forall|i: int| 0 <= i < k - 1 implies is_upper(#[trigger] r2[i]) by {
            assert(r[i + 1] == r2[i]);
        }
        lemma_upper_prefix_copied(rest, pat, rep, k - 1);
        assert(r.subrange(0, k) =~= text.subrange(0, k)) by {
            assert forall|i: int| 0 <= i < k implies r[i] == text[i] by {
                if i > 0 {
                    assert(r2.subrange(0, k - 1)[i - 1] == rest.subrange(0, k - 1)[i - 1]);
                }
            }
        }
    }
}

/// A replacement by text without capitals leaves no occurrence of a pattern of
/// capitals.
proof fn lemma_no_pattern_left(text: Seq<char>, pat: Seq<char>, rep: Seq<char>, i: int)
    requires
        pat.len() > 0,
        forall|j: int| 0 <= j < pat.len() ==> is_upper(#[trigger] pat[j]),
        rep.len() > 0,
        forall|j: int| 0 <= j < rep.len() ==> !is_upper(#[trigger] rep[j]),
    ensures
        !occurs_at(replace_literal(text, pat, rep), pat, i),
    decreases text.len(),
{
    let r = replace_literal(text, pat, rep);
    if text.len() == 0 {
    } else if occurs_at(text, pat, 0) {
        let rest = text.subrange(pat.len() as int, text.len() as int);
        let r2 = replace_literal(rest, pat, rep);
        assert(r == rep + r2);
        if occurs_at(r, pat, i) {
            if i < rep.len() {
                assert(r.subrange(i, i + pat.len())[0] == pat[0]);
                assert(r[i] == rep[i]);
            } else {
                lemma_no_pattern_left(rest, pat, rep, i - rep.len());
                assert(r2.subrange(i - rep.len(), i - rep.len() + pat.len()) =~= r.subrange(
                    i,
                    i + pat.len(),
                ));
            }
        }
    } else {
        let rest = text.drop_first();
        let r2 = replace_literal(rest, pat, rep);
        assert(r == seq![text[0]] + r2);
        if occurs_at(r, pat, i) {
            if i == 0 {
                assert forall|j: int| 0 <= j < pat.len() implies is_upper(#[trigger] r[j]) by {
                    assert(r.subrange(0, pat.len() as int)[j] == pat[j]);
                }
                lemma_upper_prefix_copied(text, pat, rep, pat.len() as int);
            } else {
                lemma_no_pattern_left(rest, pat, rep, i - 1);
                assert(r2.subrange(i - 1, i - 1 + pat.len()) =~= r.subrange(i, i + pat.len()));
            }
        }
    }
}

/// Where the text holds the pattern, the result holds the replacement.
proof fn lemma_replacement_present(text: Seq<char>, pat: Seq<char>, rep: Seq<char>, j: int)
    requires
        pat.len() > 0,
        occurs_at(text, pat, j),
    ensures
        exists|k: int| occurs_at(replace_literal(text, pat, rep), rep, k),
    decreases text.len(),
{
    let r = replace_literal(text, pat, rep);
    if occurs_at(text, pat, 0) {
        let rest = text.subrange(pat.len() as int, text.len() as int);
        assert(r == rep + replace_literal(rest, pat, rep));
        assert(r.subrange(0, rep.len() as int) =~= rep);
        assert(occurs_at(r, rep, 0));
    } else {
        let rest = text.drop_first();
        let r2 = replace_literal(rest, pat, rep);
        assert(r == seq![text[0]] + r2);
        assert(rest.subrange(j - 1, j - 1 + pat.len()) =~= text.subrange(j, j + pat.len()));
        lemma_replacement_present(rest, pat, rep, j - 1);
        let k = choose|k: int| occurs_at(r2, rep, k);
        assert(r.subrange(k + 1, k + 1 + rep.len()) =~= r2.subrange(k, k + rep.len()));
        assert(occurs_at(r, rep, k + 1));
    }
}

/// The files of a new program: six of them, under distinct names, the first
/// being the entry point, whose placeholders all hold the name and of which,
/// for a valid name, none is left.
pub proof fn lemma_program_resources(name: Seq<char>)
    requires
        valid_program_name(name),
    ensures
        program_resources(name).len() == 6,
        forall|i: int, j: int|
            0 <= i < j < 6 ==> #[trigger] program_resources(name)[i].0 != #[trigger] program_resources(
                name,
            )[j].0,
        program_resources(name)[0].0 == "entry_point.rs"@,
        program_resources(name)[0].1 == replace_literal(
            ENTRY_POINT_TEMPLATE@,
            PROG_IDENTIFIER@,
            name,
        ),
        forall|i: int| !occurs_at(program_resources(name)[0].1, PROG_IDENTIFIER@, i),
        exists|k: int| occurs_at(program_resources(name)[0].1, name, k),
{
    reveal_strlit("PROGNAME");
    reveal_strlit("entry_point.rs");
    reveal_strlit("error.rs");
    reveal_strlit("instruction.rs");
    reveal_strlit("lib.rs");
    reveal_strlit("process.rs");
    reveal_strlit("state.rs");
    let files = program_resources(name);
    assert(files[0].0.len() == 14 && files[0].0[0] == 'e');
    assert(files[1].0.len() == 8 && files[1].0[0] == 'e');
    assert(files[2].0.len() == 14 && files[2].0[0] == 'i');
    assert(files[3].0.len() == 6);
    assert(files[4].0.len() == 10);
    assert(files[5].0.len() == 8 && files[5].0[0] == 's');
    assert forall|i: int, j: int| 0 <= i < j < 6 implies #[trigger] files[i].0 != #[trigger] files[j].0 by {
        if files[i].0 == files[j].0 {
            assert(files[i].0.len() == files[j].0.len());
            assert(files[i].0[0] == files[j].0[0]);
        }
    }
    assert forall|i: int| !occurs_at(files[0].1, PROG_IDENTIFIER@, i) by {
        lemma_no_pattern_left(ENTRY_POINT_TEMPLATE@, PROG_IDENTIFIER@, name, i);
    }
    reveal_strlit("//! Program entry point of PROGNAME

use crate::process::Processor;
use solana_program::{
    account_info::AccountInfo, entrypoint, entrypoint::ProgramResult, msg, pubkey::Pubkey,
};

entrypoint!(process_instruction);

fn process_instruction(
    program_id: &Pubkey,
    accounts: &[AccountInfo],
    instruction_data: &[u8],
) -> ProgramResult {
    msg!(\"PROGNAME: entry\");
    Processor::process(program_id, accounts, instruction_data)
}
");
    assert(ENTRY_POINT_TEMPLATE@.subrange(27, 35) =~= PROG_IDENTIFIER@);
    lemma_replacement_present(ENTRY_POINT_TEMPLATE@, PROG_IDENTIFIER@, name, 27);
}

} // verus!
