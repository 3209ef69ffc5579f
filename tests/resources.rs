use cargo_solana::ops::underscore_name;
use cargo_solana::resources::{
    get_entry_point_resource, get_error_resource, get_instruction_resource, get_lib_resource,
    get_process_resource, get_program_resources, get_state_resource, ENTRY_POINT_TEMPLATE,
    ERROR_TEMPLATE, LIB_TEMPLATE,
};

#[test]
fn entry_point_pass() {
    println!("{:?}", get_entry_point_resource("foo".to_string()));
}

#[test]
fn entry_point_substitutes_every_placeholder() {
    let text = get_entry_point_resource("foo".to_string());
    assert!(!text.contains("PROGNAME"));
    assert_eq!(text, ENTRY_POINT_TEMPLATE.replace("PROGNAME", "foo"));
    assert!(text.starts_with("//! Program entry point of foo\n"));
    assert!(text.contains("msg!(\"foo: entry\");"));
}

#[test]
fn entry_point_takes_name_verbatim() {
    let text = get_entry_point_resource("a$1b".to_string());
    assert!(text.contains("of a$1b\n"));
    assert!(!text.contains("PROGNAME"));
}

#[test]
fn entry_point_with_empty_name() {
    let text = get_entry_point_resource(String::new());
    assert_eq!(text, ENTRY_POINT_TEMPLATE.replace("PROGNAME", ""));
}

#[test]
fn program_resources_are_six_files() {
    let files = get_program_resources("foo".to_string());
    let names: Vec<&str> = files.iter().map(|f| f.0.as_str()).collect();
    assert_eq!(
        names,
        vec!["entry_point.rs", "error.rs", "instruction.rs", "lib.rs", "process.rs", "state.rs"]
    );
    assert!(files[0].1.contains("foo"));
    assert!(!files[0].1.contains("PROGNAME"));
    assert_eq!(files[1].1, ERROR_TEMPLATE);
    assert_eq!(files[3].1, LIB_TEMPLATE);
}

#[test]
fn fixed_resources_are_their_templates() {
    assert_eq!(get_error_resource(), ERROR_TEMPLATE);
    assert_eq!(get_lib_resource(), LIB_TEMPLATE);
    assert!(get_instruction_resource().contains("pub enum ProgramInstruction"));
    assert!(get_process_resource().contains("pub struct Processor"));
    assert!(get_state_resource().contains("pub struct ProgramState"));
}

#[test]
fn names_are_underscored() {
    assert_eq!(underscore_name("foo-bar"), "foo_bar");
    assert_eq!(underscore_name("-a--b-"), "_a__b_");
    assert_eq!(underscore_name("plain"), "plain");
    assert_eq!(underscore_name(""), "");
}
