use cargo_solana::error::ProgramError;
use cargo_solana::version::{
    get_solana_installed_version, solana_install_path, version_file_of_home, version_from_channel,
    version_from_document, SOLANA_INSTALL,
};

const VERSION_FILE: &str = "---\nchannel: v1.14.3\nactive_release_dir: /home/u/.local/share/solana/install/releases/1.14.3\n";

#[test]
fn test_version_info_pass() {
    let v = get_solana_installed_version(
        "/home/u/.local/share/solana/install/active_release/version.yml".to_string(),
        Some(VERSION_FILE.to_string()),
    );
    assert!(v.unwrap().len() > 0);
}

#[test]
fn version_strips_channel_marker() {
    assert_eq!(version_from_document(VERSION_FILE).unwrap(), "1.14.3");
    assert_eq!(version_from_channel(Some("v1.10.0".to_string())).unwrap(), "1.10.0");
    assert_eq!(version_from_channel(Some("é2".to_string())).unwrap(), "2");
}

#[test]
fn version_missing_field() {
    assert!(matches!(
        version_from_document("name: solana\n"),
        Err(ProgramError::VersionFieldMissing)
    ));
    assert!(matches!(
        version_from_document("channel: [1, 2]\n"),
        Err(ProgramError::VersionFieldMissing)
    ));
    assert!(matches!(
        version_from_channel(Some(String::new())),
        Err(ProgramError::VersionFieldMissing)
    ));
    assert!(matches!(version_from_channel(None), Err(ProgramError::VersionFieldMissing)));
}

#[test]
fn version_malformed_document() {
    assert!(matches!(version_from_document("channel: [v1\n"), Err(ProgramError::YamlError(_))));
}

#[test]
fn version_file_absent() {
    let path = "/nowhere/version.yml".to_string();
    match get_solana_installed_version(path.clone(), None) {
        Err(ProgramError::SolanaNotFound(p)) => assert_eq!(p, path),
        other => panic!("unexpected {:?}", other),
    }
}

#[test]
fn install_path_joins_once() {
    assert_eq!(
        solana_install_path("/home/u"),
        "/home/u/.local/share/solana/install/active_release/version.yml"
    );
    assert_eq!(solana_install_path("/home/u/"), format!("/home/u/{}", SOLANA_INSTALL));
    assert_eq!(solana_install_path(""), SOLANA_INSTALL);
}

#[test]
fn version_file_needs_home() {
    assert!(matches!(version_file_of_home(None), Err(ProgramError::NoHomeFound)));
    assert_eq!(
        version_file_of_home(Some("/root".to_string())).unwrap(),
        "/root/.local/share/solana/install/active_release/version.yml"
    );
}
