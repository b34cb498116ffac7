use soldeer::commands::{parse_dependency_spec, process_args, select_command, Command};
use soldeer::errors::InstallError;

#[test]
fn parses_valid_token() {
    let d = parse_dependency_spec("lib-a~1.0.0").unwrap();
    assert_eq!(d.name, "lib-a");
    assert_eq!(d.version, "1.0.0");
}

#[test]
fn parses_token_with_dashes_and_dots() {
    let d = parse_dependency_spec("openzeppelin-contracts~4.9.3").unwrap();
    assert_eq!(d.name, "openzeppelin-contracts");
    assert_eq!(d.version, "4.9.3");
}

#[test]
fn rejects_token_without_tilde() {
    let e = parse_dependency_spec("bad-token").unwrap_err();
    assert!(matches!(e, InstallError::MalformedSpec));
}

#[test]
fn rejects_token_with_two_tildes() {
    let e = parse_dependency_spec("a~b~c").unwrap_err();
    assert!(matches!(e, InstallError::MalformedSpec));
}

#[test]
fn rejects_empty_name() {
    let e = parse_dependency_spec("~1.0.0").unwrap_err();
    assert!(matches!(e, InstallError::MalformedSpec));
}

#[test]
fn rejects_empty_version() {
    let e = parse_dependency_spec("lib-a~").unwrap_err();
    assert!(matches!(e, InstallError::MalformedSpec));
}

#[test]
fn rejects_lone_tilde() {
    let e = parse_dependency_spec("~").unwrap_err();
    assert!(matches!(e, InstallError::MalformedSpec));
}

#[test]
fn rejects_empty_token() {
    let e = parse_dependency_spec("").unwrap_err();
    assert!(matches!(e, InstallError::MalformedSpec));
}

#[test]
fn rejects_path_separator_in_name() {
    let e = parse_dependency_spec("a/b~1.0.0").unwrap_err();
    assert!(matches!(e, InstallError::MalformedSpec));
}

#[test]
fn rejects_backslash_in_version() {
    let e = parse_dependency_spec("lib-a~1\\0").unwrap_err();
    assert!(matches!(e, InstallError::MalformedSpec));
}

#[test]
fn process_args_takes_all_three() {
    let args = vec![
        "soldeer".to_string(),
        "install".to_string(),
        "lib-a~1.0.0".to_string(),
        "https://example/lib-a.zip".to_string(),
    ];
    let (c, d, u) = process_args(args).unwrap();
    assert_eq!(c, "install");
    assert_eq!(d, "lib-a~1.0.0");
    assert_eq!(u, "https://example/lib-a.zip");
}

#[test]
fn process_args_fills_missing_with_empty() {
    let args = vec!["soldeer".to_string(), "update".to_string()];
    let (c, d, u) = process_args(args).unwrap();
    assert_eq!(c, "update");
    assert_eq!(d, "");
    assert_eq!(u, "");
}

#[test]
fn process_args_without_command_is_refused() {
    assert!(process_args(vec!["soldeer".to_string()]).is_err());
    assert!(process_args(Vec::new()).is_err());
}

#[test]
fn select_command_install_with_token() {
    let c = select_command(
        &"install".to_string(),
        &"lib-a~1.0.0".to_string(),
        &"".to_string(),
    );
    match c {
        Command::Install { token, explicit_url } => {
            assert_eq!(token, "lib-a~1.0.0");
            assert_eq!(explicit_url, "");
        }
        _ => panic!("expected an install command"),
    }
}

#[test]
fn select_command_install_without_token_is_update() {
    let c = select_command(&"install".to_string(), &"".to_string(), &"".to_string());
    assert!(matches!(c, Command::Update));
}

#[test]
fn select_command_update() {
    let c = select_command(&"update".to_string(), &"".to_string(), &"".to_string());
    assert!(matches!(c, Command::Update));
}

#[test]
fn select_command_help() {
    let c = select_command(&"help".to_string(), &"".to_string(), &"".to_string());
    assert!(matches!(c, Command::Help));
}

#[test]
fn select_command_unknown_word() {
    let c = select_command(&"remove".to_string(), &"x~1".to_string(), &"".to_string());
    assert!(matches!(c, Command::Unknown));
}
