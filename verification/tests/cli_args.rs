use motorbridge_ros2::cli::{parse_cli_args, CliCommand, CliError};

fn argv(items: &[&str]) -> Vec<String> {
    let mut v = vec!["motorbridge_ros2".to_string()];
    for i in items {
        v.push(i.to_string());
    }
    v
}

#[test]
fn no_arguments_run_default_manifest() {
    match parse_cli_args(&argv(&[])) {
        Ok(CliCommand::Run(a)) => {
            assert_eq!(a.manifest_path.as_deref(), Some("motorbridge_manifest.yaml"));
            assert!(!a.check_config);
            assert!(!a.list_topics);
        }
        other => panic!("unexpected {:?}", other),
    }
    match parse_cli_args(&Vec::new()) {
        Ok(CliCommand::Run(a)) => assert_eq!(a.manifest_path.as_deref(), Some("motorbridge_manifest.yaml")),
        other => panic!("unexpected {:?}", other),
    }
}

#[test]
fn positional_and_config_paths() {
    match parse_cli_args(&argv(&["robot.yaml"])) {
        Ok(CliCommand::Run(a)) => assert_eq!(a.manifest_path.as_deref(), Some("robot.yaml")),
        other => panic!("unexpected {:?}", other),
    }
    match parse_cli_args(&argv(&["--check-config", "-c", "m.yaml", "--list-topics"])) {
        Ok(CliCommand::Run(a)) => {
            assert_eq!(a.manifest_path.as_deref(), Some("m.yaml"));
            assert!(a.check_config);
            assert!(a.list_topics);
        }
        other => panic!("unexpected {:?}", other),
    }
}

#[test]
fn help_and_version_stop_parsing() {
    match parse_cli_args(&argv(&["-c", "x.yaml", "--help", "--bogus"])) {
        Ok(CliCommand::Help(a)) => assert_eq!(a.manifest_path.as_deref(), Some("x.yaml")),
        other => panic!("unexpected {:?}", other),
    }
    match parse_cli_args(&argv(&["-V"])) {
        Ok(CliCommand::Version(a)) => assert_eq!(a.manifest_path, None),
        other => panic!("unexpected {:?}", other),
    }
}

#[test]
fn refused_command_lines() {
    match parse_cli_args(&argv(&["--config"])) {
        Err(CliError::MissingValue { option }) => assert_eq!(option, "--config"),
        other => panic!("unexpected {:?}", other),
    }
    match parse_cli_args(&argv(&["-c", "-x"])) {
        Err(CliError::InvalidValue { option, value }) => {
            assert_eq!(option, "-c");
            assert_eq!(value, "-x");
        }
        other => panic!("unexpected {:?}", other),
    }
    assert!(matches!(parse_cli_args(&argv(&["a.yaml", "-c", "b.yaml"])), Err(CliError::PathAlreadySet)));
    assert!(matches!(parse_cli_args(&argv(&["a.yaml", "b.yaml"])), Err(CliError::MultiplePaths)));
    match parse_cli_args(&argv(&["--verbose"])) {
        Err(CliError::UnknownOption { option }) => assert_eq!(option, "--verbose"),
        other => panic!("unexpected {:?}", other),
    }
}

#[test]
fn refusal_texts() {
    let e = parse_cli_args(&argv(&["-c", "-x"])).unwrap_err();
    assert_eq!(e.message(), "invalid value for -c: -x\nexpected a manifest yaml path");
    let e = parse_cli_args(&argv(&["--config"])).unwrap_err();
    assert_eq!(e.message(), "missing value for --config; expected a manifest yaml path");
    let e = parse_cli_args(&argv(&["--nope"])).unwrap_err();
    assert_eq!(e.message(), "unknown option: --nope\nuse --help to see supported options");
    assert_eq!(
        CliError::PathAlreadySet.message(),
        "manifest path already set; pass only one of positional path or -c/--config"
    );
    assert_eq!(CliError::MultiplePaths.message(), "multiple manifest paths provided; only one is allowed");
}
