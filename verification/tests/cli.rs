use ghost::cli::{
    chrome_line, doctor_verdict, model_line, permission_check_line, recipes_line, setup_line,
    setup_verdict, version_line, Cli, CliError, Commands, Permission,
};

#[test]
fn each_subcommand_parses_to_its_variant() {
    assert!(matches!(
        Cli::try_parse_from(&["ghost", "mcp"]).unwrap().command,
        Commands::Mcp
    ));
    assert!(matches!(
        Cli::try_parse_from(&["ghost", "version"]).unwrap().command,
        Commands::Version
    ));
    assert!(matches!(
        Cli::try_parse_from(&["ghost", "doctor"]).unwrap().command,
        Commands::Doctor
    ));
    assert!(matches!(
        Cli::try_parse_from(&["ghost", "setup"]).unwrap().command,
        Commands::Setup
    ));
}

#[test]
fn missing_subcommand_is_an_error() {
    assert!(Cli::try_parse_from(&["ghost"]).is_err());
}

#[test]
fn unknown_subcommand_is_an_error() {
    assert!(Cli::try_parse_from(&["ghost", "haunt"]).is_err());
}

#[test]
fn subcommands_are_case_sensitive() {
    assert!(Cli::try_parse_from(&["ghost", "MCP"]).is_err());
}

#[test]
fn each_refusal_names_its_reason() {
    assert!(matches!(Cli::try_parse_from(&[]), Err(CliError::MissingSubcommand)));
    match Cli::try_parse_from(&["ghost", "haunt"]) {
        Err(CliError::UnrecognizedSubcommand(s)) => assert_eq!(s, "haunt"),
        other => panic!("unexpected: {:?}", other),
    }
    match Cli::try_parse_from(&["ghost", "--bogus"]) {
        Err(CliError::UnexpectedArgument(s)) => assert_eq!(s, "--bogus"),
        other => panic!("unexpected: {:?}", other),
    }
    match Cli::try_parse_from(&["ghost", "mcp", "extra"]) {
        Err(CliError::UnexpectedArgument(s)) => assert_eq!(s, "extra"),
        other => panic!("unexpected: {:?}", other),
    }
    assert!(matches!(Cli::try_parse_from(&["ghost", "help"]), Err(CliError::HelpRequested)));
    assert!(matches!(Cli::try_parse_from(&["ghost", "--help"]), Err(CliError::HelpRequested)));
    assert!(matches!(Cli::try_parse_from(&["ghost", "doctor", "-h"]), Err(CliError::HelpRequested)));
}

#[test]
fn version_line_names_the_program() {
    assert_eq!(version_line("1.2.3"), "ghost 1.2.3");
}

#[test]
fn setup_lines_mark_granted_permissions() {
    assert_eq!(setup_line(Permission::Accessibility, true), "[OK] Accessibility: granted");
    assert_eq!(
        setup_line(Permission::ScreenRecording, false),
        "[  ] Screen Recording: prompt requested — enable Ghost in the pane that opened"
    );
    assert_eq!(setup_verdict(true, true, true), "All permissions granted. Ghost is ready.");
    assert!(setup_verdict(true, false, true).starts_with("Enable Ghost under System Settings"));
}

#[test]
fn doctor_lines_report_each_check() {
    assert_eq!(chrome_line(true), "[OK] Chrome remote debugging (port 9222): available");
    assert_eq!(
        chrome_line(false),
        "[  ] Chrome remote debugging (port 9222): not found — launch Chrome with --remote-debugging-port=9222"
    );
    assert_eq!(
        permission_check_line(Permission::InputMonitoring, false),
        "[  ] Input Monitoring permission: denied — run `ghost setup`, or grant in System Settings > Privacy & Security > Input Monitoring"
    );
    assert_eq!(
        permission_check_line(Permission::Accessibility, true),
        "[OK] Accessibility permissions: granted"
    );
    assert_eq!(
        model_line(true, "/home/u/.ghost/models/showui-2b.onnx"),
        "[OK] ShowUI-2B model (/home/u/.ghost/models/showui-2b.onnx): found"
    );
    assert_eq!(recipes_line(0), "[OK] Recipes: 0 loaded from ~/.ghost/recipes/");
    assert_eq!(recipes_line(1207), "[OK] Recipes: 1207 loaded from ~/.ghost/recipes/");
    assert_eq!(doctor_verdict(true, true, true), "All critical checks passed.");
    assert_eq!(doctor_verdict(true, true, false), "Fix the issues above, then rerun: ghost doctor");
}

#[test]
fn doctor_report_lines_in_order() {
    let findings = ghost::cli::DoctorFindings {
        chrome: false,
        accessibility: true,
        screen_recording: true,
        input_monitoring: true,
        model_found: false,
        model_path: "/m.onnx".to_string(),
        recipe_count: 3,
    };
    let lines = ghost::cli::doctor_report(&findings);
    assert_eq!(lines.len(), 9);
    assert_eq!(lines[0], "Ghost Doctor — environment check\n");
    assert_eq!(lines[1], chrome_line(false));
    assert_eq!(lines[2], permission_check_line(Permission::Accessibility, true));
    assert_eq!(lines[5], model_line(false, "/m.onnx"));
    assert_eq!(lines[6], recipes_line(3));
    assert_eq!(lines[7], "");
    assert_eq!(lines[8], "All critical checks passed.");
}
