use japp_launcher::dispatch::{
    action_outcome, dispatch, help_text, missing_target_diagnostic, parse_command, run_japp,
    unsupported_diagnostic, version_text, Command, DispatchAction, ExitOutcome,
};
use japp_launcher::splitter::{split, token_is_option};

fn strings(words: &[&str]) -> Vec<String> {
    words.iter().map(|w| w.to_string()).collect()
}

#[test]
fn split_empty() {
    let (options, target) = split(&Vec::new());
    assert_eq!(options, Vec::<String>::new());
    assert_eq!(target, None);
}

#[test]
fn split_all_options() {
    let input = strings(&["-a", "-b", "--long", "-?"]);
    let (options, target) = split(&input);
    assert_eq!(options, input);
    assert_eq!(target, None);
}

#[test]
fn split_options_then_target() {
    let input = strings(&["-v", "-x", "app.japp"]);
    let (options, target) = split(&input);
    assert_eq!(options, strings(&["-v", "-x"]));
    assert_eq!(target, Some("app.japp".to_string()));
}

#[test]
fn split_stops_at_first_non_option() {
    let input = strings(&["-v", "target", "-x", "after"]);
    let (options, target) = split(&input);
    assert_eq!(options, strings(&["-v"]));
    assert_eq!(target, Some("target".to_string()));
}

#[test]
fn split_target_first() {
    let input = strings(&["target", "-x"]);
    let (options, target) = split(&input);
    assert_eq!(options, Vec::<String>::new());
    assert_eq!(target, Some("target".to_string()));
}

#[test]
fn split_lone_dash_is_an_option() {
    let input = strings(&["-"]);
    let (options, target) = split(&input);
    assert_eq!(options, strings(&["-"]));
    assert_eq!(target, None);
}

#[test]
fn token_classification() {
    assert!(token_is_option("-v"));
    assert!(token_is_option("-"));
    assert!(token_is_option("--"));
    assert!(!token_is_option(""));
    assert!(!token_is_option("app.japp"));
    assert!(!token_is_option("a-b"));
}

#[test]
fn parse_help_aliases() {
    for w in ["help", "-help", "--help", "-?"] {
        assert_eq!(parse_command(&w.to_string()), Command::Help);
    }
}

#[test]
fn parse_version_aliases() {
    for w in ["version", "-version", "--version"] {
        assert_eq!(parse_command(&w.to_string()), Command::Version);
    }
}

#[test]
fn parse_run() {
    assert_eq!(parse_command(&"run".to_string()), Command::Run);
}

#[test]
fn parse_unknown_keeps_word() {
    assert_eq!(
        parse_command(&"frobnicate".to_string()),
        Command::Unknown("frobnicate".to_string())
    );
}

#[test]
fn parse_is_case_sensitive() {
    assert_eq!(
        parse_command(&"Help".to_string()),
        Command::Unknown("Help".to_string())
    );
    assert_eq!(
        parse_command(&"RUN".to_string()),
        Command::Unknown("RUN".to_string())
    );
}

#[test]
fn dispatch_no_arguments_prints_help() {
    let action = dispatch(&Vec::new());
    assert_eq!(action, DispatchAction::PrintHelp);
    assert_eq!(
        action_outcome(&action, ExitOutcome::Failure),
        ExitOutcome::Success
    );
}

#[test]
fn dispatch_help_prints_help() {
    let action = dispatch(&strings(&["help"]));
    assert_eq!(action, DispatchAction::PrintHelp);
    assert_eq!(
        action_outcome(&action, ExitOutcome::Failure),
        ExitOutcome::Success
    );
}

#[test]
fn dispatch_every_help_alias_prints_help() {
    for w in ["help", "-help", "--help", "-?"] {
        let action = dispatch(&strings(&[w, "ignored"]));
        assert_eq!(action, DispatchAction::PrintHelp);
        assert_eq!(
            action_outcome(&action, ExitOutcome::Failure),
            ExitOutcome::Success
        );
    }
}

#[test]
fn dispatch_every_version_alias_prints_version() {
    for w in ["version", "-version", "--version"] {
        let action = dispatch(&strings(&[w]));
        assert_eq!(action, DispatchAction::PrintVersion);
        assert_eq!(
            action_outcome(&action, ExitOutcome::Failure),
            ExitOutcome::Success
        );
    }
}

#[test]
fn dispatch_run_with_target_launches() {
    let action = dispatch(&strings(&["run", "-v", "-x", "app.japp"]));
    assert_eq!(
        action,
        DispatchAction::Launch {
            options: strings(&["-v", "-x"]),
            target: "app.japp".to_string(),
        }
    );
    assert_eq!(
        action_outcome(&action, ExitOutcome::Success),
        ExitOutcome::Success
    );
    assert_eq!(
        action_outcome(&action, ExitOutcome::Failure),
        ExitOutcome::Failure
    );
}

#[test]
fn dispatch_run_without_target_fails() {
    let action = dispatch(&strings(&["run", "-v"]));
    assert_eq!(action, DispatchAction::ReportMissingTarget);
    assert_eq!(
        action_outcome(&action, ExitOutcome::Success),
        ExitOutcome::Failure
    );
    assert_eq!(missing_target_diagnostic(), "Missing japp file name");
}

#[test]
fn dispatch_unsupported_command_fails() {
    let action = dispatch(&strings(&["frobnicate"]));
    assert_eq!(
        action,
        DispatchAction::ReportUnsupported {
            word: "frobnicate".to_string(),
        }
    );
    assert_eq!(
        action_outcome(&action, ExitOutcome::Success),
        ExitOutcome::Failure
    );
}

#[test]
fn dispatch_version_succeeds() {
    let action = dispatch(&strings(&["version"]));
    assert_eq!(action, DispatchAction::PrintVersion);
    assert_eq!(
        action_outcome(&action, ExitOutcome::Failure),
        ExitOutcome::Success
    );
}

#[test]
fn run_japp_splits_options_and_target() {
    let action = run_japp(strings(&["-a", "file.japp", "trailing"]));
    assert_eq!(
        action,
        DispatchAction::Launch {
            options: strings(&["-a"]),
            target: "file.japp".to_string(),
        }
    );
}

#[test]
fn run_japp_without_target_reports_it() {
    let action = run_japp(strings(&["-a", "-b"]));
    assert_eq!(action, DispatchAction::ReportMissingTarget);
}

#[test]
fn unsupported_diagnostic_names_the_word() {
    let d = unsupported_diagnostic(&"frobnicate".to_string());
    assert_eq!(d, "Unsupported command: frobnicate");
    assert!(d.contains("frobnicate"));
}

#[test]
fn help_text_describes_the_commands() {
    let h = help_text();
    assert!(h.contains("help"));
    assert!(h.contains("version"));
    assert!(h.contains("run"));
}

#[test]
fn version_text_names_the_launcher() {
    assert_eq!(version_text(), "japp launcher 0.1.0");
}
