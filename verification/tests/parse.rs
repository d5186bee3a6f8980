use pylyzer_config::config::{
    parse_args, InputSource, Mode, Outcome, ParseError, RunConfiguration, TerminalAction,
};
use pylyzer_config::messages::exit_code;

fn parse(args: &[&str]) -> Result<Outcome, ParseError> {
    let owned: Vec<String> = args.iter().map(|a| a.to_string()).collect();
    parse_args(&owned)
}

fn config_of(args: &[&str]) -> RunConfiguration {
    match parse(args) {
        Ok(Outcome::Continue(cfg)) => cfg,
        other => panic!("expected a configuration, got {:?}", other),
    }
}

fn action_of(args: &[&str]) -> TerminalAction {
    match parse(args) {
        Ok(Outcome::Terminate(action)) => action,
        other => panic!("expected a terminal action, got {:?}", other),
    }
}

#[test]
fn help_as_first_token_ends_the_pass() {
    assert_eq!(action_of(&["-h"]), TerminalAction::ShowHelp);
    assert_eq!(action_of(&["-?", "script.py"]), TerminalAction::ShowHelp);
    assert_eq!(action_of(&["--help", "--server"]), TerminalAction::ShowHelp);
    assert_eq!(exit_code(&TerminalAction::ShowHelp), 0);
}

#[test]
fn version_flags_end_the_pass() {
    assert_eq!(action_of(&["-V"]), TerminalAction::ShowVersion);
    assert_eq!(action_of(&["--version"]), TerminalAction::ShowVersion);
    assert_eq!(exit_code(&TerminalAction::ShowVersion), 0);
}

#[test]
fn clear_cache_alone() {
    assert_eq!(action_of(&["--clear-cache"]), TerminalAction::ClearCache);
    assert_eq!(exit_code(&TerminalAction::ClearCache), 0);
}

#[test]
fn clear_cache_need_not_be_the_sole_argument() {
    assert_eq!(
        action_of(&["--server", "--dump-decl", "--clear-cache", "script.py"]),
        TerminalAction::ClearCache
    );
    assert_eq!(
        action_of(&["--verbose", "2", "--clear-cache"]),
        TerminalAction::ClearCache
    );
}

#[test]
fn verbose_level_and_script_path() {
    let cfg = config_of(&["--verbose", "2", "script.py"]);
    assert_eq!(cfg.verbosity, 2);
    assert_eq!(cfg.input, Some(InputSource::File("script.py".to_string())));
}

#[test]
fn verbose_rejects_a_non_numeric_value() {
    assert_eq!(
        parse(&["--verbose", "abc"]),
        Err(ParseError::ArgumentInvalid("--verbose".to_string()))
    );
}

#[test]
fn verbose_rejects_a_value_over_eight_bits() {
    assert_eq!(
        parse(&["--verbose", "256"]),
        Err(ParseError::ArgumentInvalid("--verbose".to_string()))
    );
}

#[test]
fn verbose_accepts_the_largest_eight_bit_value() {
    assert_eq!(config_of(&["--verbose", "255"]).verbosity, 255);
}

#[test]
fn verbose_accepts_a_leading_plus_sign() {
    assert_eq!(config_of(&["--verbose", "+2"]).verbosity, 2);
}

#[test]
fn inline_code_sets_the_input_and_nothing_else() {
    let cfg = config_of(&["-c", "x = 1"]);
    assert_eq!(cfg.input, Some(InputSource::InlineSource("x = 1".to_string())));
    assert!(cfg.runtime_args.is_empty());
}

#[test]
fn inline_code_ends_the_pass_without_reading_trailing_flags() {
    let cfg = config_of(&["--code", "x = 1", "--server"]);
    assert_eq!(cfg.input, Some(InputSource::InlineSource("x = 1".to_string())));
    assert_eq!(cfg.mode, Mode::Check);
    assert!(cfg.runtime_args.is_empty());
}

#[test]
fn positional_path_with_separator_forwards_the_rest() {
    let cfg = config_of(&["script.py", "--", "--flag", "value"]);
    assert_eq!(cfg.input, Some(InputSource::File("script.py".to_string())));
    assert_eq!(cfg.runtime_args, vec!["--flag".to_string(), "value".to_string()]);
}

#[test]
fn positional_path_without_separator_forwards_nothing() {
    let cfg = config_of(&["script.py", "ignored", "also-ignored"]);
    assert_eq!(cfg.input, Some(InputSource::File("script.py".to_string())));
    assert!(cfg.runtime_args.is_empty());
}

#[test]
fn disable_tokens_are_forwarded_in_order() {
    let cfg = config_of(&["--disable", "foo", "--disable", "bar"]);
    assert_eq!(cfg.runtime_args, vec!["foo".to_string(), "bar".to_string()]);
    assert_eq!(cfg.input, None);
}

#[test]
fn unknown_flag_is_reported_with_exit_code_two() {
    let action = action_of(&["--unknown-flag"]);
    assert_eq!(action, TerminalAction::InvalidOption("--unknown-flag".to_string()));
    assert_eq!(exit_code(&action), 2);
}

#[test]
fn a_lone_dash_is_an_unknown_flag() {
    assert_eq!(action_of(&["-"]), TerminalAction::InvalidOption("-".to_string()));
}

#[test]
fn server_mode_forces_quiet_repl() {
    let cfg = config_of(&["--server"]);
    assert_eq!(cfg.mode, Mode::LanguageServer);
    assert!(cfg.quiet_repl);
}

#[test]
fn dump_decl_sets_the_empty_sentinel() {
    let cfg = config_of(&["--dump-decl", "script.py"]);
    assert_eq!(cfg.dist_dir, Some(String::new()));
    assert_eq!(cfg.input, Some(InputSource::File("script.py".to_string())));
}

#[test]
fn the_empty_argument_list_yields_the_defaults() {
    let cfg = config_of(&[]);
    assert_eq!(cfg.mode, Mode::Check);
    assert_eq!(cfg.input, None);
    assert_eq!(cfg.verbosity, 1);
    assert_eq!(cfg.dist_dir, None);
    assert!(!cfg.quiet_repl);
    assert!(!cfg.effect_check);
    assert!(!cfg.ownership_check);
    assert!(cfg.runtime_args.is_empty());
}

#[test]
fn double_dash_forwards_everything_verbatim() {
    let cfg = config_of(&["--", "-h", "--server", "x"]);
    assert_eq!(cfg.input, None);
    assert_eq!(
        cfg.runtime_args,
        vec!["-h".to_string(), "--server".to_string(), "x".to_string()]
    );
}

#[test]
fn flags_that_need_a_value_fail_when_it_is_missing() {
    assert_eq!(parse(&["-c"]), Err(ParseError::ArgumentMissing("-c".to_string())));
    assert_eq!(parse(&["--code"]), Err(ParseError::ArgumentMissing("--code".to_string())));
    assert_eq!(parse(&["--verbose"]), Err(ParseError::ArgumentMissing("--verbose".to_string())));
    assert_eq!(parse(&["--disable"]), Err(ParseError::ArgumentMissing("--disable".to_string())));
}
