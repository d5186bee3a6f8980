//! The cache-clear collaborator, exercised through a stub: the
//! interpreter asks for exactly one clearing per `--clear-cache`
//! invocation, and a second invocation in a fresh process must not error.

use pylyzer_config::config::{parse_args, Outcome, TerminalAction};
use pylyzer_config::messages::exit_code;

struct CacheStub {
    clears: usize,
}

impl CacheStub {
    fn new() -> CacheStub {
        CacheStub { clears: 0 }
    }

    /// Clearing an already-clear cache succeeds again.
    fn clear(&mut self) -> Result<(), String> {
        self.clears += 1;
        Ok(())
    }
}

/// One process invocation: parse, carry out a terminal action against the
/// stub, and report the exit code.
fn invoke(args: &[&str], cache: &mut CacheStub) -> i32 {
    let owned: Vec<String> = args.iter().map(|a| a.to_string()).collect();
    match parse_args(&owned) {
        Ok(Outcome::Continue(_)) => 0,
        Ok(Outcome::Terminate(action)) => {
            if action == TerminalAction::ClearCache {
                cache.clear().expect("the collaborator refused to clear");
            }
            exit_code(&action)
        }
        Err(_) => 1,
    }
}

#[test]
fn clear_cache_invokes_the_collaborator_exactly_once() {
    let mut cache = CacheStub::new();
    let code = invoke(&["--clear-cache"], &mut cache);
    assert_eq!(cache.clears, 1);
    assert_eq!(code, 0);
}

#[test]
fn clear_cache_is_reached_past_other_flags_and_invoked_once() {
    let mut cache = CacheStub::new();
    let code = invoke(&["--server", "--clear-cache", "script.py"], &mut cache);
    assert_eq!(cache.clears, 1);
    assert_eq!(code, 0);
}

#[test]
fn clearing_twice_in_separate_invocations_does_not_error() {
    let mut cache = CacheStub::new();
    assert_eq!(invoke(&["--clear-cache"], &mut cache), 0);
    assert_eq!(invoke(&["--clear-cache"], &mut cache), 0);
    assert_eq!(cache.clears, 2);
}

#[test]
fn other_invocations_never_touch_the_cache() {
    let mut cache = CacheStub::new();
    invoke(&["script.py"], &mut cache);
    invoke(&["-h"], &mut cache);
    invoke(&["--version"], &mut cache);
    assert_eq!(cache.clears, 0);
}
