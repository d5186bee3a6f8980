//! The run configuration and the argument interpreter.
//!
//! `parse_args` makes a single forward pass over the token sequence, with
//! one token of lookahead for the flags that take a value. It returns
//! either a completed [`RunConfiguration`], a [`TerminalAction`] for the
//! entry point to carry out before exiting, or a [`ParseError`] naming the
//! flag whose value was missing or malformed. The whole grammar is stated
//! once, as the spec function [`parse_from`], and the executable pass is
//! proved to agree with it on every input.

use vstd::prelude::*;
use vstd::string::*;

use crate::text::{parse_u8, str_eq, u8_from_dec};

verus! {

/// What the tool is asked to run: a one-shot analysis or the language
/// server.
#[derive(Clone, Copy, Debug, PartialEq, Eq, Structural)]
pub enum Mode {
    Check,
    LanguageServer,
}

/// Where the analyzed program comes from: a script file named on the
/// command line, or source text passed inline with `-c`/`--code`.
#[derive(Debug, PartialEq, Eq)]
pub enum InputSource {
    File(String),
    InlineSource(String),
}

/// Mathematical image of [`InputSource`].
pub enum InputModel {
    File(Seq<char>),
    InlineSource(Seq<char>),
}

impl View for InputSource {
    type V = InputModel;

    open spec fn view(&self) -> InputModel {
        match self {
            InputSource::File(p) => InputModel::File(p@),
            InputSource::InlineSource(s) => InputModel::InlineSource(s@),
        }
    }
}

/// The resolved run configuration handed to the downstream entry point.
#[derive(Debug, PartialEq, Eq)]
pub struct RunConfiguration {
    /// Selected by `--server`; defaults to a one-shot analysis.
    pub mode: Mode,
    /// Set by `-c`/`--code` or by the single positional argument; the
    /// first one encountered wins and ends the pass.
    pub input: Option<InputSource>,
    /// Verbosity level for system messages, set by `--verbose <n>`.
    pub verbosity: u8,
    /// `--dump-decl` sets the empty-string sentinel, meaning "emit
    /// declaration files to the default location".
    pub dist_dir: Option<String>,
    /// Forced true in language-server mode: the server must not print
    /// interactive banners.
    pub quiet_repl: bool,
    /// Always false for this tool's analysis profile.
    pub effect_check: bool,
    /// Always false for this tool's analysis profile.
    pub ownership_check: bool,
    /// Tokens forwarded verbatim to the analyzed program, in order.
    pub runtime_args: Vec<String>,
}

/// Mathematical image of [`RunConfiguration`].
#[verifier::ext_equal]
pub struct ConfigModel {
    pub mode: Mode,
    pub input: Option<InputModel>,
    pub verbosity: u8,
    pub dist_dir: Option<Seq<char>>,
    pub quiet_repl: bool,
    pub effect_check: bool,
    pub ownership_check: bool,
    pub runtime_args: Seq<Seq<char>>,
}

impl View for RunConfiguration {
    type V = ConfigModel;

    open spec fn view(&self) -> ConfigModel {
        ConfigModel {
            mode: self.mode,
            input: match self.input {
                Some(ref src) => Some(src@),
                None => None,
            },
            verbosity: self.verbosity,
            dist_dir: match self.dist_dir {
                Some(ref dir) => Some(dir@),
                None => None,
            },
            quiet_repl: self.quiet_repl,
            effect_check: self.effect_check,
            ownership_check: self.ownership_check,
            runtime_args: self.runtime_args.deep_view(),
        }
    }
}

/// A parse outcome that ends the process before any configuration is
/// built: the entry point prints the associated message, performs the
/// cache clearing where asked, and exits with [`exit_code`].
///
/// [`exit_code`]: crate::messages::exit_code
#[derive(Debug, PartialEq, Eq)]
pub enum TerminalAction {
    /// `-?`, `-h` or `--help`: print the localized usage text, exit 0.
    ShowHelp,
    /// `-V` or `--version`: print the tool name and version, exit 0.
    ShowVersion,
    /// `--clear-cache`: invoke the cache-clear collaborator, exit 0.
    ClearCache,
    /// Any unrecognized token starting with `-`, carried verbatim:
    /// print an invalid-option message naming it, exit 2.
    InvalidOption(String),
}

/// Mathematical image of [`TerminalAction`].
pub enum ActionModel {
    ShowHelp,
    ShowVersion,
    ClearCache,
    InvalidOption(Seq<char>),
}

impl View for TerminalAction {
    type V = ActionModel;

    open spec fn view(&self) -> ActionModel {
        match self {
            TerminalAction::ShowHelp => ActionModel::ShowHelp,
            TerminalAction::ShowVersion => ActionModel::ShowVersion,
            TerminalAction::ClearCache => ActionModel::ClearCache,
            TerminalAction::InvalidOption(t) => ActionModel::InvalidOption(t@),
        }
    }
}

/// A fatal configuration error, carrying the flag as the user typed it.
/// No partial configuration is ever handed out after one.
#[derive(Debug, PartialEq, Eq)]
pub enum ParseError {
    /// A flag that requires a value was the last token.
    ArgumentMissing(String),
    /// A value was present but failed to parse into its required shape.
    ArgumentInvalid(String),
}

/// Mathematical image of [`ParseError`].
pub enum ErrorModel {
    ArgumentMissing(Seq<char>),
    ArgumentInvalid(Seq<char>),
}

impl View for ParseError {
    type V = ErrorModel;

    open spec fn view(&self) -> ErrorModel {
        match self {
            ParseError::ArgumentMissing(f) => ErrorModel::ArgumentMissing(f@),
            ParseError::ArgumentInvalid(f) => ErrorModel::ArgumentInvalid(f@),
        }
    }
}

/// What a successful pass hands to the entry point: either a completed
/// configuration to dispatch on, or a terminal action to carry out.
#[derive(Debug, PartialEq, Eq)]
pub enum Outcome {
    Continue(RunConfiguration),
    Terminate(TerminalAction),
}

/// Mathematical image of the interpreter's whole result.
pub enum ParseModel {
    Proceed(ConfigModel),
    Stop(ActionModel),
    Reject(ErrorModel),
}

/// The image of an interpreter result under the types' views.
pub open spec fn result_model(r: Result<Outcome, ParseError>) -> ParseModel {
    match r {
        Ok(Outcome::Continue(cfg)) => ParseModel::Proceed(cfg@),
        Ok(Outcome::Terminate(action)) => ParseModel::Stop(action@),
        Err(e) => ParseModel::Reject(e@),
    }
}

/// The configuration every pass starts from: one-shot analysis of an as
/// yet unset input, baseline verbosity, no declaration dumping, banners
/// allowed, both stricter checks off, no runtime arguments.
pub open spec fn init_config() -> ConfigModel {
    ConfigModel {
        mode: Mode::Check,
        input: None,
        verbosity: 1,
        dist_dir: None,
        quiet_repl: false,
        effect_check: false,
        ownership_check: false,
        runtime_args: Seq::empty(),
    }
}

/// A token that would be read as a flag rather than as the script path.
pub open spec fn starts_with_dash(t: Seq<char>) -> bool {
    t.len() > 0 && t[0] == '-'
}

/// The flag grammar, one token at a time. First match wins; flags that
/// take a value consume one token of lookahead eagerly. The pass ends on
/// `--` (everything after it is a runtime argument), on either form of
/// input (inline source or positional path), on a terminal action, and at
/// the end of the tokens. Only the positional path checks for a trailing
/// `--`; after `-c`/`--code` the remaining tokens are not interpreted at
/// all.
pub open spec fn parse_from(toks: Seq<Seq<char>>, cfg: ConfigModel) -> ParseModel
    decreases toks.len(),
{
    if toks.len() == 0 {
        ParseModel::Proceed(cfg)
    } else {
        let t = toks[0];
        let rest = toks.drop_first();
        if t == "--"@ {
            ParseModel::Proceed(ConfigModel { runtime_args: cfg.runtime_args + rest, ..cfg })
        } else if t == "-c"@ || t == "--code"@ {
            if rest.len() == 0 {
                ParseModel::Reject(ErrorModel::ArgumentMissing(t))
            } else {
                ParseModel::Proceed(
                    ConfigModel { input: Some(InputModel::InlineSource(rest[0])), ..cfg },
                )
            }
        } else if t == "-?"@ || t == "-h"@ || t == "--help"@ {
            ParseModel::Stop(ActionModel::ShowHelp)
        } else if t == "--server"@ {
            parse_from(rest, ConfigModel { mode: Mode::LanguageServer, quiet_repl: true, ..cfg })
        } else if t == "--dump-decl"@ {
            parse_from(rest, ConfigModel { dist_dir: Some(Seq::empty()), ..cfg })
        } else if t == "--verbose"@ {
            if rest.len() == 0 {
                ParseModel::Reject(ErrorModel::ArgumentMissing(t))
            } else {
                match u8_from_dec(rest[0]) {
                    Some(level) => parse_from(
                        rest.drop_first(),
                        ConfigModel { verbosity: level, ..cfg },
                    ),
                    None => ParseModel::Reject(ErrorModel::ArgumentInvalid(t)),
                }
            }
        } else if t == "--disable"@ {
            if rest.len() == 0 {
                ParseModel::Reject(ErrorModel::ArgumentMissing(t))
            } else {
                parse_from(
                    rest.drop_first(),
                    ConfigModel { runtime_args: cfg.runtime_args.push(rest[0]), ..cfg },
                )
            }
        } else if t == "-V"@ || t == "--version"@ {
            ParseModel::Stop(ActionModel::ShowVersion)
        } else if t == "--clear-cache"@ {
            ParseModel::Stop(ActionModel::ClearCache)
        } else if starts_with_dash(t) {
            ParseModel::Stop(ActionModel::InvalidOption(t))
        } else {
            let forwarded = if rest.len() > 0 && rest[0] == "--"@ {
                cfg.runtime_args + rest.drop_first()
            } else {
                cfg.runtime_args
            };
            ParseModel::Proceed(
                ConfigModel {
                    input: Some(InputModel::File(t)),
                    runtime_args: forwarded,
                    ..cfg
                },
            )
        }
    }
}

/// The whole grammar, from the initial configuration.
pub open spec fn parse_spec(toks: Seq<Seq<char>>) -> ParseModel {
    parse_from(toks, init_config())
}

impl RunConfiguration {
    /// The configuration every pass starts from.
    pub fn new() -> (r: RunConfiguration)
        ensures
            r@ == init_config(),
    {
        let r = RunConfiguration {
            mode: Mode::Check,
            input: None,
            verbosity: 1,
            dist_dir: None,
            quiet_repl: false,
            effect_check: false,
            ownership_check: false,
            runtime_args: Vec::new(),
        };
        proof {
            assert(r.runtime_args.deep_view() =~= Seq::<Seq<char>>::empty());
            assert(r@ =~= init_config());
        }
        r
    }
}

/// Appends clones of `args[start..]` to `dst`, in order.
fn append_rest(args: &Vec<String>, start: usize, dst: Vec<String>) -> (r: Vec<String>)
    requires
        start <= args.len(),
    ensures
        r.deep_view() == dst.deep_view() + args.deep_view().skip(start as int),
{
    let mut out = dst;
    let ghost orig = out.deep_view();
    let mut j: usize = start;
    proof {
        assert(orig + args.deep_view().subrange(start as int, start as int) =~~= orig);
    }
    while j < args.len()
        invariant
            start <= j <= args.len(),
            out.deep_view() == orig + args.deep_view().subrange(start as int, j as int),
        decreases args.len() - j,
    {
        let ghost prev = out.deep_view();
        out.push(args[j].clone());
        proof {
            assert(out.deep_view() =~~= prev.push(args.deep_view()[j as int]));
            assert(prev.push(args.deep_view()[j as int]) =~~= orig + args.deep_view().subrange(
                start as int,
                j + 1,
            ));
        }
        j = j + 1;
    }
    proof {
        let all = args.deep_view();
        assert(all.subrange(start as int, args.len() as int) =~~= all.skip(start as int));
    }
    out
}

/// One linear pass over `args[i..]`, growing `cfg` exactly as
/// [`parse_from`] describes.
fn parse_tokens(args: &Vec<String>, i: usize, cfg: RunConfiguration) -> (r: Result<
    Outcome,
    ParseError,
>)
    requires
        i <= args.len(),
    ensures
        result_model(r) == parse_from(args.deep_view().skip(i as int), cfg@),
    decreases args.len() - i,
{
    let ghost toks = args.deep_view().skip(i as int);
    if i == args.len() {
        return Ok(Outcome::Continue(cfg));
    }
    proof {
        assert(toks[0] == args.deep_view()[i as int]);
        assert(toks.drop_first() =~~= args.deep_view().skip(i + 1));
    }
    let arg: &String = &args[i];
    if str_eq(arg.as_str(), "--") {
        let ghost cfg0 = cfg@;
        let mut cfg = cfg;
        cfg.runtime_args = append_rest(args, i + 1, cfg.runtime_args);
        proof {
            assert(cfg@ =~= ConfigModel {
                runtime_args: cfg0.runtime_args + toks.drop_first(),
                ..cfg0
            });
        }
        Ok(Outcome::Continue(cfg))
    } else if str_eq(arg.as_str(), "-c") || str_eq(arg.as_str(), "--code") {
        if i + 1 == args.len() {
            Err(ParseError::ArgumentMissing(arg.clone()))
        } else {
            let mut cfg = cfg;
            cfg.input = Some(InputSource::InlineSource(args[i + 1].clone()));
            proof {
                assert(toks.drop_first()[0] == args.deep_view()[i + 1]);
            }
            Ok(Outcome::Continue(cfg))
        }
    } else if str_eq(arg.as_str(), "-?") || str_eq(arg.as_str(), "-h") || str_eq(
        arg.as_str(),
        "--help",
    ) {
        Ok(Outcome::Terminate(TerminalAction::ShowHelp))
    } else if str_eq(arg.as_str(), "--server") {
        let mut cfg = cfg;
        cfg.mode = Mode::LanguageServer;
        cfg.quiet_repl = true;
        parse_tokens(args, i + 1, cfg)
    } else if str_eq(arg.as_str(), "--dump-decl") {
        let mut cfg = cfg;
        cfg.dist_dir = Some(String::new());
        parse_tokens(args, i + 1, cfg)
    } else if str_eq(arg.as_str(), "--verbose") {
        if i + 1 == args.len() {
            Err(ParseError::ArgumentMissing(arg.clone()))
        } else {
            proof {
                assert(toks.drop_first()[0] == args.deep_view()[i + 1]);
                assert(toks.drop_first().drop_first() =~~= args.deep_view().skip(i + 2));
            }
            match parse_u8(args[i + 1].as_str()) {
                Some(level) => {
                    let mut cfg = cfg;
                    cfg.verbosity = level;
                    parse_tokens(args, i + 2, cfg)
                },
                None => Err(ParseError::ArgumentInvalid(arg.clone())),
            }
        }
    } else if str_eq(arg.as_str(), "--disable") {
        if i + 1 == args.len() {
            Err(ParseError::ArgumentMissing(arg.clone()))
        } else {
            proof {
                assert(toks.drop_first()[0] == args.deep_view()[i + 1]);
                assert(toks.drop_first().drop_first() =~~= args.deep_view().skip(i + 2));
            }
            let ghost cfg0 = cfg@;
            let mut cfg = cfg;
            cfg.runtime_args.push(args[i + 1].clone());
            proof {
                let pushed = cfg0.runtime_args.push(args.deep_view()[i + 1]);
                assert(cfg.runtime_args.deep_view() =~~= pushed);
            }
            parse_tokens(args, i + 2, cfg)
        }
    } else if str_eq(arg.as_str(), "-V") || str_eq(arg.as_str(), "--version") {
        Ok(Outcome::Terminate(TerminalAction::ShowVersion))
    } else if str_eq(arg.as_str(), "--clear-cache") {
        Ok(Outcome::Terminate(TerminalAction::ClearCache))
    } else if arg.as_str().unicode_len() > 0 && arg.as_str().get_char(0) == '-' {
        Ok(Outcome::Terminate(TerminalAction::InvalidOption(arg.clone())))
    } else {
        let ghost cfg0 = cfg@;
        let mut cfg = cfg;
        cfg.input = Some(InputSource::File(arg.clone()));
        if i + 1 < args.len() && str_eq(args[i + 1].as_str(), "--") {
            proof {
                assert(toks.drop_first()[0] == args.deep_view()[i + 1]);
                assert(toks.drop_first().drop_first() =~~= args.deep_view().skip(i + 2));
            }
            cfg.runtime_args = append_rest(args, i + 2, cfg.runtime_args);
            proof {
                assert(cfg@ =~= ConfigModel {
                    input: Some(InputModel::File(toks[0])),
                    runtime_args: cfg0.runtime_args + toks.drop_first().drop_first(),
                    ..cfg0
                });
            }
        }
        Ok(Outcome::Continue(cfg))
    }
}

/// Interprets the argument sequence (program name already stripped) as
/// the flag grammar describes: the result is exactly the image of the
/// tokens under [`parse_spec`]. A completed configuration comes back as
/// `Ok(Outcome::Continue(..))`, a help/version/cache-clear/invalid-option
/// ending as `Ok(Outcome::Terminate(..))`, and a missing or malformed
/// flag value as `Err(..)` naming the flag.
pub fn parse_args(args: &Vec<String>) -> (r: Result<Outcome, ParseError>)
    ensures
        result_model(r) == parse_spec(args.deep_view()),
{
    let cfg = RunConfiguration::new();
    proof {
        assert(args.deep_view().skip(0) =~~= args.deep_view());
    }
    parse_tokens(args, 0, cfg)
}

} // verus!
