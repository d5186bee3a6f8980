//! Laws of the flag grammar, proved once and for all over the spec-level
//! parser: terminal flags in first position end the pass before any
//! configuration exists, `--clear-cache` is reached in the same single
//! pass as any flags before it, and every configuration the interpreter
//! returns carries this tool's analysis profile.

use vstd::prelude::*;

use crate::config::{parse_from, parse_spec, ActionModel, ConfigModel, Mode, ParseModel};
use crate::messages::exit_code_spec;
use crate::text::u8_from_dec;

verus! {

/// Two character sequences that disagree at a common index differ.
proof fn lemma_seq_neq_at(a: Seq<char>, b: Seq<char>, i: int)
    requires
        0 <= i < a.len(),
        0 <= i < b.len(),
        a[i] != b[i],
    ensures
        a != b,
{
}

/// Two character sequences of different lengths differ.
proof fn lemma_seq_neq_len(a: Seq<char>, b: Seq<char>)
    requires
        a.len() != b.len(),
    ensures
        a != b,
{
}

/// Law: with `-?`, `-h` or `--help` as the first token, the pass stops at
/// once with the help action — exit code 0, and no configuration is ever
/// built — whatever follows.
pub proof fn lemma_help_first(toks: Seq<Seq<char>>)
    requires
        toks.len() > 0,
        toks[0] == "-?"@ || toks[0] == "-h"@ || toks[0] == "--help"@,
    ensures
        parse_spec(toks) == ParseModel::Stop(ActionModel::ShowHelp),
        exit_code_spec(ActionModel::ShowHelp) == 0,
{
    reveal_strlit("-?");
    reveal_strlit("-h");
    reveal_strlit("--help");
    reveal_strlit("--");
    reveal_strlit("-c");
    reveal_strlit("--code");
    if toks[0] == "-?"@ {
        lemma_seq_neq_at("-?"@, "--"@, 1);
        lemma_seq_neq_at("-?"@, "-c"@, 1);
        lemma_seq_neq_at("-?"@, "--code"@, 1);
    } else if toks[0] == "-h"@ {
        lemma_seq_neq_at("-h"@, "--"@, 1);
        lemma_seq_neq_at("-h"@, "-c"@, 1);
        lemma_seq_neq_at("-h"@, "--code"@, 1);
    } else {
        lemma_seq_neq_len("--help"@, "--"@);
        lemma_seq_neq_len("--help"@, "-c"@);
        lemma_seq_neq_at("--help"@, "--code"@, 2);
    }
}

/// Law: with `-V` or `--version` as the first token, the pass stops at
/// once with the version action — exit code 0 — whatever follows.
pub proof fn lemma_version_first(toks: Seq<Seq<char>>)
    requires
        toks.len() > 0,
        toks[0] == "-V"@ || toks[0] == "--version"@,
    ensures
        parse_spec(toks) == ParseModel::Stop(ActionModel::ShowVersion),
        exit_code_spec(ActionModel::ShowVersion) == 0,
{
    reveal_strlit("-V");
    reveal_strlit("--version");
    reveal_strlit("--");
    reveal_strlit("-c");
    reveal_strlit("--code");
    reveal_strlit("-?");
    reveal_strlit("-h");
    reveal_strlit("--help");
    reveal_strlit("--server");
    reveal_strlit("--dump-decl");
    reveal_strlit("--verbose");
    reveal_strlit("--disable");
    if toks[0] == "-V"@ {
        lemma_seq_neq_at("-V"@, "--"@, 1);
        lemma_seq_neq_at("-V"@, "-c"@, 1);
        lemma_seq_neq_at("-V"@, "--code"@, 1);
        lemma_seq_neq_at("-V"@, "-?"@, 1);
        lemma_seq_neq_at("-V"@, "-h"@, 1);
        lemma_seq_neq_at("-V"@, "--help"@, 1);
        lemma_seq_neq_at("-V"@, "--server"@, 1);
        lemma_seq_neq_at("-V"@, "--dump-decl"@, 1);
        lemma_seq_neq_at("-V"@, "--verbose"@, 1);
        lemma_seq_neq_at("-V"@, "--disable"@, 1);
    } else {
        lemma_seq_neq_len("--version"@, "--"@);
        lemma_seq_neq_at("--version"@, "-c"@, 1);
        lemma_seq_neq_at("--version"@, "--code"@, 2);
        lemma_seq_neq_at("--version"@, "-?"@, 1);
        lemma_seq_neq_at("--version"@, "-h"@, 1);
        lemma_seq_neq_at("--version"@, "--help"@, 2);
        lemma_seq_neq_at("--version"@, "--server"@, 2);
        lemma_seq_neq_at("--version"@, "--dump-decl"@, 2);
        lemma_seq_neq_at("--version"@, "--verbose"@, 5);
        lemma_seq_neq_at("--version"@, "--disable"@, 2);
    }
}

/// A flag that neither takes a value nor ends the pass.
pub open spec fn plain_flag(t: Seq<char>) -> bool {
    t == "--server"@ || t == "--dump-decl"@
}

proof fn lemma_clear_cache_from(toks: Seq<Seq<char>>, cfg: ConfigModel, i: int)
    requires
        0 <= i < toks.len(),
        toks[i] == "--clear-cache"@,
        forall|j: int| 0 <= j < i ==> plain_flag(#[trigger] toks[j]),
    ensures
        parse_from(toks, cfg) == ParseModel::Stop(ActionModel::ClearCache),
    decreases i,
{
    reveal_strlit("--clear-cache");
    reveal_strlit("--");
    reveal_strlit("-c");
    reveal_strlit("--code");
    reveal_strlit("-?");
    reveal_strlit("-h");
    reveal_strlit("--help");
    reveal_strlit("--server");
    reveal_strlit("--dump-decl");
    reveal_strlit("--verbose");
    reveal_strlit("--disable");
    reveal_strlit("-V");
    reveal_strlit("--version");
    if i == 0 {
        lemma_seq_neq_len("--clear-cache"@, "--"@);
        lemma_seq_neq_at("--clear-cache"@, "-c"@, 1);
        lemma_seq_neq_at("--clear-cache"@, "--code"@, 3);
        lemma_seq_neq_at("--clear-cache"@, "-?"@, 1);
        lemma_seq_neq_at("--clear-cache"@, "-h"@, 1);
        lemma_seq_neq_at("--clear-cache"@, "--help"@, 2);
        lemma_seq_neq_at("--clear-cache"@, "--server"@, 2);
        lemma_seq_neq_at("--clear-cache"@, "--dump-decl"@, 2);
        lemma_seq_neq_at("--clear-cache"@, "--verbose"@, 2);
        lemma_seq_neq_at("--clear-cache"@, "--disable"@, 2);
        lemma_seq_neq_at("--clear-cache"@, "-V"@, 1);
        lemma_seq_neq_at("--clear-cache"@, "--version"@, 2);
    } else {
        assert(plain_flag(toks[0]));
        let rest = toks.drop_first();
        assert(rest[i - 1] == toks[i]);
        assert(forall|j: int| 0 <= j < i - 1 ==> plain_flag(#[trigger] rest[j]));
        if toks[0] == "--server"@ {
            lemma_seq_neq_len("--server"@, "--"@);
            lemma_seq_neq_at("--server"@, "-c"@, 1);
            lemma_seq_neq_at("--server"@, "--code"@, 2);
            lemma_seq_neq_at("--server"@, "-?"@, 1);
            lemma_seq_neq_at("--server"@, "-h"@, 1);
            lemma_seq_neq_at("--server"@, "--help"@, 2);
            lemma_clear_cache_from(
                rest,
                ConfigModel { mode: Mode::LanguageServer, quiet_repl: true, ..cfg },
                i - 1,
            );
        } else {
            lemma_seq_neq_len("--dump-decl"@, "--"@);
            lemma_seq_neq_at("--dump-decl"@, "-c"@, 1);
            lemma_seq_neq_at("--dump-decl"@, "--code"@, 2);
            lemma_seq_neq_at("--dump-decl"@, "-?"@, 1);
            lemma_seq_neq_at("--dump-decl"@, "-h"@, 1);
            lemma_seq_neq_at("--dump-decl"@, "--help"@, 2);
            lemma_clear_cache_from(rest, ConfigModel { dist_dir: Some(Seq::empty()), ..cfg }, i - 1);
        }
    }
}

/// Law: `--clear-cache` need not be the sole argument — the single
/// forward pass reaches it across any run of preceding plain flags, and
/// stops there with the cache-clear action, exit code 0.
pub proof fn lemma_clear_cache_reached(toks: Seq<Seq<char>>, i: int)
    requires
        0 <= i < toks.len(),
        toks[i] == "--clear-cache"@,
        forall|j: int| 0 <= j < i ==> plain_flag(#[trigger] toks[j]),
    ensures
        parse_spec(toks) == ParseModel::Stop(ActionModel::ClearCache),
        exit_code_spec(ActionModel::ClearCache) == 0,
{
    lemma_clear_cache_from(toks, crate::config::init_config(), i);
}

/// This tool's analysis profile: the stricter effect and ownership checks
/// stay off, and language-server mode never prints interactive banners.
pub open spec fn analysis_profile_ok(c: ConfigModel) -> bool {
    &&& !c.effect_check
    &&& !c.ownership_check
    &&& (c.mode == Mode::LanguageServer ==> c.quiet_repl)
}

proof fn lemma_parse_from_profile(toks: Seq<Seq<char>>, cfg: ConfigModel)
    requires
        analysis_profile_ok(cfg),
    ensures
        parse_from(toks, cfg) matches ParseModel::Proceed(c) ==> analysis_profile_ok(c),
    decreases toks.len(),
{
    if toks.len() == 0 {
    } else {
        let t = toks[0];
        let rest = toks.drop_first();
        if t == "--"@ || t == "-c"@ || t == "--code"@ || t == "-?"@ || t == "-h"@ || t
            == "--help"@ {
        } else if t == "--server"@ {
            lemma_parse_from_profile(
                rest,
                ConfigModel { mode: Mode::LanguageServer, quiet_repl: true, ..cfg },
            );
        } else if t == "--dump-decl"@ {
            lemma_parse_from_profile(rest, ConfigModel { dist_dir: Some(Seq::empty()), ..cfg });
        } else if t == "--verbose"@ {
            if rest.len() > 0 {
                match u8_from_dec(rest[0]) {
                    Some(level) => {
                        lemma_parse_from_profile(
                            rest.drop_first(),
                            ConfigModel { verbosity: level, ..cfg },
                        );
                    },
                    None => {},
                }
            }
        } else if t == "--disable"@ {
            if rest.len() > 0 {
                lemma_parse_from_profile(
                    rest.drop_first(),
                    ConfigModel { runtime_args: cfg.runtime_args.push(rest[0]), ..cfg },
                );
            }
        } else {
        }
    }
}

/// Law: every configuration the interpreter hands back carries the
/// analysis profile — `effectCheck` and `ownershipCheck` off, and
/// `quietRepl` forced whenever `--server` selected language-server mode.
pub proof fn lemma_returned_config_profile(toks: Seq<Seq<char>>)
    ensures
        parse_spec(toks) matches ParseModel::Proceed(c) ==> analysis_profile_ok(c),
{
    lemma_parse_from_profile(toks, crate::config::init_config());
}

} // verus!

