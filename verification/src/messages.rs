//! Rendering of the interpreter's user-facing text: the localized usage
//! message, the version line, the invalid-option report and the
//! fatal-error diagnostics, together with the exit code of each terminal
//! action. The locale is resolved once at process start, outside this
//! component, and threaded in as a value: these functions only render.

use vstd::prelude::*;
use vstd::string::*;

use crate::config::{ActionModel, ErrorModel, ParseError, TerminalAction};
use crate::text::str_eq;

verus! {

/// The closed set of languages the usage text exists in.
#[derive(Clone, Copy, Debug, PartialEq, Eq, Structural)]
pub enum Locale {
    English,
    Japanese,
    SimplifiedChinese,
    TraditionalChinese,
}

pub const HELP_JAPANESE: &'static str = "USAGE:
    pylyzer [OPTIONS] [ARGS]...

ARGS:
    <script> スクリプトファイルからプログラムを読み込む

OPTIONS
    --help/-?/-h                         このhelpを表示
    --version/-V                         バージョンを表示
    --verbose 0|1|2                      冗長性レベルを指定
    --server                             Language Serverを起動
    --clear-cache                        キャッシュをクリア
    --code/-c cmd                        文字列をプログラムに渡す
    --dump-decl                          型宣言ファイルを出力
    --disable                            指定した機能を無効化";

pub const HELP_SIMPLIFIED_CHINESE: &'static str = "USAGE:
    pylyzer [OPTIONS] [ARGS]...

ARGS:
    <script> 从脚本文件读取程序

OPTIONS
    --help/-?/-h                         显示帮助
    --version/-V                         显示版本
    --verbose 0|1|2                      指定细致程度
    --server                             启动 Language Server
    --clear-cache                        清除缓存
    --code/-c cmd                        作为字符串传入程序
    --dump-decl                          输出类型声明文件
    --disable                            禁用指定功能";

pub const HELP_TRADITIONAL_CHINESE: &'static str = "USAGE:
    pylyzer [OPTIONS] [ARGS]...

ARGS:
    <script> 從腳本檔案讀取程式

OPTIONS
    --help/-?/-h                         顯示幫助
    --version/-V                         顯示版本
    --verbose 0|1|2                      指定細緻程度
    --server                             啟動 Language Server
    --clear-cache                        清除快取
    --code/-c cmd                        作為字串傳入程式
    --dump-decl                          輸出類型宣告檔案
    --disable                            禁用指定功能";

pub const HELP_ENGLISH: &'static str = "USAGE:
    pylyzer [OPTIONS] [ARGS]...

ARGS:
    <script> program read from script file

OPTIONS
    --help/-?/-h                         show this help
    --version/-V                         show version
    --verbose 0|1|2                      verbosity level
    --server                             start the Language Server
    --clear-cache                        clear cache
    --code/-c cmd                        program passed in as string
    --dump-decl                          output type declaration file
    --disable                            disable specified features";

/// The usage text of each locale.
pub open spec fn help_text(locale: Locale) -> Seq<char> {
    match locale {
        Locale::English => HELP_ENGLISH@,
        Locale::Japanese => HELP_JAPANESE@,
        Locale::SimplifiedChinese => HELP_SIMPLIFIED_CHINESE@,
        Locale::TraditionalChinese => HELP_TRADITIONAL_CHINESE@,
    }
}

/// The usage text printed by `-?`, `-h` and `--help`.
pub fn command_message(locale: Locale) -> (r: &'static str)
    ensures
        r@ == help_text(locale),
{
    match locale {
        Locale::English => HELP_ENGLISH,
        Locale::Japanese => HELP_JAPANESE,
        Locale::SimplifiedChinese => HELP_SIMPLIFIED_CHINESE,
        Locale::TraditionalChinese => HELP_TRADITIONAL_CHINESE,
    }
}

/// The locale a language identifier selects; an unknown identifier
/// falls back to English.
pub open spec fn locale_of_name(name: Seq<char>) -> Locale {
    if name == "japanese"@ {
        Locale::Japanese
    } else if name == "simplified_chinese"@ {
        Locale::SimplifiedChinese
    } else if name == "traditional_chinese"@ {
        Locale::TraditionalChinese
    } else {
        Locale::English
    }
}

impl Locale {
    /// Resolves a language identifier to its locale, exactly as
    /// [`locale_of_name`] describes.
    pub fn from_name(name: &str) -> (r: Locale)
        ensures
            r == locale_of_name(name@),
    {
        if str_eq(name, "japanese") {
            Locale::Japanese
        } else if str_eq(name, "simplified_chinese") {
            Locale::SimplifiedChinese
        } else if str_eq(name, "traditional_chinese") {
            Locale::TraditionalChinese
        } else {
            Locale::English
        }
    }
}

/// The version line: the tool name, a space, and the version identifier
/// the build supplies.
pub open spec fn version_text(version: Seq<char>) -> Seq<char> {
    "pylyzer "@ + version
}

/// Renders the line printed by `-V` and `--version`.
pub fn version_message(version: &str) -> (r: String)
    ensures
        r@ == version_text(version@),
{
    let mut line = "pylyzer ".to_owned();
    line.append(version);
    line
}

/// The report printed for an unrecognized flag, naming the offending
/// token and ending with a short usage hint.
pub open spec fn invalid_option_text(token: Seq<char>) -> Seq<char> {
    "invalid option: "@ + token
        + "\n\nUSAGE:\npylyzer [OPTIONS] [SUBCOMMAND] [ARGS]...\n\nFor more information try `pylyzer --help`"@
}

/// Renders the invalid-option report.
pub fn invalid_option_message(token: &str) -> (r: String)
    ensures
        r@ == invalid_option_text(token@),
{
    let mut line = "invalid option: ".to_owned();
    line.append(token);
    line.append(
        "\n\nUSAGE:\npylyzer [OPTIONS] [SUBCOMMAND] [ARGS]...\n\nFor more information try `pylyzer --help`",
    );
    line
}

/// The diagnostic of each fatal configuration error, naming the flag as
/// the user typed it and the nature of the problem.
pub open spec fn error_text(e: ErrorModel) -> Seq<char> {
    match e {
        ErrorModel::ArgumentMissing(flag) => "the value of `"@ + flag + "` is not passed"@,
        ErrorModel::ArgumentInvalid(flag) => "the value of `"@ + flag + "` is not a number"@,
    }
}

impl ParseError {
    /// Renders the diagnostic for this error.
    pub fn message(&self) -> (r: String)
        ensures
            r@ == error_text(self@),
    {
        match self {
            ParseError::ArgumentMissing(flag) => {
                let mut line = "the value of `".to_owned();
                line.append(flag.as_str());
                line.append("` is not passed");
                line
            },
            ParseError::ArgumentInvalid(flag) => {
                let mut line = "the value of `".to_owned();
                line.append(flag.as_str());
                line.append("` is not a number");
                line
            },
        }
    }
}

/// The exit code of each terminal action: 0 for help, version and cache
/// clearing, 2 for an unrecognized flag.
pub open spec fn exit_code_spec(a: ActionModel) -> i32 {
    match a {
        ActionModel::InvalidOption(_) => 2,
        _ => 0,
    }
}

/// The exit code the process ends with after a terminal action.
pub fn exit_code(action: &TerminalAction) -> (r: i32)
    ensures
        r == exit_code_spec(action@),
{
    match action {
        TerminalAction::InvalidOption(_) => 2,
        _ => 0,
    }
}

/// What a terminal action prints before the process exits: the localized
/// usage text for help, the version line for version, the invalid-option
/// report for an unrecognized flag, and nothing for cache clearing.
pub open spec fn terminal_text(a: ActionModel, locale: Locale, version: Seq<char>) -> Option<
    Seq<char>,
> {
    match a {
        ActionModel::ShowHelp => Some(help_text(locale)),
        ActionModel::ShowVersion => Some(version_text(version)),
        ActionModel::ClearCache => None,
        ActionModel::InvalidOption(token) => Some(invalid_option_text(token)),
    }
}

/// Renders what a terminal action prints, exactly as [`terminal_text`]
/// describes.
pub fn terminal_message(action: &TerminalAction, locale: Locale, version: &str) -> (r: Option<
    String,
>)
    ensures
        match r {
            Some(line) => terminal_text(action@, locale, version@) == Some(line@),
            None => terminal_text(action@, locale, version@) is None,
        },
{
    match action {
        TerminalAction::ShowHelp => Some(command_message(locale).to_owned()),
        TerminalAction::ShowVersion => Some(version_message(version)),
        TerminalAction::ClearCache => None,
        TerminalAction::InvalidOption(token) => Some(invalid_option_message(token.as_str())),
    }
}

} // verus!
