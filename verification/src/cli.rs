//! The command line: the options of a run, what the first word of the
//! command line asks for, and the report shown when the program crashes.
use vstd::prelude::*;
use vstd::string::StringExecFns;

verus! {

/// The options of a run.
pub struct Arguments {
    /// Input video file paths.
    pub input: Vec<String>,
    /// Single output video file path.
    pub output: Option<String>,
    /// Behave like an app instead of a CLI tool (e.g. pause before exiting on an error).
    pub tui: bool,
    /// Override the output directory for all files.
    pub outdir: Option<String>,
    /// Override output to an image of the frame number passed.
    pub peek: Option<i32>,
    /// The .vpy script to evaluate nodes from.
    pub vpy: String,
    /// Discard any audio tracks that would pass to the output.
    pub stripaudio: bool,
    /// Redirect VapourSynth's Y4M output to null.
    pub tonull: bool,
    /// Redirect VapourSynth's Y4M output to mpv.
    pub tompv: bool,
    /// Payload containing video timecodes, used by NLE scripts.
    pub json: Option<String>,
    /// The payload is in the old form, a list of (path, start, end).
    pub old_json: bool,
    /// Join all cuts to a file, used with `json`.
    pub trim: bool,
    /// Keep the same length (black cuts in between), used with `json`.
    pub padding: bool,
    /// Display details about the recipe.
    pub verbose: bool,
    /// Print debugging details.
    pub debug: bool,
    /// Run again with the arguments of the last run.
    pub rerun: bool,
    /// Override FFmpeg's encoding arguments.
    pub encargs: Option<String>,
    /// The recipe's path.
    pub recipe: String,
    /// Recipe settings to override, each as `section;key;value`.
    pub overrides: Option<Vec<String>>,
    /// Render through the experimental path.
    pub render_experimental: bool,
}

/// What the first word of the command line asks for.
#[derive(Debug, PartialEq, Eq, Structural, Clone, Copy)]
pub enum LaunchMode {
    /// Open the encoding presets in an editor.
    OpenEncodingPresets,
    /// Open the recipe in an editor.
    OpenRecipe,
    /// Show where the program is installed.
    ShowDirectory,
    /// Run again with the arguments of the last run.
    Rerun,
    /// Record the arguments and run with them.
    Run,
}

pub open spec fn launch_mode_of(word: Seq<char>) -> LaunchMode {
    if word == "enc"@ || word == "encoding"@ || word == "presets"@ || word == "encpresets"@
        || word == "macros"@ {
        LaunchMode::OpenEncodingPresets
    } else if word == "rc"@ || word == "recipe"@ || word == "conf"@ || word == "config"@ {
        LaunchMode::OpenRecipe
    } else if word == "root"@ || word == "dir"@ || word == "folder"@ {
        LaunchMode::ShowDirectory
    } else if word == "!!"@ || word == "-!!"@ || word == "--!!"@ || word == "-rerun"@
        || word == "--rerun"@ {
        LaunchMode::Rerun
    } else {
        LaunchMode::Run
    }
}

/// With no first word the program records its arguments and runs.
pub proof fn lemma_no_word_runs()
    ensures
        launch_mode_of(Seq::empty()) == LaunchMode::Run,
{
    reveal_strlit("enc");
    assert("enc"@.len() > 0);
    reveal_strlit("encoding");
    assert("encoding"@.len() > 0);
    reveal_strlit("presets");
    assert("presets"@.len() > 0);
    reveal_strlit("encpresets");
    assert("encpresets"@.len() > 0);
    reveal_strlit("macros");
    assert("macros"@.len() > 0);
    reveal_strlit("rc");
    assert("rc"@.len() > 0);
    reveal_strlit("recipe");
    assert("recipe"@.len() > 0);
    reveal_strlit("conf");
    assert("conf"@.len() > 0);
    reveal_strlit("config");
    assert("config"@.len() > 0);
    reveal_strlit("root");
    assert("root"@.len() > 0);
    reveal_strlit("dir");
    assert("dir"@.len() > 0);
    reveal_strlit("folder");
    assert("folder"@.len() > 0);
    reveal_strlit("!!");
    assert("!!"@.len() > 0);
    reveal_strlit("-!!");
    assert("-!!"@.len() > 0);
    reveal_strlit("--!!");
    assert("--!!"@.len() > 0);
    reveal_strlit("-rerun");
    assert("-rerun"@.len() > 0);
    reveal_strlit("--rerun");
    assert("--rerun"@.len() > 0);
}

/// Exactly seventeen first words leave the ordinary run: each mode other
/// than `Run` is asked for by its own listed words and by no other word, and
/// every other word, options such as `--recipe` or `-i` among them, records
/// the arguments and runs.
pub proof fn lemma_listed_words_only(word: Seq<char>)
    ensures
        (launch_mode_of(word) == LaunchMode::OpenEncodingPresets) <==> set![
            "enc"@,
            "encoding"@,
            "presets"@,
            "encpresets"@,
            "macros"@,
        ].contains(word),
        (launch_mode_of(word) == LaunchMode::OpenRecipe) <==> set![
            "rc"@,
            "recipe"@,
            "conf"@,
            "config"@,
        ].contains(word),
        (launch_mode_of(word) == LaunchMode::ShowDirectory) <==> set![
            "root"@,
            "dir"@,
            "folder"@,
        ].contains(word),
        (launch_mode_of(word) == LaunchMode::Rerun) <==> set![
            "!!"@,
            "-!!"@,
            "--!!"@,
            "-rerun"@,
            "--rerun"@,
        ].contains(word),
        (launch_mode_of(word) != LaunchMode::Run) <==> set![
            "enc"@,
            "encoding"@,
            "presets"@,
            "encpresets"@,
            "macros"@,
            "rc"@,
            "recipe"@,
            "conf"@,
            "config"@,
            "root"@,
            "dir"@,
            "folder"@,
            "!!"@,
            "-!!"@,
            "--!!"@,
            "-rerun"@,
            "--rerun"@,
        ].contains(word),
        word.len() > 0 && word[0] == '-' && word != "-!!"@ && word != "--!!"@ && word != "-rerun"@
            && word != "--rerun"@ ==> launch_mode_of(word) == LaunchMode::Run,
{
    reveal_strlit("enc");
    reveal_strlit("encoding");
    reveal_strlit("presets");
    reveal_strlit("encpresets");
    reveal_strlit("macros");
    reveal_strlit("rc");
    reveal_strlit("recipe");
    reveal_strlit("conf");
    reveal_strlit("config");
    reveal_strlit("root");
    reveal_strlit("dir");
    reveal_strlit("folder");
    reveal_strlit("!!");
    reveal_strlit("-!!");
    reveal_strlit("--!!");
    reveal_strlit("-rerun");
    reveal_strlit("--rerun");
    assert("rc"@.len() != "enc"@.len());
    assert("rc"@.len() != "encoding"@.len());
    assert("rc"@.len() != "presets"@.len());
    assert("rc"@.len() != "encpresets"@.len());
    assert("rc"@.len() != "macros"@.len());
    assert("recipe"@.len() != "enc"@.len());
    assert("recipe"@.len() != "encoding"@.len());
    assert("recipe"@.len() != "presets"@.len());
    assert("recipe"@.len() != "encpresets"@.len());
    assert("recipe"@[0] != "macros"@[0]);
    assert("conf"@.len() != "enc"@.len());
    assert("conf"@.len() != "encoding"@.len());
    assert("conf"@.len() != "presets"@.len());
    assert("conf"@.len() != "encpresets"@.len());
    assert("conf"@.len() != "macros"@.len());
    assert("config"@.len() != "enc"@.len());
    assert("config"@.len() != "encoding"@.len());
    assert("config"@.len() != "presets"@.len());
    assert("config"@.len() != "encpresets"@.len());
    assert("config"@[0] != "macros"@[0]);
    assert("root"@.len() != "enc"@.len());
    assert("root"@.len() != "encoding"@.len());
    assert("root"@.len() != "presets"@.len());
    assert("root"@.len() != "encpresets"@.len());
    assert("root"@.len() != "macros"@.len());
    assert("root"@.len() != "rc"@.len());
    assert("root"@.len() != "recipe"@.len());
    assert("root"@[0] != "conf"@[0]);
    assert("root"@.len() != "config"@.len());
    assert("dir"@[0] != "enc"@[0]);
    assert("dir"@.len() != "encoding"@.len());
    assert("dir"@.len() != "presets"@.len());
    assert("dir"@.len() != "encpresets"@.len());
    assert("dir"@.len() != "macros"@.len());
    assert("dir"@.len() != "rc"@.len());
    assert("dir"@.len() != "recipe"@.len());
    assert("dir"@.len() != "conf"@.len());
    assert("dir"@.len() != "config"@.len());
    assert("folder"@.len() != "enc"@.len());
    assert("folder"@.len() != "encoding"@.len());
    assert("folder"@.len() != "presets"@.len());
    assert("folder"@.len() != "encpresets"@.len());
    assert("folder"@[0] != "macros"@[0]);
    assert("folder"@.len() != "rc"@.len());
    assert("folder"@[0] != "recipe"@[0]);
    assert("folder"@.len() != "conf"@.len());
    assert("folder"@[0] != "config"@[0]);
    assert("!!"@.len() != "enc"@.len());
    assert("!!"@.len() != "encoding"@.len());
    assert("!!"@.len() != "presets"@.len());
    assert("!!"@.len() != "encpresets"@.len());
    assert("!!"@.len() != "macros"@.len());
    assert("!!"@[0] != "rc"@[0]);
    assert("!!"@.len() != "recipe"@.len());
    assert("!!"@.len() != "conf"@.len());
    assert("!!"@.len() != "config"@.len());
    assert("!!"@.len() != "root"@.len());
    assert("!!"@.len() != "dir"@.len());
    assert("!!"@.len() != "folder"@.len());
    assert("-!!"@[0] != "enc"@[0]);
    assert("-!!"@.len() != "encoding"@.len());
    assert("-!!"@.len() != "presets"@.len());
    assert("-!!"@.len() != "encpresets"@.len());
    assert("-!!"@.len() != "macros"@.len());
    assert("-!!"@.len() != "rc"@.len());
    assert("-!!"@.len() != "recipe"@.len());
    assert("-!!"@.len() != "conf"@.len());
    assert("-!!"@.len() != "config"@.len());
    assert("-!!"@.len() != "root"@.len());
    assert("-!!"@[0] != "dir"@[0]);
    assert("-!!"@.len() != "folder"@.len());
    assert("--!!"@.len() != "enc"@.len());
    assert("--!!"@.len() != "encoding"@.len());
    assert("--!!"@.len() != "presets"@.len());
    assert("--!!"@.len() != "encpresets"@.len());
    assert("--!!"@.len() != "macros"@.len());
    assert("--!!"@.len() != "rc"@.len());
    assert("--!!"@.len() != "recipe"@.len());
    assert("--!!"@[0] != "conf"@[0]);
    assert("--!!"@.len() != "config"@.len());
    assert("--!!"@[0] != "root"@[0]);
    assert("--!!"@.len() != "dir"@.len());
    assert("--!!"@.len() != "folder"@.len());
    assert("-rerun"@.len() != "enc"@.len());
    assert("-rerun"@.len() != "encoding"@.len());
    assert("-rerun"@.len() != "presets"@.len());
    assert("-rerun"@.len() != "encpresets"@.len());
    assert("-rerun"@[0] != "macros"@[0]);
    assert("-rerun"@.len() != "rc"@.len());
    assert("-rerun"@[0] != "recipe"@[0]);
    assert("-rerun"@.len() != "conf"@.len());
    assert("-rerun"@[0] != "config"@[0]);
    assert("-rerun"@.len() != "root"@.len());
    assert("-rerun"@.len() != "dir"@.len());
    assert("-rerun"@[0] != "folder"@[0]);
    assert("--rerun"@.len() != "enc"@.len());
    assert("--rerun"@.len() != "encoding"@.len());
    assert("--rerun"@[0] != "presets"@[0]);
    assert("--rerun"@.len() != "encpresets"@.len());
    assert("--rerun"@.len() != "macros"@.len());
    assert("--rerun"@.len() != "rc"@.len());
    assert("--rerun"@.len() != "recipe"@.len());
    assert("--rerun"@.len() != "conf"@.len());
    assert("--rerun"@.len() != "config"@.len());
    assert("--rerun"@.len() != "root"@.len());
    assert("--rerun"@.len() != "dir"@.len());
    assert("--rerun"@.len() != "folder"@.len());
    assert("enc"@[0] != '-');
    assert("encoding"@[0] != '-');
    assert("presets"@[0] != '-');
    assert("encpresets"@[0] != '-');
    assert("macros"@[0] != '-');
    assert("rc"@[0] != '-');
    assert("recipe"@[0] != '-');
    assert("conf"@[0] != '-');
    assert("config"@[0] != '-');
    assert("root"@[0] != '-');
    assert("dir"@[0] != '-');
    assert("folder"@[0] != '-');
    assert("!!"@[0] != '-');
}

fn is_word(word: &String, literal: &str) -> (r: bool)
    ensures
        r == (word@ == literal@),
{
    *word == literal.to_owned()
}

/// What the first word of the command line (empty where there is none)
/// asks for.
pub fn launch_mode(first_word: &str) -> (m: LaunchMode)
    ensures
        m == launch_mode_of(first_word@),
{
    let w = first_word.to_owned();
    if is_word(&w, "enc") || is_word(&w, "encoding") || is_word(&w, "presets") || is_word(
        &w,
        "encpresets",
    ) || is_word(&w, "macros") {
        LaunchMode::OpenEncodingPresets
    } else if is_word(&w, "rc") || is_word(&w, "recipe") || is_word(&w, "conf") || is_word(
        &w,
        "config",
    ) {
        LaunchMode::OpenRecipe
    } else if is_word(&w, "root") || is_word(&w, "dir") || is_word(&w, "folder") {
        LaunchMode::ShowDirectory
    } else if is_word(&w, "!!") || is_word(&w, "-!!") || is_word(&w, "--!!") || is_word(
        &w,
        "-rerun",
    ) || is_word(&w, "--rerun") {
        LaunchMode::Rerun
    } else {
        LaunchMode::Run
    }
}

/// Where in the source a crash happened: file, line and column.
pub struct CrashLocation {
    pub file: String,
    pub line: String,
    pub column: String,
}

/// The location as the report shows it: `file:line:column`, or `?:?:?`
/// where it is unknown.
pub open spec fn location_text(location: Option<CrashLocation>) -> Seq<char> {
    match location {
        Some(l) => l.file@ + ":"@ + l.line@ + ":"@ + l.column@,
        None => "?:?:?"@,
    }
}

pub open spec fn crash_text(message: Seq<char>, location: Seq<char>, arguments: Seq<char>) -> Seq<char> {
    "Error message:\n"@ + message + "\n\nLocation in source:\n"@ + location
        + "\n\nArguments passed:\n"@ + arguments
        + "\n\nNote: If your PC is still going BRRR the video might still be rendering :)\n\nIf you'd like help, take a screenshot of this message and your recipe and come over to discord.gg/CTT and make a post in #support\n                    "@
}

/// The text of the crash dialog, from the panic's message, its location,
/// and the program's arguments as Rust's debug formatting prints them.
pub fn crash_report(message: &str, location: &Option<CrashLocation>, arguments: &str) -> (r: String)
    ensures
        r@ == crash_text(message@, location_text(*location), arguments@),
{
    let mut r = "Error message:\n".to_owned();
    r.append(message);
    r.append("\n\nLocation in source:\n");
    match location {
        Some(l) => {
            r.append(l.file.as_str());
            r.append(":");
            r.append(l.line.as_str());
            r.append(":");
            r.append(l.column.as_str());
        },
        None => {
            r.append("?:?:?");
        },
    }
    r.append("\n\nArguments passed:\n");
    r.append(arguments);
    r.append(
        "\n\nNote: If your PC is still going BRRR the video might still be rendering :)\n\nIf you'd like help, take a screenshot of this message and your recipe and come over to discord.gg/CTT and make a post in #support\n                    ",
    );
    r
}

} // verus!
