//! The render pipelines: VSPipe feeds FFmpeg, and FFmpeg may feed FFplay
//! for a preview. The library plans the processes; the caller spawns them.
use vstd::prelude::*;
use vstd::string::StringExecFns;

verus! {

/// The part of a render job that names its input.
pub struct Payload {
    /// The input's file name, shown on the progress bar.
    pub basename: String,
    /// The input video's path.
    pub in_path: String,
}

/// One render job: the programs of the pipeline and their arguments.
pub struct SmCommand {
    pub vs_path: String,
    pub vs_args: Vec<String>,
    pub ff_path: String,
    pub ff_args: Vec<String>,
    pub ffplay_path: Option<String>,
    pub ffplay_args: Option<Vec<String>>,
    pub payload: Payload,
}

/// Where a process's output stream goes.
#[derive(Debug, PartialEq, Eq, Structural, Clone, Copy)]
pub enum Stream {
    /// Into a pipe that the caller reads or hands on.
    Piped,
    /// To the caller's own stream.
    Inherit,
    /// Discarded.
    Null,
}

/// One process of a pipeline.
pub struct Stage {
    pub program: String,
    pub args: Vec<String>,
    /// Reads the previous stage's piped output (else the caller's input).
    pub stdin_from_previous: bool,
    pub stdout: Stream,
    pub stderr: Stream,
}

pub open spec fn strings(v: Seq<String>) -> Seq<Seq<char>> {
    v.map_values(|s: String| s@)
}

/// The stages form a chain: every stage but the first reads the previous
/// one's output, and a stage's output is piped exactly where a stage follows.
pub open spec fn chained(stages: Seq<Stage>) -> bool {
    forall|i: int|
        0 <= i < stages.len() ==> {
            &&& (#[trigger] stages[i]).stdin_from_previous == (i > 0)
            &&& (stages[i].stdout == Stream::Piped) == (i + 1 < stages.len())
        }
}

/// Whether FFplay shows a preview: the recipe enables it and FFplay has arguments.
pub open spec fn previewing(cmd: &SmCommand, preview_enabled: bool) -> bool {
    preview_enabled && cmd.ffplay_args is Some
}

pub open spec fn stage_is(
    s: Stage,
    program: Seq<char>,
    args: Seq<Seq<char>>,
    stdout: Stream,
    stderr: Stream,
) -> bool {
    &&& s.program@ == program
    &&& strings(s.args@) == args
    &&& s.stdout == stdout
    &&& s.stderr == stderr
}

/// The pipeline that renders a job, with FFplay after FFmpeg where the
/// preview is on. FFplay's path is needed when the preview is on.
pub fn preview_pipeline(cmd: SmCommand, preview_enabled: bool) -> (stages: Vec<Stage>)
    requires
        previewing(&cmd, preview_enabled) ==> cmd.ffplay_path is Some,
    ensures
        chained(stages@),
        stages@.len() == if previewing(&cmd, preview_enabled) { 3int } else { 2int },
        stage_is(stages@[0], cmd.vs_path@, strings(cmd.vs_args@), Stream::Piped, Stream::Inherit),
        stage_is(
            stages@[1],
            cmd.ff_path@,
            strings(cmd.ff_args@),
            if previewing(&cmd, preview_enabled) { Stream::Piped } else { Stream::Inherit },
            Stream::Inherit,
        ),
        previewing(&cmd, preview_enabled) ==> stage_is(
            stages@[2],
            cmd.ffplay_path->0@,
            strings(cmd.ffplay_args->0@),
            Stream::Inherit,
            Stream::Inherit,
        ),
{
    let ghost c = cmd;
    let preview = preview_enabled && cmd.ffplay_args.is_some();
    let mut stages: Vec<Stage> = Vec::new();
    stages.push(Stage {
        program: cmd.vs_path,
        args: cmd.vs_args,
        stdin_from_previous: false,
        stdout: Stream::Piped,
        stderr: Stream::Inherit,
    });
    stages.push(Stage {
        program: cmd.ff_path,
        args: cmd.ff_args,
        stdin_from_previous: true,
        stdout: if preview { Stream::Piped } else { Stream::Inherit },
        stderr: Stream::Inherit,
    });
    if preview {
        match (cmd.ffplay_path, cmd.ffplay_args) {
            (Some(path), Some(args)) => {
                stages.push(Stage {
                    program: path,
                    args,
                    stdin_from_previous: true,
                    stdout: Stream::Inherit,
                    stderr: Stream::Inherit,
                });
            },
            _ => {},
        }
    }
    proof {
        assert(previewing(&c, preview_enabled) == preview);
    }
    stages
}

/// The pipeline that renders a job while its progress is followed: VSPipe's
/// error stream is piped to the progress tracker, FFmpeg's is discarded.
pub fn progress_pipeline(cmd: SmCommand) -> (stages: Vec<Stage>)
    ensures
        chained(stages@),
        stages@.len() == 2,
        stage_is(stages@[0], cmd.vs_path@, strings(cmd.vs_args@), Stream::Piped, Stream::Piped),
        stage_is(stages@[1], cmd.ff_path@, strings(cmd.ff_args@), Stream::Inherit, Stream::Null),
{
    let mut stages: Vec<Stage> = Vec::new();
    stages.push(Stage {
        program: cmd.vs_path,
        args: cmd.vs_args,
        stdin_from_previous: false,
        stdout: Stream::Piped,
        stderr: Stream::Piped,
    });
    stages.push(Stage {
        program: cmd.ff_path,
        args: cmd.ff_args,
        stdin_from_previous: true,
        stdout: Stream::Inherit,
        stderr: Stream::Null,
    });
    stages
}

/// The progress bar's template for a job: its name in brackets, the bar,
/// the percentage and the time left.
pub fn progress_template(basename: &str) -> (t: String)
    ensures
        t@ == " ["@ + basename@ + "] {wide_bar:.cyan/blue} {percent}% | ETA: {eta_precise}"@,
{
    let mut t = " [".to_owned();
    t.append(basename);
    t.append("] {wide_bar:.cyan/blue} {percent}% | ETA: {eta_precise}");
    t
}

} // verus!
