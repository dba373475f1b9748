//! Plain values exchanged with the executor, the diff tracker and the event
//! stream.
use vstd::prelude::*;

verus! {

/// Who started a command invocation.
#[derive(Clone, Copy, Debug, PartialEq, Eq, Structural)]
pub enum ExecCommandSource {
    Agent,
    UserShell,
    UnifiedExecStartup,
    UnifiedExecInteraction,
}

/// Elapsed wall-clock time of an execution.
#[derive(Clone, Copy, Debug, PartialEq, Eq, Structural)]
pub struct ExecDuration {
    pub secs: u64,
    pub nanos: u32,
}

impl ExecDuration {
    pub open spec fn is_zero(self) -> bool {
        self.secs == 0 && self.nanos == 0
    }

    pub fn zero() -> (r: ExecDuration)
        ensures
            r.is_zero(),
    {
        ExecDuration { secs: 0, nanos: 0 }
    }
}

#[allow(inconsistent_fields)]
/// A display-oriented token of a command line, as the command parser
/// produces it.
#[derive(Debug)]
pub enum ParsedCommand {
    Read { cmd: String, name: String, path: String },
    ListFiles { cmd: String, path: Option<String> },
    Search { cmd: String, query: Option<String>, path: Option<String> },
    Unknown { cmd: String },
}

impl Clone for ParsedCommand {
    fn clone(&self) -> (r: Self)
        ensures
            r == *self,
    {
        match self {
            ParsedCommand::Read { cmd, name, path } => ParsedCommand::Read {
                cmd: cmd.clone(),
                name: name.clone(),
                path: path.clone(),
            },
            ParsedCommand::ListFiles { cmd, path } => ParsedCommand::ListFiles {
                cmd: cmd.clone(),
                path: path.clone(),
            },
            ParsedCommand::Search { cmd, query, path } => ParsedCommand::Search {
                cmd: cmd.clone(),
                query: query.clone(),
                path: path.clone(),
            },
            ParsedCommand::Unknown { cmd } => ParsedCommand::Unknown { cmd: cmd.clone() },
        }
    }
}


/// What a patch does to one file.
#[derive(Debug)]
pub enum FileChange {
    Add { content: String },
    Delete { content: String },
    Update { unified_diff: String, move_path: Option<String> },
}

impl Clone for FileChange {
    fn clone(&self) -> (r: Self)
        ensures
            r == *self,
    {
        match self {
            FileChange::Add { content } => FileChange::Add { content: content.clone() },
            FileChange::Delete { content } => FileChange::Delete { content: content.clone() },
            FileChange::Update { unified_diff, move_path } => FileChange::Update {
                unified_diff: unified_diff.clone(),
                move_path: move_path.clone(),
            },
        }
    }
}

/// One entry of a patch: the file it touches and the change made to it.
#[derive(Debug)]
pub struct PatchChange {
    pub path: String,
    pub change: FileChange,
}

impl Clone for PatchChange {
    fn clone(&self) -> (r: Self)
        ensures
            r == *self,
    {
        PatchChange { path: self.path.clone(), change: self.change.clone() }
    }
}

/// What the executor reports of a finished process.
///
/// Besides the raw streams it carries the two renderings of the output made
/// when the output was taken: `formatted_output` for display and
/// `model_output` for the conversation.
#[derive(Debug)]
pub struct ExecToolCallOutput {
    pub exit_code: i32,
    pub stdout: String,
    pub stderr: String,
    pub aggregated_output: String,
    pub duration: ExecDuration,
    pub formatted_output: String,
    pub model_output: String,
}

/// Why a tool invocation did not produce a regular output.
#[derive(Debug)]
pub enum ToolError {
    /// The sandbox stopped the process on a timeout; its output is kept.
    SandboxTimeout(ExecToolCallOutput),
    /// The sandbox denied the process; its output is kept.
    SandboxDenied(ExecToolCallOutput),
    /// Any other error of the execution layer, by its diagnostic rendering.
    Execution(String),
    /// The invocation was rejected before it ran, with the rejection text.
    Rejected(String),
}

/// An error handed back to the conversation.
#[derive(Debug)]
pub enum FunctionCallError {
    RespondToModel(String),
}

#[derive(Debug)]
pub struct ExecCommandBeginEvent {
    pub call_id: String,
    pub turn_id: String,
    pub command: Vec<String>,
    pub cwd: String,
    pub parsed_cmd: Vec<ParsedCommand>,
    pub source: ExecCommandSource,
    pub interaction_input: Option<String>,
}

#[derive(Debug)]
pub struct ExecCommandEndEvent {
    pub call_id: String,
    pub turn_id: String,
    pub command: Vec<String>,
    pub cwd: String,
    pub parsed_cmd: Vec<ParsedCommand>,
    pub source: ExecCommandSource,
    pub interaction_input: Option<String>,
    pub stdout: String,
    pub stderr: String,
    pub aggregated_output: String,
    pub exit_code: i32,
    pub duration: ExecDuration,
    pub formatted_output: String,
}

#[derive(Debug)]
pub struct PatchApplyBeginEvent {
    pub call_id: String,
    pub auto_approved: bool,
    pub changes: Vec<PatchChange>,
}

#[derive(Debug)]
pub struct PatchApplyEndEvent {
    pub call_id: String,
    pub stdout: String,
    pub stderr: String,
    pub success: bool,
}

#[derive(Debug)]
pub struct TurnDiffEvent {
    pub unified_diff: String,
}

/// An outbound event of the tool lifecycle.
#[derive(Debug)]
pub enum EventMsg {
    ExecCommandBegin(ExecCommandBeginEvent),
    ExecCommandEnd(ExecCommandEndEvent),
    PatchApplyBegin(PatchApplyBeginEvent),
    PatchApplyEnd(PatchApplyEndEvent),
    TurnDiff(TurnDiffEvent),
}

} // verus!
