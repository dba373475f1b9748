//! The tool emitter: lifecycle dispatch and outcome normalization.
//!
//! Nothing here performs I/O. Each entry point returns the ordered steps a
//! runner carries out for one invocation: send an event through the session,
//! hand pending changes to the turn's diff tracker, or read the tracker's
//! unified diff (whose answer goes to [`turn_diff_event`]).
use crate::protocol::EventMsg;
use crate::protocol::ExecCommandBeginEvent;
use crate::protocol::ExecCommandEndEvent;
use crate::protocol::ExecCommandSource;
use crate::protocol::ExecDuration;
use crate::protocol::ExecToolCallOutput;
use crate::protocol::FunctionCallError;
use crate::protocol::ParsedCommand;
use crate::protocol::PatchApplyBeginEvent;
use crate::protocol::PatchApplyEndEvent;
use crate::protocol::PatchChange;
use crate::protocol::ToolError;
use crate::protocol::TurnDiffEvent;
use vstd::prelude::*;

verus! {

/// What the events of one invocation are stamped with. It is borrowed for
/// the length of that invocation and never kept.
#[derive(Clone, Copy, Debug)]
pub struct ToolEventCtx<'a> {
    pub turn_id: &'a str,
    pub call_id: &'a str,
    /// Whether the turn keeps a shared diff tracker.
    pub has_turn_diff_tracker: bool,
}

impl<'a> ToolEventCtx<'a> {
    pub fn new(turn_id: &'a str, call_id: &'a str, has_turn_diff_tracker: bool) -> (r: Self)
        ensures
            r.turn_id == turn_id,
            r.call_id == call_id,
            r.has_turn_diff_tracker == has_turn_diff_tracker,
    {
        ToolEventCtx { turn_id, call_id, has_turn_diff_tracker }
    }
}

/// How an invocation failed, as the closing event reports it.
#[derive(Debug)]
pub enum ToolEventFailure {
    Output(ExecToolCallOutput),
    Message(String),
}

/// A lifecycle stage of one invocation.
#[derive(Debug)]
pub enum ToolEventStage {
    Begin,
    Success(ExecToolCallOutput),
    Failure(ToolEventFailure),
}

/// One thing the runner does, in order, for an emitted stage.
#[derive(Debug)]
pub enum EmitStep {
    /// Lock the turn's diff tracker and hand it the pending changes, so it
    /// can take the files' contents before the patch lands.
    TrackPatchBegin(Vec<PatchChange>),
    /// Send the event through the session.
    Send(EventMsg),
    /// Lock the turn's diff tracker, read its unified diff, and pass the
    /// answer to [`turn_diff_event`].
    ReadUnifiedDiff,
}

/// The fields of a command-end event that describe what the process did.
#[derive(Debug)]
pub struct ExecCommandResultPayload {
    pub stdout: String,
    pub stderr: String,
    pub aggregated_output: String,
    pub exit_code: i32,
    pub duration: ExecDuration,
    pub formatted_output: String,
}

/// The payload reports the execution output field for field.
pub open spec fn payload_reports_output(p: ExecCommandResultPayload, o: ExecToolCallOutput) -> bool {
    &&& p.stdout == o.stdout
    &&& p.stderr == o.stderr
    &&& p.aggregated_output == o.aggregated_output
    &&& p.exit_code == o.exit_code
    &&& p.duration == o.duration
    &&& p.formatted_output == o.formatted_output
}

/// The payload of a failure where no process ran: exit code -1, no time
/// spent, and the message standing for every text field but stdout.
pub open spec fn payload_reports_message(p: ExecCommandResultPayload, m: String) -> bool {
    &&& p.stdout@ == Seq::<char>::empty()
    &&& p.stderr == m
    &&& p.aggregated_output == m
    &&& p.exit_code == -1
    &&& p.duration.is_zero()
    &&& p.formatted_output == m
}

pub fn payload_from_output(output: &ExecToolCallOutput) -> (r: ExecCommandResultPayload)
    ensures
        payload_reports_output(r, *output),
{
    ExecCommandResultPayload {
        stdout: output.stdout.clone(),
        stderr: output.stderr.clone(),
        aggregated_output: output.aggregated_output.clone(),
        exit_code: output.exit_code,
        duration: output.duration,
        formatted_output: output.formatted_output.clone(),
    }
}

fn payload_from_message(message: &String) -> (r: ExecCommandResultPayload)
    ensures
        payload_reports_message(r, *message),
{
    ExecCommandResultPayload {
        stdout: String::new(),
        stderr: message.clone(),
        aggregated_output: message.clone(),
        exit_code: -1,
        duration: ExecDuration::zero(),
        formatted_output: message.clone(),
    }
}


/// `e` is a command-begin event stamped from `ctx` with these fields.
pub open spec fn exec_begin_carries(
    e: EventMsg,
    ctx: ToolEventCtx,
    command: Seq<String>,
    cwd: String,
    parsed_cmd: Seq<ParsedCommand>,
    source: ExecCommandSource,
    interaction_input: Option<String>,
) -> bool {
    &&& e matches EventMsg::ExecCommandBegin(b)
    &&& b.call_id@ == ctx.call_id@
    &&& b.turn_id@ == ctx.turn_id@
    &&& b.command@ == command
    &&& b.cwd == cwd
    &&& b.parsed_cmd@ == parsed_cmd
    &&& b.source == source
    &&& b.interaction_input == interaction_input
}

/// No two entries of a patch name the same file: the changes map each
/// path to one change.
pub open spec fn distinct_paths(changes: Seq<PatchChange>) -> bool {
    forall|i: int, j: int|
        0 <= i < j < changes.len() ==> #[trigger] changes[i].path@ != #[trigger] changes[j].path@
}

/// One in-flight tool invocation with the metadata captured when it started.
/// Both its begin and its end event are built from these same fields.
#[derive(Debug)]
pub enum ToolEmitter {
    Shell {
        command: Vec<String>,
        cwd: String,
        source: ExecCommandSource,
        parsed_cmd: Vec<ParsedCommand>,
    },
    /// `changes` holds one entry per path (see `distinct_paths`).
    ApplyPatch { changes: Vec<PatchChange>, auto_approved: bool },
    UnifiedExec {
        command: Vec<String>,
        cwd: String,
        source: ExecCommandSource,
        interaction_input: Option<String>,
        parsed_cmd: Vec<ParsedCommand>,
    },
}

/// The command-related fields that a command event repeats.
struct ExecEventMetadata<'a> {
    command: &'a Vec<String>,
    cwd: &'a String,
    parsed_cmd: &'a Vec<ParsedCommand>,
    source: ExecCommandSource,
    interaction_input: Option<String>,
}

impl ToolEmitter {
    pub open spec fn is_exec(self) -> bool {
        !(self is ApplyPatch)
    }

    /// The command-event fields the emitter fixes, for the command kinds.
    pub open spec fn exec_fields_match(
        self,
        command: Seq<String>,
        cwd: String,
        parsed_cmd: Seq<ParsedCommand>,
        source: ExecCommandSource,
        interaction_input: Option<String>,
    ) -> bool {
        match self {
            ToolEmitter::Shell { command: c, cwd: d, source: s, parsed_cmd: p } => {
                &&& command == c@
                &&& cwd == d
                &&& parsed_cmd == p@
                &&& source == s
                &&& interaction_input is None
            },
            ToolEmitter::UnifiedExec {
                command: c,
                cwd: d,
                source: s,
                interaction_input: i,
                parsed_cmd: p,
            } => {
                &&& command == c@
                &&& cwd == d
                &&& parsed_cmd == p@
                &&& source == s
                &&& interaction_input == i
            },
            ToolEmitter::ApplyPatch { .. } => false,
        }
    }

    /// `e` is the event that opens this invocation.
    pub open spec fn begin_event(self, ctx: ToolEventCtx, e: EventMsg) -> bool {
        match e {
            EventMsg::ExecCommandBegin(b) => {
                &&& b.call_id@ == ctx.call_id@
                &&& b.turn_id@ == ctx.turn_id@
                &&& self.exec_fields_match(
                    b.command@,
                    b.cwd,
                    b.parsed_cmd@,
                    b.source,
                    b.interaction_input,
                )
            },
            EventMsg::PatchApplyBegin(b) => {
                &&& self matches ToolEmitter::ApplyPatch { changes, auto_approved }
                &&& b.call_id@ == ctx.call_id@
                &&& b.auto_approved == auto_approved
                &&& b.changes@ == changes@
            },
            _ => false,
        }
    }

    /// `e` is a command-end event of this invocation with these results.
    pub open spec fn exec_end_event(
        self,
        ctx: ToolEventCtx,
        e: EventMsg,
        stdout: Seq<char>,
        stderr: Seq<char>,
        aggregated_output: Seq<char>,
        exit_code: i32,
        duration: ExecDuration,
        formatted_output: Seq<char>,
    ) -> bool {
        &&& e matches EventMsg::ExecCommandEnd(x)
        &&& x.call_id@ == ctx.call_id@
        &&& x.turn_id@ == ctx.turn_id@
        &&& self.exec_fields_match(x.command@, x.cwd, x.parsed_cmd@, x.source, x.interaction_input)
        &&& x.stdout@ == stdout
        &&& x.stderr@ == stderr
        &&& x.aggregated_output@ == aggregated_output
        &&& x.exit_code == exit_code
        &&& x.duration == duration
        &&& x.formatted_output@ == formatted_output
    }

    /// `e` is a patch-end event of this invocation.
    pub open spec fn patch_end_event(
        self,
        ctx: ToolEventCtx,
        e: EventMsg,
        stdout: Seq<char>,
        stderr: Seq<char>,
        success: bool,
    ) -> bool {
        &&& self is ApplyPatch
        &&& e matches EventMsg::PatchApplyEnd(x)
        &&& x.call_id@ == ctx.call_id@
        &&& x.stdout@ == stdout
        &&& x.stderr@ == stderr
        &&& x.success == success
    }

    /// `e` closes this invocation and reports the execution output verbatim.
    pub open spec fn end_event_reports_output(
        self,
        ctx: ToolEventCtx,
        e: EventMsg,
        o: ExecToolCallOutput,
    ) -> bool {
        if self.is_exec() {
            self.exec_end_event(
                ctx,
                e,
                o.stdout@,
                o.stderr@,
                o.aggregated_output@,
                o.exit_code,
                o.duration,
                o.formatted_output@,
            )
        } else {
            self.patch_end_event(ctx, e, o.stdout@, o.stderr@, o.exit_code == 0)
        }
    }

    /// `e` closes this invocation and reports a failure where no process
    /// ran: the message stands for the output, the exit code is -1 and no
    /// time was spent.
    pub open spec fn end_event_reports_message(
        self,
        ctx: ToolEventCtx,
        e: EventMsg,
        m: Seq<char>,
    ) -> bool {
        if self.is_exec() {
            self.exec_end_event(
                ctx,
                e,
                Seq::<char>::empty(),
                m,
                m,
                -1i32,
                ExecDuration { secs: 0, nanos: 0 },
                m,
            )
        } else {
            self.patch_end_event(ctx, e, Seq::<char>::empty(), m, false)
        }
    }

    /// `e` is the one event that stands for `stage`.
    pub open spec fn stage_event(self, ctx: ToolEventCtx, stage: ToolEventStage, e: EventMsg) -> bool {
        match stage {
            ToolEventStage::Begin => self.begin_event(ctx, e),
            ToolEventStage::Success(o) => self.end_event_reports_output(ctx, e, o),
            ToolEventStage::Failure(ToolEventFailure::Output(o)) => self.end_event_reports_output(ctx, e, o),
            ToolEventStage::Failure(ToolEventFailure::Message(m)) => self.end_event_reports_message(ctx, e, m@),
        }
    }

    /// Whether the diff tracker takes part in emitting a stage.
    pub open spec fn uses_tracker(self, ctx: ToolEventCtx) -> bool {
        self is ApplyPatch && ctx.has_turn_diff_tracker
    }

    /// Where the stage's event stands among the emitted steps.
    pub open spec fn primary_index(self, ctx: ToolEventCtx, stage: ToolEventStage) -> int {
        if self.uses_tracker(ctx) && stage is Begin {
            1
        } else {
            0
        }
    }

    /// The steps that emitting `stage` takes: exactly one event for the
    /// stage and, for a patch in a turn that tracks diffs, the tracker call
    /// (notify before the patch-begin event, read the diff after the
    /// patch-end event). No other step sends anything.
    pub open spec fn emits(self, ctx: ToolEventCtx, stage: ToolEventStage, steps: Seq<EmitStep>) -> bool {
        let i = self.primary_index(ctx, stage);
        &&& steps.len() == if self.uses_tracker(ctx) { 2int } else { 1int }
        &&& steps[i] matches EmitStep::Send(e)
        &&& self.stage_event(ctx, stage, e)
        &&& self.uses_tracker(ctx) ==> if stage is Begin {
            &&& steps[0] matches EmitStep::TrackPatchBegin(c)
            &&& self matches ToolEmitter::ApplyPatch { changes, .. }
            &&& c@ == changes@
        } else {
            steps[1] is ReadUnifiedDiff
        }
    }

    /// `steps` and `result` are what finishing this invocation with `out`
    /// gives. A completed process is reported as a success whatever its
    /// exit code, while the conversation is told of a failure unless it
    /// exited with 0; a sandbox timeout or denial reports the output it
    /// kept; an execution error or a rejection reports a message, the same
    /// text in the event and in the result.
    pub open spec fn finishes(
        self,
        ctx: ToolEventCtx,
        out: Result<ExecToolCallOutput, ToolError>,
        steps: Seq<EmitStep>,
        result: Result<String, FunctionCallError>,
    ) -> bool {
        match out {
            Ok(o) => {
                &&& self.emits(ctx, ToolEventStage::Success(o), steps)
                &&& result == if o.exit_code == 0 {
                    Ok::<String, FunctionCallError>(o.model_output)
                } else {
                    Err(FunctionCallError::RespondToModel(o.model_output))
                }
            },
            Err(ToolError::SandboxTimeout(o)) => {
                &&& self.emits(ctx, ToolEventStage::Failure(ToolEventFailure::Output(o)), steps)
                &&& result == Err::<String, FunctionCallError>(FunctionCallError::RespondToModel(o.model_output))
            },
            Err(ToolError::SandboxDenied(o)) => {
                &&& self.emits(ctx, ToolEventStage::Failure(ToolEventFailure::Output(o)), steps)
                &&& result == Err::<String, FunctionCallError>(FunctionCallError::RespondToModel(o.model_output))
            },
            Err(ToolError::Execution(detail)) => {
                &&& result matches Err(FunctionCallError::RespondToModel(m))
                &&& m@ == execution_error_text(detail@)
                &&& self.emits(ctx, ToolEventStage::Failure(ToolEventFailure::Message(m)), steps)
            },
            Err(ToolError::Rejected(text)) => {
                &&& result matches Err(FunctionCallError::RespondToModel(m))
                &&& m@ == normalized_rejection(text@)
                &&& self.emits(ctx, ToolEventStage::Failure(ToolEventFailure::Message(m)), steps)
            },
        }
    }
}

/// The event that opens a command invocation.
fn emit_exec_command_begin(
    ctx: ToolEventCtx,
    meta: ExecEventMetadata,
) -> (e: EventMsg)
    ensures
        exec_begin_carries(
            e,
            ctx,
            meta.command@,
            *meta.cwd,
            meta.parsed_cmd@,
            meta.source,
            meta.interaction_input,
        ),
{
    EventMsg::ExecCommandBegin(ExecCommandBeginEvent {
        call_id: ctx.call_id.to_owned(),
        turn_id: ctx.turn_id.to_owned(),
        command: meta.command.clone(),
        cwd: meta.cwd.clone(),
        parsed_cmd: meta.parsed_cmd.clone(),
        source: meta.source,
        interaction_input: meta.interaction_input,
    })
}

/// `e` is a command-end event stamped from `ctx` with these fields and
/// reporting `p`.
pub open spec fn exec_end_carries(
    e: EventMsg,
    ctx: ToolEventCtx,
    command: Seq<String>,
    cwd: String,
    parsed_cmd: Seq<ParsedCommand>,
    source: ExecCommandSource,
    interaction_input: Option<String>,
    p: ExecCommandResultPayload,
) -> bool {
    &&& e matches EventMsg::ExecCommandEnd(x)
    &&& x.call_id@ == ctx.call_id@
    &&& x.turn_id@ == ctx.turn_id@
    &&& x.command@ == command
    &&& x.cwd == cwd
    &&& x.parsed_cmd@ == parsed_cmd
    &&& x.source == source
    &&& x.interaction_input == interaction_input
    &&& x.stdout == p.stdout
    &&& x.stderr == p.stderr
    &&& x.aggregated_output == p.aggregated_output
    &&& x.exit_code == p.exit_code
    &&& x.duration == p.duration
    &&& x.formatted_output == p.formatted_output
}

/// The event that closes a command invocation.
fn emit_exec_end(ctx: ToolEventCtx, meta: ExecEventMetadata, payload: ExecCommandResultPayload) -> (e:
    EventMsg)
    ensures
        exec_end_carries(
            e,
            ctx,
            meta.command@,
            *meta.cwd,
            meta.parsed_cmd@,
            meta.source,
            meta.interaction_input,
            payload,
        ),
{
    EventMsg::ExecCommandEnd(ExecCommandEndEvent {
        call_id: ctx.call_id.to_owned(),
        turn_id: ctx.turn_id.to_owned(),
        command: meta.command.clone(),
        cwd: meta.cwd.clone(),
        parsed_cmd: meta.parsed_cmd.clone(),
        source: meta.source,
        interaction_input: meta.interaction_input,
        stdout: payload.stdout,
        stderr: payload.stderr,
        aggregated_output: payload.aggregated_output,
        exit_code: payload.exit_code,
        duration: payload.duration,
        formatted_output: payload.formatted_output,
    })
}

/// The patch-end event, followed by a read of the unified diff when the
/// turn tracks diffs.
fn emit_patch_end(ctx: ToolEventCtx, stdout: String, stderr: String, success: bool) -> (steps: Vec<
    EmitStep,
>)
    ensures
        steps@.len() == if ctx.has_turn_diff_tracker { 2int } else { 1int },
        steps@[0] matches EmitStep::Send(EventMsg::PatchApplyEnd(x)) && x.call_id@ == ctx.call_id@
            && x.stdout == stdout && x.stderr == stderr && x.success == success,
        ctx.has_turn_diff_tracker ==> steps@[1] is ReadUnifiedDiff,
{
    let mut steps: Vec<EmitStep> = Vec::new();
    steps.push(
        EmitStep::Send(
            EventMsg::PatchApplyEnd(
                PatchApplyEndEvent { call_id: ctx.call_id.to_owned(), stdout, stderr, success },
            ),
        ),
    );
    if ctx.has_turn_diff_tracker {
        steps.push(EmitStep::ReadUnifiedDiff);
    }
    steps
}

/// The event that follows a read of the turn's unified diff: a turn-diff
/// event carrying the diff when the tracker reported a non-empty one, and
/// nothing when it reported no changes, an empty diff, or failed to compute
/// it.
pub fn turn_diff_event(unified_diff: Result<Option<String>, String>) -> (r: Option<EventMsg>)
    ensures
        unified_diff matches Ok(Some(d)) ==> (d@.len() > 0 ==> (r matches Some(
            EventMsg::TurnDiff(t),
        ) && t.unified_diff == d)),
        !(unified_diff matches Ok(Some(d)) && d@.len() > 0) ==> r is None,
{
    match unified_diff {
        Ok(Some(unified_diff)) => {
            let empty = String::new();
            if unified_diff == empty {
                None
            } else {
                assert(unified_diff@.len() > 0) by {
                    if unified_diff@.len() == 0 {
                        assert(unified_diff@ =~= empty@);
                    }
                }
                Some(EventMsg::TurnDiff(TurnDiffEvent { unified_diff }))
            }
        },
        _ => None,
    }
}

/// The rejection text that gets a clearer phrase.
pub open spec fn canonical_rejection() -> Seq<char> {
    "rejected by user"@
}

/// The phrase that replaces the canonical rejection text.
pub open spec fn clearer_rejection() -> Seq<char> {
    "exec command rejected by user"@
}

/// A rejection text as it reaches the conversation and the event stream.
pub open spec fn normalized_rejection(text: Seq<char>) -> Seq<char> {
    if text == canonical_rejection() {
        clearer_rejection()
    } else {
        text
    }
}

/// The message that reports an error of the execution layer.
pub open spec fn execution_error_text(detail: Seq<char>) -> Seq<char> {
    "execution error: "@ + detail
}

/// Rewrites the canonical rejection text to the clearer phrase and passes
/// every other text through unchanged.
pub fn normalize_rejection(message: String) -> (r: String)
    ensures
        r@ == normalized_rejection(message@),
{
    let canonical = "rejected by user".to_owned();
    if message == canonical {
        "exec command rejected by user".to_owned()
    } else {
        message
    }
}

/// The message for an error of the execution layer, from its diagnostic
/// rendering.
pub fn execution_error_message(detail: &str) -> (r: String)
    ensures
        r@ == execution_error_text(detail@),
{
    let mut message = "execution error: ".to_owned();
    message.append(detail);
    message
}

/// What finishing an invocation yields: the steps that emit its closing
/// event, and the result handed back to the conversation.
#[derive(Debug)]
pub struct Finished {
    pub steps: Vec<EmitStep>,
    pub result: Result<String, FunctionCallError>,
}

/// An owned copy of a slice of strings.
fn copy_strings(items: &[String]) -> (r: Vec<String>)
    ensures
        r@ == items@,
{
    let mut r: Vec<String> = Vec::new();
    let mut i: usize = 0;
    while i < items.len()
        invariant
            i <= items@.len(),
            r@ == items@.subrange(0, i as int),
        decreases items@.len() - i,
    {
        r.push(items[i].clone());
        i = i + 1;
    }
    assert(r@ =~= items@);
    r
}

impl ToolEmitter {
    /// A shell command, with the tokens the command parser made of it.
    pub fn shell(
        command: Vec<String>,
        cwd: String,
        source: ExecCommandSource,
        parsed_cmd: Vec<ParsedCommand>,
    ) -> (r: Self)
        ensures
            r == (ToolEmitter::Shell { command, cwd, source, parsed_cmd }),
    {
        ToolEmitter::Shell { command, cwd, source, parsed_cmd }
    }

    /// A patch application touching `changes`, one entry per file.
    pub fn apply_patch(changes: Vec<PatchChange>, auto_approved: bool) -> (r: Self)
        requires
            distinct_paths(changes@),
        ensures
            r == (ToolEmitter::ApplyPatch { changes, auto_approved }),
    {
        ToolEmitter::ApplyPatch { changes, auto_approved }
    }

    /// An interactive exec session, with the tokens the command parser made
    /// of `command` and the input fed to the running process, if any.
    pub fn unified_exec(
        command: &[String],
        cwd: String,
        source: ExecCommandSource,
        interaction_input: Option<String>,
        parsed_cmd: Vec<ParsedCommand>,
    ) -> (r: Self)
        ensures
            r matches ToolEmitter::UnifiedExec { command: c, cwd: d, source: s, interaction_input: i, parsed_cmd: p }
                && c@ == command@ && d == cwd && s == source && i == interaction_input && p == parsed_cmd,
    {
        ToolEmitter::UnifiedExec {
            command: copy_strings(command),
            cwd,
            source,
            interaction_input,
            parsed_cmd,
        }
    }

    /// The steps that emit `stage` for this invocation.
    pub fn emit(&self, ctx: ToolEventCtx, stage: ToolEventStage) -> (steps: Vec<EmitStep>)
        ensures
            self.emits(ctx, stage, steps@),
    {
        match self {
            ToolEmitter::Shell { command, cwd, source, parsed_cmd } => {
                let meta = ExecEventMetadata {
                    command,
                    cwd,
                    parsed_cmd,
                    source: *source,
                    interaction_input: None,
                };
                let e = match stage {
                    ToolEventStage::Begin => emit_exec_command_begin(ctx, meta),
                    ToolEventStage::Success(output) => emit_exec_end(
                        ctx,
                        meta,
                        payload_from_output(&output),
                    ),
                    ToolEventStage::Failure(ToolEventFailure::Output(output)) => emit_exec_end(
                        ctx,
                        meta,
                        payload_from_output(&output),
                    ),
                    ToolEventStage::Failure(ToolEventFailure::Message(message)) => emit_exec_end(
                        ctx,
                        meta,
                        payload_from_message(&message),
                    ),
                };
                vec![EmitStep::Send(e)]
            },
            ToolEmitter::ApplyPatch { changes, auto_approved } => {
                match stage {
                    ToolEventStage::Begin => {
                        let mut steps: Vec<EmitStep> = Vec::new();
                        if ctx.has_turn_diff_tracker {
                            steps.push(EmitStep::TrackPatchBegin(changes.clone()));
                        }
                        steps.push(
                            EmitStep::Send(
                                EventMsg::PatchApplyBegin(
                                    PatchApplyBeginEvent {
                                        call_id: ctx.call_id.to_owned(),
                                        auto_approved: *auto_approved,
                                        changes: changes.clone(),
                                    },
                                ),
                            ),
                        );
                        steps
                    },
                    ToolEventStage::Success(output) => emit_patch_end(
                        ctx,
                        output.stdout,
                        output.stderr,
                        output.exit_code == 0,
                    ),
                    ToolEventStage::Failure(ToolEventFailure::Output(output)) => emit_patch_end(
                        ctx,
                        output.stdout,
                        output.stderr,
                        output.exit_code == 0,
                    ),
                    ToolEventStage::Failure(ToolEventFailure::Message(message)) => emit_patch_end(
                        ctx,
                        String::new(),
                        message,
                        false,
                    ),
                }
            },
            ToolEmitter::UnifiedExec { command, cwd, source, interaction_input, parsed_cmd } => {
                let meta = ExecEventMetadata {
                    command,
                    cwd,
                    parsed_cmd,
                    source: *source,
                    interaction_input: interaction_input.clone(),
                };
                let e = match stage {
                    ToolEventStage::Begin => emit_exec_command_begin(ctx, meta),
                    ToolEventStage::Success(output) => emit_exec_end(
                        ctx,
                        meta,
                        payload_from_output(&output),
                    ),
                    ToolEventStage::Failure(ToolEventFailure::Output(output)) => emit_exec_end(
                        ctx,
                        meta,
                        payload_from_output(&output),
                    ),
                    ToolEventStage::Failure(ToolEventFailure::Message(message)) => emit_exec_end(
                        ctx,
                        meta,
                        payload_from_message(&message),
                    ),
                };
                vec![EmitStep::Send(e)]
            },
        }
    }

    /// The steps that open this invocation.
    pub fn begin(&self, ctx: ToolEventCtx) -> (steps: Vec<EmitStep>)
        ensures
            self.emits(ctx, ToolEventStage::Begin, steps@),
    {
        self.emit(ctx, ToolEventStage::Begin)
    }

    /// Classifies the raw result of running the tool, and gives both the
    /// steps that emit the closing event and the conversation's result,
    /// derived from the same data.
    pub fn finish(&self, ctx: ToolEventCtx, out: Result<ExecToolCallOutput, ToolError>) -> (r:
        Finished)
        ensures
            self.finishes(ctx, out, r.steps@, r.result),
    {
        let (stage, result) = match out {
            Ok(output) => {
                let content = output.model_output.clone();
                let exit_code = output.exit_code;
                let stage = ToolEventStage::Success(output);
                let result = if exit_code == 0 {
                    Ok(content)
                } else {
                    Err(FunctionCallError::RespondToModel(content))
                };
                (stage, result)
            },
            Err(ToolError::SandboxTimeout(output)) => {
                let response = output.model_output.clone();
                let stage = ToolEventStage::Failure(ToolEventFailure::Output(output));
                (stage, Err(FunctionCallError::RespondToModel(response)))
            },
            Err(ToolError::SandboxDenied(output)) => {
                let response = output.model_output.clone();
                let stage = ToolEventStage::Failure(ToolEventFailure::Output(output));
                (stage, Err(FunctionCallError::RespondToModel(response)))
            },
            Err(ToolError::Execution(detail)) => {
                let message = execution_error_message(detail.as_str());
                let stage = ToolEventStage::Failure(ToolEventFailure::Message(message.clone()));
                (stage, Err(FunctionCallError::RespondToModel(message)))
            },
            Err(ToolError::Rejected(text)) => {
                let normalized = normalize_rejection(text);
                let stage = ToolEventStage::Failure(ToolEventFailure::Message(normalized.clone()));
                (stage, Err(FunctionCallError::RespondToModel(normalized)))
            },
        };
        let steps = self.emit(ctx, stage);
        Finished { steps, result }
    }
}

} // verus!
