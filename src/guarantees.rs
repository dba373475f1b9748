//! What holds of every invocation, stated over the emitter's contracts.
use crate::events::canonical_rejection;
use crate::events::clearer_rejection;
use crate::events::execution_error_text;
use crate::events::EmitStep;
use crate::events::ToolEmitter;
use crate::events::ToolEventCtx;
use crate::events::ToolEventFailure;
use crate::events::ToolEventStage;
use crate::protocol::EventMsg;
use crate::protocol::ExecToolCallOutput;
use crate::protocol::FunctionCallError;
use crate::protocol::ToolError;
use vstd::prelude::*;

verus! {

/// The event that step `i` sends.
pub open spec fn sent(steps: Seq<EmitStep>, i: int) -> EventMsg {
    steps[i]->Send_0
}

pub open spec fn is_begin_event(e: EventMsg) -> bool {
    e is ExecCommandBegin || e is PatchApplyBegin
}

pub open spec fn is_end_event(e: EventMsg) -> bool {
    e is ExecCommandEnd || e is PatchApplyEnd
}

/// Step `i` is the only step that sends anything.
pub open spec fn sends_only_at(steps: Seq<EmitStep>, i: int) -> bool {
    &&& 0 <= i < steps.len()
    &&& steps[i] is Send
    &&& forall|j: int| 0 <= j < steps.len() && j != i ==> !(#[trigger] steps[j] is Send)
}

/// `b` closes the invocation that `a` opened: same call, and for commands
/// the same turn, command, working directory, tokens, source and input.
pub open spec fn same_invocation(a: EventMsg, b: EventMsg) -> bool {
    ||| a matches EventMsg::ExecCommandBegin(x) && b matches EventMsg::ExecCommandEnd(y)
        && x.call_id@ == y.call_id@ && x.turn_id@ == y.turn_id@ && x.command@ == y.command@
        && x.cwd == y.cwd && x.parsed_cmd@ == y.parsed_cmd@ && x.source == y.source
        && x.interaction_input == y.interaction_input
    ||| a matches EventMsg::PatchApplyBegin(x) && b matches EventMsg::PatchApplyEnd(y)
        && x.call_id@ == y.call_id@
}

/// Emitting any stage of any emitter sends exactly one event, of the shape
/// the stage calls for: a begin event for `Begin`, an end event otherwise,
/// of the command kind for shells and exec sessions and of the patch kind
/// for patches.
pub proof fn lemma_one_event_per_stage(
    em: ToolEmitter,
    ctx: ToolEventCtx,
    stage: ToolEventStage,
    steps: Seq<EmitStep>,
)
    requires
        em.emits(ctx, stage, steps),
    ensures
        sends_only_at(steps, em.primary_index(ctx, stage)),
        stage is Begin ==> is_begin_event(sent(steps, em.primary_index(ctx, stage))),
        !(stage is Begin) ==> is_end_event(sent(steps, em.primary_index(ctx, stage))),
        em.is_exec() == (sent(steps, em.primary_index(ctx, stage)) is ExecCommandBegin
            || sent(steps, em.primary_index(ctx, stage)) is ExecCommandEnd),
{
}

/// For any invocation, the steps of `begin` send exactly one event, a begin
/// event, and the steps of `finish` send exactly one event, an end event;
/// the two name the same call, and for commands the same command, working
/// directory and source.
pub proof fn lemma_begin_end_pair(
    em: ToolEmitter,
    ctx: ToolEventCtx,
    begin_steps: Seq<EmitStep>,
    out: Result<ExecToolCallOutput, ToolError>,
    finish_steps: Seq<EmitStep>,
    result: Result<String, FunctionCallError>,
)
    requires
        em.emits(ctx, ToolEventStage::Begin, begin_steps),
        em.finishes(ctx, out, finish_steps, result),
    ensures
        sends_only_at(begin_steps, em.primary_index(ctx, ToolEventStage::Begin)),
        is_begin_event(sent(begin_steps, em.primary_index(ctx, ToolEventStage::Begin))),
        sends_only_at(finish_steps, 0),
        is_end_event(sent(finish_steps, 0)),
        same_invocation(
            sent(begin_steps, em.primary_index(ctx, ToolEventStage::Begin)),
            sent(finish_steps, 0),
        ),
{
    lemma_one_event_per_stage(em, ctx, ToolEventStage::Begin, begin_steps);
    let stage = finish_stage(out, result);
    assert(em.emits(ctx, stage, finish_steps));
    lemma_one_event_per_stage(em, ctx, stage, finish_steps);
}

/// The stage that `finish` emits for `out`, given the result it returned.
pub open spec fn finish_stage(
    out: Result<ExecToolCallOutput, ToolError>,
    result: Result<String, FunctionCallError>,
) -> ToolEventStage {
    match out {
        Ok(o) => ToolEventStage::Success(o),
        Err(ToolError::SandboxTimeout(o)) => ToolEventStage::Failure(
            ToolEventFailure::Output(o),
        ),
        Err(ToolError::SandboxDenied(o)) => ToolEventStage::Failure(
            ToolEventFailure::Output(o),
        ),
        Err(_) => ToolEventStage::Failure(
            ToolEventFailure::Message(result->Err_0->RespondToModel_0),
        ),
    }
}

/// A completed process: the conversation gets the rendering for the model,
/// as a plain value when the exit code is 0 and as an error otherwise,
/// while the closing event reports the real output in either case.
pub proof fn lemma_finish_completed(
    em: ToolEmitter,
    ctx: ToolEventCtx,
    o: ExecToolCallOutput,
    steps: Seq<EmitStep>,
    result: Result<String, FunctionCallError>,
)
    requires
        em.finishes(ctx, Ok(o), steps, result),
    ensures
        o.exit_code == 0 ==> result == Ok::<String, FunctionCallError>(o.model_output),
        o.exit_code != 0 ==> result == Err::<String, FunctionCallError>(
            FunctionCallError::RespondToModel(o.model_output),
        ),
        sends_only_at(steps, 0),
        em.end_event_reports_output(ctx, sent(steps, 0), o),
{
    lemma_one_event_per_stage(em, ctx, ToolEventStage::Success(o), steps);
}

/// A sandbox timeout or denial: the closing event reports the output the
/// sandbox kept, field for field, and the conversation gets its rendering
/// as an error.
pub proof fn lemma_finish_sandbox_block(
    em: ToolEmitter,
    ctx: ToolEventCtx,
    o: ExecToolCallOutput,
    timed_out: bool,
    steps: Seq<EmitStep>,
    result: Result<String, FunctionCallError>,
)
    requires
        em.finishes(
            ctx,
            Err(
                if timed_out {
                    ToolError::SandboxTimeout(o)
                } else {
                    ToolError::SandboxDenied(o)
                },
            ),
            steps,
            result,
        ),
    ensures
        result == Err::<String, FunctionCallError>(FunctionCallError::RespondToModel(o.model_output)),
        sends_only_at(steps, 0),
        em.end_event_reports_output(ctx, sent(steps, 0), o),
{
    lemma_one_event_per_stage(em, ctx, ToolEventStage::Failure(ToolEventFailure::Output(o)), steps);
}

/// Any other error of the execution layer: the conversation gets the
/// diagnostic message as an error, and a command's closing event reports
/// exit code -1, no time spent, and that message as its stderr, aggregated
/// and formatted output.
pub proof fn lemma_finish_execution_error(
    em: ToolEmitter,
    ctx: ToolEventCtx,
    detail: String,
    steps: Seq<EmitStep>,
    result: Result<String, FunctionCallError>,
)
    requires
        em.finishes(ctx, Err(ToolError::Execution(detail)), steps, result),
    ensures
        result matches Err(FunctionCallError::RespondToModel(m)) && m@ == execution_error_text(
            detail@,
        ) && em.end_event_reports_message(ctx, sent(steps, 0), m@),
        sends_only_at(steps, 0),
        em.is_exec() ==> (sent(steps, 0) matches EventMsg::ExecCommandEnd(x) && x.exit_code == -1
            && x.duration.is_zero() && x.stdout@.len() == 0 && x.stderr@ == result->Err_0->RespondToModel_0@
            && x.aggregated_output@ == x.stderr@ && x.formatted_output@ == x.stderr@),
{
    let m = result->Err_0->RespondToModel_0;
    lemma_one_event_per_stage(em, ctx, ToolEventStage::Failure(ToolEventFailure::Message(m)), steps);
}

/// A rejection before execution: the canonical rejection text becomes the
/// clearer phrase, any other text is kept as it is, and the same text is
/// the conversation's error and the closing event's message.
pub proof fn lemma_finish_rejection(
    em: ToolEmitter,
    ctx: ToolEventCtx,
    text: String,
    steps: Seq<EmitStep>,
    result: Result<String, FunctionCallError>,
)
    requires
        em.finishes(ctx, Err(ToolError::Rejected(text)), steps, result),
    ensures
        result matches Err(FunctionCallError::RespondToModel(m)) && em.end_event_reports_message(
            ctx,
            sent(steps, 0),
            m@,
        ) && (text@ == canonical_rejection() ==> m@ == clearer_rejection()) && (text@
            != canonical_rejection() ==> m@ == text@),
        sends_only_at(steps, 0),
{
    let m = result->Err_0->RespondToModel_0;
    lemma_one_event_per_stage(em, ctx, ToolEventStage::Failure(ToolEventFailure::Message(m)), steps);
}

/// A patch in a turn that tracks diffs: the tracker hears of the changes
/// before the patch-begin event is sent, and its unified diff is read
/// after the patch-end event is sent (the read's answer then gives one
/// turn-diff event when it is a non-empty diff and none otherwise, see
/// `turn_diff_event`).
pub proof fn lemma_patch_tracker_order(
    em: ToolEmitter,
    ctx: ToolEventCtx,
    stage: ToolEventStage,
    steps: Seq<EmitStep>,
)
    requires
        em is ApplyPatch,
        ctx.has_turn_diff_tracker,
        em.emits(ctx, stage, steps),
    ensures
        steps.len() == 2,
        stage is Begin ==> (steps[0] matches EmitStep::TrackPatchBegin(c) && c@ == em->changes@
            && sent(steps, 1) is PatchApplyBegin),
        !(stage is Begin) ==> sent(steps, 0) is PatchApplyEnd && steps[1] is ReadUnifiedDiff,
{
}

} // verus!
