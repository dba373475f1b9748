use tool_events::events::execution_error_message;
use tool_events::events::normalize_rejection;
use tool_events::events::payload_from_output;
use tool_events::events::turn_diff_event;
use tool_events::events::EmitStep;
use tool_events::events::ToolEmitter;
use tool_events::events::ToolEventCtx;
use tool_events::events::ToolEventFailure;
use tool_events::events::ToolEventStage;
use tool_events::protocol::EventMsg;
use tool_events::protocol::ExecCommandSource;
use tool_events::protocol::ExecDuration;
use tool_events::protocol::ExecToolCallOutput;
use tool_events::protocol::FileChange;
use tool_events::protocol::FunctionCallError;
use tool_events::protocol::ParsedCommand;
use tool_events::protocol::PatchChange;
use tool_events::protocol::ToolError;

fn strings(items: &[&str]) -> Vec<String> {
    items.iter().map(|s| s.to_string()).collect()
}

fn output(exit_code: i32, stdout: &str, stderr: &str) -> ExecToolCallOutput {
    ExecToolCallOutput {
        exit_code,
        stdout: stdout.to_string(),
        stderr: stderr.to_string(),
        aggregated_output: format!("{stdout}{stderr}"),
        duration: ExecDuration { secs: 1, nanos: 500 },
        formatted_output: format!("shown: {stdout}{stderr}"),
        model_output: format!("model: {stdout}{stderr}"),
    }
}

fn shell() -> ToolEmitter {
    ToolEmitter::shell(
        strings(&["bash", "-lc", "ls"]),
        "/work".to_string(),
        ExecCommandSource::Agent,
        vec![ParsedCommand::ListFiles { cmd: "ls".to_string(), path: None }],
    )
}

fn exec_session() -> ToolEmitter {
    ToolEmitter::unified_exec(
        &strings(&["python3"]),
        "/work".to_string(),
        ExecCommandSource::UnifiedExecInteraction,
        Some("print(1)\n".to_string()),
        vec![ParsedCommand::Unknown { cmd: "python3".to_string() }],
    )
}

fn two_changes() -> Vec<PatchChange> {
    vec![
        PatchChange {
            path: "/work/a.txt".to_string(),
            change: FileChange::Add { content: "hello\n".to_string() },
        },
        PatchChange {
            path: "/work/b.txt".to_string(),
            change: FileChange::Update {
                unified_diff: "@@ -1 +1 @@\n-x\n+y\n".to_string(),
                move_path: None,
            },
        },
    ]
}

fn sent(step: &EmitStep) -> &EventMsg {
    match step {
        EmitStep::Send(e) => e,
        other => panic!("expected a send step, got {other:?}"),
    }
}

fn model_text(r: &Result<String, FunctionCallError>) -> (bool, String) {
    match r {
        Ok(s) => (true, s.clone()),
        Err(FunctionCallError::RespondToModel(s)) => (false, s.clone()),
    }
}

#[test]
fn shell_exit_zero_returns_ok_and_pairs_events() {
    let em = shell();
    let ctx = ToolEventCtx::new("turn-1", "call-1", false);
    let begin = em.begin(ctx);
    assert_eq!(begin.len(), 1);
    match sent(&begin[0]) {
        EventMsg::ExecCommandBegin(b) => {
            assert_eq!(b.call_id, "call-1");
            assert_eq!(b.turn_id, "turn-1");
            assert_eq!(b.command, strings(&["bash", "-lc", "ls"]));
            assert_eq!(b.cwd, "/work");
            assert_eq!(b.source, ExecCommandSource::Agent);
            assert_eq!(b.parsed_cmd.len(), 1);
            assert_eq!(b.interaction_input, None);
        }
        other => panic!("unexpected {other:?}"),
    }
    let fin = em.finish(ctx, Ok(output(0, "a.txt\n", "")));
    assert_eq!(model_text(&fin.result), (true, "model: a.txt\n".to_string()));
    assert_eq!(fin.steps.len(), 1);
    match sent(&fin.steps[0]) {
        EventMsg::ExecCommandEnd(e) => {
            assert_eq!(e.call_id, "call-1");
            assert_eq!(e.turn_id, "turn-1");
            assert_eq!(e.command, strings(&["bash", "-lc", "ls"]));
            assert_eq!(e.cwd, "/work");
            assert_eq!(e.source, ExecCommandSource::Agent);
            assert_eq!(e.exit_code, 0);
            assert_eq!(e.stdout, "a.txt\n");
            assert_eq!(e.formatted_output, "shown: a.txt\n");
        }
        other => panic!("unexpected {other:?}"),
    }
}

#[test]
fn shell_exit_two_reports_error_with_real_output() {
    let em = shell();
    let ctx = ToolEventCtx::new("turn-1", "call-2", false);
    let fin = em.finish(ctx, Ok(output(2, "partial", "boom")));
    assert_eq!(model_text(&fin.result), (false, "model: partialboom".to_string()));
    match sent(&fin.steps[0]) {
        EventMsg::ExecCommandEnd(e) => {
            assert_eq!(e.exit_code, 2);
            assert_eq!(e.stdout, "partial");
            assert_eq!(e.stderr, "boom");
            assert_eq!(e.aggregated_output, "partialboom");
            assert_eq!(e.duration, ExecDuration { secs: 1, nanos: 500 });
        }
        other => panic!("unexpected {other:?}"),
    }
}

#[test]
fn rejection_by_user_is_normalized() {
    let em = shell();
    let ctx = ToolEventCtx::new("turn-1", "call-3", false);
    let fin = em.finish(ctx, Err(ToolError::Rejected("rejected by user".to_string())));
    assert_eq!(
        model_text(&fin.result),
        (false, "exec command rejected by user".to_string())
    );
    match sent(&fin.steps[0]) {
        EventMsg::ExecCommandEnd(e) => {
            assert_eq!(e.stdout, "");
            assert_eq!(e.stderr, "exec command rejected by user");
            assert_eq!(e.aggregated_output, "exec command rejected by user");
            assert_eq!(e.formatted_output, "exec command rejected by user");
            assert_eq!(e.exit_code, -1);
            assert_eq!(e.duration, ExecDuration { secs: 0, nanos: 0 });
        }
        other => panic!("unexpected {other:?}"),
    }
}

#[test]
fn other_rejection_passes_through() {
    let em = shell();
    let ctx = ToolEventCtx::new("turn-1", "call-4", false);
    let fin = em.finish(ctx, Err(ToolError::Rejected("Rejected by user".to_string())));
    assert_eq!(model_text(&fin.result), (false, "Rejected by user".to_string()));
    match sent(&fin.steps[0]) {
        EventMsg::ExecCommandEnd(e) => assert_eq!(e.stderr, "Rejected by user"),
        other => panic!("unexpected {other:?}"),
    }
    assert_eq!(normalize_rejection("rejected by user".to_string()), "exec command rejected by user");
    assert_eq!(normalize_rejection("rejected by user ".to_string()), "rejected by user ");
    assert_eq!(normalize_rejection(String::new()), "");
}

#[test]
fn patch_with_tracker_sends_begin_end_and_diff() {
    let em = ToolEmitter::apply_patch(two_changes(), true);
    let ctx = ToolEventCtx::new("turn-2", "patch-1", true);
    let begin = em.begin(ctx);
    assert_eq!(begin.len(), 2);
    match &begin[0] {
        EmitStep::TrackPatchBegin(c) => {
            assert_eq!(c.len(), 2);
            assert_eq!(c[0].path, "/work/a.txt");
            assert_eq!(c[1].path, "/work/b.txt");
        }
        other => panic!("unexpected {other:?}"),
    }
    match sent(&begin[1]) {
        EventMsg::PatchApplyBegin(b) => {
            assert_eq!(b.call_id, "patch-1");
            assert!(b.auto_approved);
            assert_eq!(b.changes.len(), 2);
        }
        other => panic!("unexpected {other:?}"),
    }
    let fin = em.finish(ctx, Ok(output(0, "Success. Updated files", "")));
    assert_eq!(fin.steps.len(), 2);
    match sent(&fin.steps[0]) {
        EventMsg::PatchApplyEnd(e) => {
            assert_eq!(e.call_id, "patch-1");
            assert!(e.success);
            assert_eq!(e.stdout, "Success. Updated files");
        }
        other => panic!("unexpected {other:?}"),
    }
    assert!(matches!(fin.steps[1], EmitStep::ReadUnifiedDiff));
    let diff = "--- a/b.txt\n+++ b/b.txt\n@@ -1 +1 @@\n-x\n+y\n".to_string();
    match turn_diff_event(Ok(Some(diff.clone()))) {
        Some(EventMsg::TurnDiff(t)) => assert_eq!(t.unified_diff, diff),
        other => panic!("unexpected {other:?}"),
    }
}

#[test]
fn no_diff_or_diff_error_sends_nothing() {
    assert!(turn_diff_event(Ok(None)).is_none());
    assert!(turn_diff_event(Err("cannot read file".to_string())).is_none());
}

#[test]
fn empty_diff_sends_nothing() {
    assert!(turn_diff_event(Ok(Some(String::new()))).is_none());
    match turn_diff_event(Ok(Some("+x\n".to_string()))) {
        Some(EventMsg::TurnDiff(t)) => assert_eq!(t.unified_diff, "+x\n"),
        other => panic!("unexpected {other:?}"),
    }
}

#[test]
fn patch_without_tracker_skips_tracker_steps() {
    let em = ToolEmitter::apply_patch(two_changes(), false);
    let ctx = ToolEventCtx::new("turn-2", "patch-2", false);
    let begin = em.begin(ctx);
    assert_eq!(begin.len(), 1);
    assert!(matches!(sent(&begin[0]), EventMsg::PatchApplyBegin(b) if !b.auto_approved));
    let fin = em.finish(ctx, Ok(output(1, "", "hunk failed")));
    assert_eq!(fin.steps.len(), 1);
    match sent(&fin.steps[0]) {
        EventMsg::PatchApplyEnd(e) => {
            assert!(!e.success);
            assert_eq!(e.stderr, "hunk failed");
        }
        other => panic!("unexpected {other:?}"),
    }
    assert_eq!(model_text(&fin.result), (false, "model: hunk failed".to_string()));
}

#[test]
fn patch_message_failure_reports_message_as_stderr() {
    let em = ToolEmitter::apply_patch(two_changes(), false);
    let ctx = ToolEventCtx::new("turn-2", "patch-3", true);
    let fin = em.finish(ctx, Err(ToolError::Rejected("rejected by user".to_string())));
    assert_eq!(fin.steps.len(), 2);
    match sent(&fin.steps[0]) {
        EventMsg::PatchApplyEnd(e) => {
            assert_eq!(e.stdout, "");
            assert_eq!(e.stderr, "exec command rejected by user");
            assert!(!e.success);
        }
        other => panic!("unexpected {other:?}"),
    }
    assert!(matches!(fin.steps[1], EmitStep::ReadUnifiedDiff));
}

#[test]
fn sandbox_timeout_keeps_output() {
    let em = shell();
    let ctx = ToolEventCtx::new("turn-3", "call-5", false);
    let fin = em.finish(ctx, Err(ToolError::SandboxTimeout(output(124, "slow", ""))));
    assert_eq!(model_text(&fin.result), (false, "model: slow".to_string()));
    match sent(&fin.steps[0]) {
        EventMsg::ExecCommandEnd(e) => {
            assert_eq!(e.exit_code, 124);
            assert_eq!(e.stdout, "slow");
            assert_eq!(e.formatted_output, "shown: slow");
        }
        other => panic!("unexpected {other:?}"),
    }
}

#[test]
fn sandbox_denial_keeps_output() {
    let em = shell();
    let ctx = ToolEventCtx::new("turn-3", "call-6", false);
    let fin = em.finish(ctx, Err(ToolError::SandboxDenied(output(0, "", "denied"))));
    assert_eq!(model_text(&fin.result), (false, "model: denied".to_string()));
    match sent(&fin.steps[0]) {
        EventMsg::ExecCommandEnd(e) => {
            assert_eq!(e.exit_code, 0);
            assert_eq!(e.stderr, "denied");
        }
        other => panic!("unexpected {other:?}"),
    }
}

#[test]
fn execution_error_becomes_message() {
    let em = exec_session();
    let ctx = ToolEventCtx::new("turn-4", "call-7", false);
    let fin = em.finish(ctx, Err(ToolError::Execution("Spawn(NotFound)".to_string())));
    let text = "execution error: Spawn(NotFound)".to_string();
    assert_eq!(model_text(&fin.result), (false, text.clone()));
    match sent(&fin.steps[0]) {
        EventMsg::ExecCommandEnd(e) => {
            assert_eq!(e.exit_code, -1);
            assert_eq!(e.duration, ExecDuration { secs: 0, nanos: 0 });
            assert_eq!(e.stdout, "");
            assert_eq!(e.stderr, text);
            assert_eq!(e.aggregated_output, text);
            assert_eq!(e.formatted_output, text);
            assert_eq!(e.interaction_input, Some("print(1)\n".to_string()));
            assert_eq!(e.source, ExecCommandSource::UnifiedExecInteraction);
        }
        other => panic!("unexpected {other:?}"),
    }
    assert_eq!(execution_error_message(""), "execution error: ");
}

#[test]
fn exec_session_begin_carries_input() {
    let em = exec_session();
    let ctx = ToolEventCtx::new("turn-4", "call-8", true);
    let begin = em.begin(ctx);
    assert_eq!(begin.len(), 1);
    match sent(&begin[0]) {
        EventMsg::ExecCommandBegin(b) => {
            assert_eq!(b.command, strings(&["python3"]));
            assert_eq!(b.interaction_input, Some("print(1)\n".to_string()));
            assert_eq!(b.source, ExecCommandSource::UnifiedExecInteraction);
        }
        other => panic!("unexpected {other:?}"),
    }
    let fin = em.finish(ctx, Ok(output(0, "1\n", "")));
    assert_eq!(fin.steps.len(), 1);
}

#[test]
fn every_variant_and_stage_sends_one_event() {
    let emitters = [shell(), ToolEmitter::apply_patch(two_changes(), true), exec_session()];
    for em in emitters.iter() {
        for tracker in [false, true] {
            let ctx = ToolEventCtx::new("turn-5", "call-9", tracker);
            let stages = vec![
                ToolEventStage::Begin,
                ToolEventStage::Success(output(0, "o", "")),
                ToolEventStage::Failure(ToolEventFailure::Output(output(3, "o", "e"))),
                ToolEventStage::Failure(ToolEventFailure::Message("m".to_string())),
            ];
            for stage in stages {
                let is_begin = matches!(stage, ToolEventStage::Begin);
                let steps = em.emit(ctx, stage);
                let sends: Vec<&EventMsg> = steps
                    .iter()
                    .filter_map(|s| match s {
                        EmitStep::Send(e) => Some(e),
                        _ => None,
                    })
                    .collect();
                assert_eq!(sends.len(), 1);
                let begin_shape = matches!(
                    sends[0],
                    EventMsg::ExecCommandBegin(_) | EventMsg::PatchApplyBegin(_)
                );
                assert_eq!(begin_shape, is_begin);
            }
        }
    }
}

#[test]
fn payload_copies_output_fields() {
    let o = output(7, "out", "err");
    let p = payload_from_output(&o);
    assert_eq!(p.stdout, "out");
    assert_eq!(p.stderr, "err");
    assert_eq!(p.aggregated_output, "outerr");
    assert_eq!(p.exit_code, 7);
    assert_eq!(p.duration, ExecDuration { secs: 1, nanos: 500 });
    assert_eq!(p.formatted_output, "shown: outerr");
}

#[test]
fn context_keeps_its_fields() {
    let ctx = ToolEventCtx::new("t", "c", true);
    assert_eq!(ctx.turn_id, "t");
    assert_eq!(ctx.call_id, "c");
    assert!(ctx.has_turn_diff_tracker);
}
