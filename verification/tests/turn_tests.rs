use codex_acp::protocol::{
    ClientUpdate, ContentBlock, EngineEvent, EngineEventMsg, EngineOp, ParsedCommand,
    PermissionOutcome, PlanItem, ReviewDecision, StepStatus, StopReason, TokenUsage, UserInput,
};
use codex_acp::turn::{begin_turn, build_user_inputs, TurnAction, TurnMachine, TurnStart};

fn machine() -> TurnMachine {
    TurnMachine::new(
        String::from("session-1"),
        String::from("submit-1"),
        String::from("/work"),
        false,
    )
}

fn event(id: &str, msg: EngineEventMsg) -> EngineEvent {
    EngineEvent {
        id: String::from(id),
        msg,
    }
}

#[test]
fn build_user_inputs_maps_each_supported_block() {
    let blocks = vec![
        ContentBlock::Text {
            text: String::from("hello"),
        },
        ContentBlock::Image {
            mime_type: String::from("image/png"),
            data: String::from("QUJD"),
        },
        ContentBlock::Audio,
        ContentBlock::Resource {
            text: Some(String::from("embedded body")),
        },
        ContentBlock::Resource { text: None },
        ContentBlock::ResourceLink {
            uri: String::from("file:///work/a.rs"),
        },
    ];
    let items = build_user_inputs(&blocks);
    assert_eq!(items.len(), 4);
    match &items[0] {
        UserInput::Text { text } => assert_eq!(text, "hello"),
        _ => panic!("expected text"),
    }
    match &items[1] {
        UserInput::Image { image_url } => {
            assert_eq!(image_url, "data:image/png;base64,QUJD");
        }
        _ => panic!("expected image"),
    }
    match &items[2] {
        UserInput::Text { text } => assert_eq!(text, "embedded body"),
        _ => panic!("expected text"),
    }
    match &items[3] {
        UserInput::Text { text } => assert_eq!(text, "Resource: file:///work/a.rs"),
        _ => panic!("expected text"),
    }
}

#[test]
fn help_prompt_is_a_directive_with_no_engine_operation() {
    let blocks = vec![ContentBlock::Text {
        text: String::from("/help"),
    }];
    match begin_turn(&blocks) {
        TurnStart::Directive { name } => assert_eq!(name, "help"),
        _ => panic!("expected a directive"),
    }
}

#[test]
fn unknown_slash_commands_are_still_consumed_directives() {
    let blocks = vec![ContentBlock::Text {
        text: String::from("  /frobnicate now  "),
    }];
    match begin_turn(&blocks) {
        TurnStart::Directive { name } => assert_eq!(name, "frobnicate"),
        _ => panic!("expected a directive"),
    }
}

#[test]
fn ordinary_prompts_become_a_user_input_submission() {
    let blocks = vec![ContentBlock::Text {
        text: String::from("please help"),
    }];
    match begin_turn(&blocks) {
        TurnStart::Submit { op } => match op {
            EngineOp::UserInput { items } => assert_eq!(items.len(), 1),
            _ => panic!("expected user input"),
        },
        _ => panic!("expected a submission"),
    }
}

#[test]
fn events_with_a_foreign_correlation_id_are_discarded() {
    let mut m = machine();
    let foreign = event(
        "submit-other",
        EngineEventMsg::AgentMessageDelta {
            delta: String::from("ignored"),
        },
    );
    let acts = m.handle_event(&foreign);
    assert!(acts.is_empty());
    // A matching delta afterwards is still the first message chunk.
    let own = event(
        "submit-1",
        EngineEventMsg::AgentMessageDelta {
            delta: String::from("hi"),
        },
    );
    let acts = m.handle_event(&own);
    assert_eq!(acts.len(), 1);
    match &acts[0] {
        TurnAction::SendUpdate {
            update: ClientUpdate::AgentMessageChunk { text },
        } => assert_eq!(text, "hi"),
        _ => panic!("expected a message chunk"),
    }
}

#[test]
fn final_message_is_suppressed_after_any_delta() {
    let mut m = machine();
    m.handle_event(&event(
        "submit-1",
        EngineEventMsg::AgentMessageDelta {
            delta: String::from("streamed"),
        },
    ));
    let acts = m.handle_event(&event(
        "submit-1",
        EngineEventMsg::AgentMessage {
            message: String::from("full message"),
        },
    ));
    assert!(acts.is_empty());
}

#[test]
fn final_message_is_forwarded_without_prior_deltas() {
    let mut m = machine();
    let acts = m.handle_event(&event(
        "submit-1",
        EngineEventMsg::AgentMessage {
            message: String::from("full message"),
        },
    ));
    assert_eq!(acts.len(), 1);
    match &acts[0] {
        TurnAction::SendUpdate {
            update: ClientUpdate::AgentMessageChunk { text },
        } => assert_eq!(text, "full message"),
        _ => panic!("expected a message chunk"),
    }
}

#[test]
fn reasoning_final_event_forwards_the_longer_text_as_thought() {
    let mut m = machine();
    m.handle_event(&event(
        "submit-1",
        EngineEventMsg::AgentReasoningDelta {
            delta: String::from("short"),
        },
    ));
    let acts = m.handle_event(&event(
        "submit-1",
        EngineEventMsg::AgentReasoning {
            text: String::from("a longer consolidated reasoning"),
        },
    ));
    assert_eq!(acts.len(), 1);
    match &acts[0] {
        TurnAction::SendUpdate {
            update: ClientUpdate::AgentThoughtChunk { text },
        } => assert_eq!(text, "a longer consolidated reasoning"),
        _ => panic!("expected a thought chunk"),
    }
}

#[test]
fn section_break_events_produce_no_actions() {
    let mut m = machine();
    let acts = m.handle_event(&event(
        "submit-1",
        EngineEventMsg::AgentReasoningSectionBreak,
    ));
    assert!(acts.is_empty());
}

#[test]
fn exec_approval_decision_is_correlated_to_the_event_id() {
    let mut m = machine();
    // The engine tags the approval request with its own event id; only
    // events whose id matches the active submission reach the machine.
    let approval = event(
        "submit-1",
        EngineEventMsg::ExecApprovalRequest {
            call_id: String::from("call-9"),
            cwd: String::from("/work"),
            parsed_cmd: vec![ParsedCommand::Unknown {
                cmd: String::from("rm -rf"),
            }],
        },
    );
    let acts = m.handle_event(&approval);
    assert_eq!(acts.len(), 1);
    match &acts[0] {
        TurnAction::AskPermission { request } => {
            assert_eq!(request.session_id, "session-1");
            assert_eq!(request.tool_call.id, "call-9");
            assert_eq!(request.options.len(), 3);
        }
        _ => panic!("expected a permission request"),
    }
    let decisions = m.handle_decision(PermissionOutcome::Selected {
        option_id: String::from("approved"),
    });
    assert_eq!(decisions.len(), 1);
    match &decisions[0] {
        TurnAction::SubmitOp {
            op: EngineOp::ExecApproval { id, decision },
        } => {
            // Correlated to the approval event's own id.
            assert_eq!(id, "submit-1");
            assert_eq!(*decision, ReviewDecision::Approved);
        }
        _ => panic!("expected an exec approval submission"),
    }
}

#[test]
fn patch_approval_with_lost_channel_still_submits_an_abort() {
    let mut m = machine();
    let acts = m.handle_event(&event(
        "submit-1",
        EngineEventMsg::ApplyPatchApprovalRequest {
            call_id: String::from("call-2"),
            changes: vec![(
                String::from("/work/a.rs"),
                codex_acp::protocol::FileChange::Add {
                    content: String::from("x"),
                },
            )],
        },
    ));
    assert_eq!(acts.len(), 1);
    let decisions = m.handle_decision(PermissionOutcome::ChannelClosed);
    assert_eq!(decisions.len(), 1);
    match &decisions[0] {
        TurnAction::SubmitOp {
            op: EngineOp::PatchApproval { id, decision },
        } => {
            assert_eq!(id, "submit-1");
            assert_eq!(*decision, ReviewDecision::Abort);
        }
        _ => panic!("expected a patch approval submission"),
    }
}

#[test]
fn task_complete_flushes_reasoning_and_ends_the_turn() {
    let mut m = machine();
    m.handle_event(&event(
        "submit-1",
        EngineEventMsg::AgentReasoningDelta {
            delta: String::from("leftover thought"),
        },
    ));
    let acts = m.handle_event(&event("submit-1", EngineEventMsg::TaskComplete));
    assert_eq!(acts.len(), 1);
    match &acts[0] {
        TurnAction::SendUpdate {
            update: ClientUpdate::AgentThoughtChunk { text },
        } => assert_eq!(text, "leftover thought"),
        _ => panic!("expected a thought chunk"),
    }
    assert_eq!(m.stop_reason(), Some(StopReason::EndTurn));
}

#[test]
fn aborted_and_shutdown_turns_end_cancelled() {
    let mut m = machine();
    m.handle_event(&event("submit-1", EngineEventMsg::TurnAborted));
    assert_eq!(m.stop_reason(), Some(StopReason::Cancelled));

    let mut m2 = machine();
    m2.handle_event(&event("submit-1", EngineEventMsg::ShutdownComplete));
    assert_eq!(m2.stop_reason(), Some(StopReason::Cancelled));
}

#[test]
fn token_counts_become_accounting_actions_not_updates() {
    let mut m = machine();
    let usage = TokenUsage {
        input_tokens: 10,
        cached_input_tokens: 2,
        output_tokens: 5,
        reasoning_output_tokens: 1,
        total_tokens: 18,
    };
    let acts = m.handle_event(&event(
        "submit-1",
        EngineEventMsg::TokenCount { usage: Some(usage) },
    ));
    assert_eq!(acts.len(), 1);
    match &acts[0] {
        TurnAction::SetTokenUsage { usage } => assert_eq!(usage.total_tokens, 18),
        _ => panic!("expected a token usage action"),
    }
    let none = m.handle_event(&event("submit-1", EngineEventMsg::TokenCount { usage: None }));
    assert!(none.is_empty());
}

#[test]
fn plan_updates_forward_explanation_then_plan() {
    let mut m = machine();
    let acts = m.handle_event(&event(
        "submit-1",
        EngineEventMsg::PlanUpdate {
            explanation: Some(String::from("here is the plan")),
            plan: vec![PlanItem {
                step: String::from("step one"),
                status: StepStatus::Pending,
            }],
        },
    ));
    assert_eq!(acts.len(), 2);
    match &acts[0] {
        TurnAction::SendUpdate {
            update: ClientUpdate::AgentMessageChunk { text },
        } => assert_eq!(text, "here is the plan"),
        _ => panic!("expected a message chunk"),
    }
    match &acts[1] {
        TurnAction::SendUpdate {
            update: ClientUpdate::Plan { entries },
        } => assert_eq!(entries.len(), 1),
        _ => panic!("expected a plan update"),
    }
}

#[test]
fn stream_errors_are_forwarded_and_do_not_end_the_turn() {
    let mut m = machine();
    let acts = m.handle_event(&event(
        "submit-1",
        EngineEventMsg::StreamError {
            message: String::from("hiccup"),
        },
    ));
    assert_eq!(acts.len(), 1);
    match &acts[0] {
        TurnAction::SendUpdate {
            update: ClientUpdate::AgentMessageChunk { text },
        } => assert_eq!(text, "hiccup\n\n"),
        _ => panic!("expected a message chunk"),
    }
    assert_eq!(m.stop_reason(), None);
}

#[test]
fn web_search_events_become_tool_calls() {
    let mut m = machine();
    let begin = m.handle_event(&event(
        "submit-1",
        EngineEventMsg::WebSearchBegin {
            call_id: String::from("ws-1"),
        },
    ));
    assert_eq!(begin.len(), 1);
    match &begin[0] {
        TurnAction::SendUpdate {
            update: ClientUpdate::ToolCall(tc),
        } => {
            assert_eq!(tc.id, "ws-1");
            assert_eq!(tc.title, "Searching the web");
        }
        _ => panic!("expected a tool call"),
    }
    let end = m.handle_event(&event(
        "submit-1",
        EngineEventMsg::WebSearchEnd {
            call_id: String::from("ws-1"),
            query: String::from("verus"),
        },
    ));
    assert_eq!(end.len(), 1);
    match &end[0] {
        TurnAction::SendUpdate {
            update: ClientUpdate::ToolCallUpdate(u),
        } => {
            assert_eq!(u.fields.title.as_deref(), Some("Searching for: verus"));
        }
        _ => panic!("expected a tool call update"),
    }
}

#[test]
fn unknown_event_categories_are_ignored() {
    let mut m = machine();
    let acts = m.handle_event(&event("submit-1", EngineEventMsg::Other));
    assert!(acts.is_empty());
    assert_eq!(m.stop_reason(), None);
}
