use blitzdenk::agent::{Agent, AgentEvent, StepAction, TurnInput, TurnResponse};
use blitzdenk::chat::{FunctionCall, Message, Role, ToolArgs};
use blitzdenk::error::AiError;
use blitzdenk::ledger::{Priority, Status, TodoItem};
use blitzdenk::registry::ToolKind;
use blitzdenk::tools::ToolEffect;

fn new_agent() -> Agent {
    let mut agent = Agent::new("test-model".to_string(), "/work".to_string());
    agent.add_tool(ToolKind::Write);
    agent.add_tool(ToolKind::Bash);
    agent.add_tool(ToolKind::TodoWrite);
    agent
}

fn response(texts: Vec<&str>, calls: Vec<FunctionCall>) -> TurnInput {
    TurnInput::Response(TurnResponse {
        texts: texts.into_iter().map(|t| t.to_string()).collect(),
        tool_calls: calls,
        prompt_tokens: None,
        completion_tokens: None,
    })
}

fn write_call(id: &str) -> FunctionCall {
    let mut args = ToolArgs::new();
    args.push_str("path", "/work/file.txt");
    args.push_str("content", "hello");
    FunctionCall {
        id: Some(id.to_string()),
        name: "write".to_string(),
        args,
    }
}

#[test]
fn double_start_fails_and_leaves_history_alone() {
    let mut agent = new_agent();
    agent.add_message(Message::user("hi".to_string()));
    assert!(agent.begin_run().is_ok());
    let before = agent.chat.len();
    let r = agent.begin_run();
    assert!(matches!(r, Err(AiError::AlreadyRunning)));
    assert_eq!(agent.chat.len(), before);
    assert!(agent.is_running());
}

#[test]
fn runner_single_flight() {
    let agent = new_agent();
    let mut runner = blitzdenk::runner::AgentRunner::new(agent);
    assert!(!runner.is_running());
    assert!(runner.start_cycle().is_ok());
    assert!(matches!(runner.start_cycle(), Err(AiError::AlreadyRunning)));
    assert!(runner.take_run_request().is_ok());
    assert!(runner.is_running());
}

#[test]
fn timeout_publishes_event_and_stops() {
    let mut agent = new_agent();
    agent.begin_run().unwrap();
    let (events, r) = agent.absorb_backend(TurnInput::Timeout);
    assert!(r.is_ok());
    assert_eq!(events.len(), 1);
    assert!(matches!(events[0], AgentEvent::Timeout));
    assert!(matches!(agent.next_action(), StepAction::Idle));
    assert!(!agent.is_running());
}

#[test]
fn fatal_backend_error_surfaces() {
    let mut agent = new_agent();
    agent.begin_run().unwrap();
    let before = agent.chat.len();
    let (events, r) = agent.absorb_backend(TurnInput::Failure("boom".to_string()));
    assert!(events.is_empty());
    match r {
        Err(AiError::RequestError(msg)) => assert_eq!(msg, "boom"),
        other => panic!("expected a fatal request error, got {:?}", other),
    }
    assert_eq!(agent.chat.len(), before);
    assert!(!agent.is_running());
}

#[test]
fn rate_limited_three_times_then_success() {
    let mut agent = new_agent();
    agent.begin_run().unwrap();
    let mut rate_limit_events = 0;
    for _ in 0..3 {
        let (events, r) = agent.absorb_backend(TurnInput::Failure(
            "server said: rate limit exceeded".to_string(),
        ));
        assert!(r.is_ok());
        for e in &events {
            if matches!(e, AgentEvent::RateLimit) {
                rate_limit_events += 1;
            }
        }
        assert!(matches!(agent.next_action(), StepAction::Sleep));
        agent.resume_after_backoff();
        assert!(matches!(agent.next_action(), StepAction::CallBackend));
    }
    assert_eq!(rate_limit_events, 3);
    let (events, r) = agent.absorb_backend(response(vec!["all done"], vec![]));
    assert!(r.is_ok());
    assert_eq!(events.len(), 1);
    match &events[0] {
        AgentEvent::Message(m) => {
            assert_eq!(m.role, Role::Assistant);
            assert_eq!(m.content, "all done");
        }
        other => panic!("expected a message event, got {:?}", other),
    }
    assert!(!agent.is_running());
    let last = agent.chat.last().unwrap();
    assert_eq!(last.content, "all done");
}

#[test]
fn declined_permission_never_performs_the_write() {
    let mut agent = new_agent();
    agent.begin_run().unwrap();
    let (_events, r) = agent.absorb_backend(response(vec![], vec![write_call("c1")]));
    assert!(r.is_ok());
    assert!(matches!(agent.next_action(), StepAction::RunTool));
    let events = agent.run_next_tool();
    assert_eq!(events.len(), 1);
    match &events[0] {
        AgentEvent::Permission(p) => {
            assert_eq!(
                p.message,
                "The agent wants to create `/work/file.txt`:\n\n```diff\nhello\n```"
            );
        }
        other => panic!("expected a permission event, got {:?}", other),
    }
    assert!(matches!(agent.next_action(), StepAction::AskPermission));
    // the engine itself holds the pending question
    assert_eq!(
        agent.permission_message(),
        "The agent wants to create `/work/file.txt`:\n\n```diff\nhello\n```"
    );
    let events = agent.provide_permission(Some(false));
    assert_eq!(events.len(), 1);
    match &events[0] {
        AgentEvent::Message(m) => {
            assert!(m.error);
            assert_eq!(m.content, "user declined the edit request");
            assert_eq!(m.tool_call_id.as_deref(), Some("c1"));
        }
        other => panic!("expected the declined result, got {:?}", other),
    }
    // the loop proceeds to the next turn with that result in history
    assert!(matches!(agent.next_action(), StepAction::CallBackend));
    let last = agent.chat.last().unwrap();
    assert_eq!(last.content, "user declined the edit request");
    // turn 2 ends the run normally
    let (_events, r) = agent.absorb_backend(response(vec!["ok"], vec![]));
    assert!(r.is_ok());
    assert!(matches!(agent.next_action(), StepAction::Idle));
}

#[test]
fn dropped_permission_reply_counts_as_decline() {
    let mut agent = new_agent();
    agent.begin_run().unwrap();
    let (_e, r) = agent.absorb_backend(response(vec![], vec![write_call("c9")]));
    assert!(r.is_ok());
    agent.run_next_tool();
    let events = agent.provide_permission(None);
    match &events[0] {
        AgentEvent::Message(m) => {
            assert!(m.error);
            assert_eq!(m.content, "user declined the edit request");
        }
        other => panic!("expected the declined result, got {:?}", other),
    }
}

#[test]
fn abort_during_tool_lets_the_call_finish() {
    let mut agent = new_agent();
    agent.begin_run().unwrap();
    let mut args = ToolArgs::new();
    args.push_str("command", "echo hi");
    let call = FunctionCall {
        id: Some("b1".to_string()),
        name: "bash".to_string(),
        args,
    };
    let (_e, r) = agent.absorb_backend(response(vec![], vec![call]));
    assert!(r.is_ok());
    agent.run_next_tool();
    let events = agent.provide_permission(Some(true));
    assert!(events.is_empty());
    assert!(matches!(agent.next_action(), StepAction::Perform));
    match agent.pending_effect() {
        ToolEffect::RunCommand { program, args } => {
            assert_eq!(program, "sh");
            assert_eq!(args.as_slice(), &["-c".to_string(), "echo hi".to_string()]);
        }
        other => panic!("expected a command effect, got {:?}", other),
    }
    // the abort signal has fired, but the in-flight call completes first
    let events = agent.provide_effect(blitzdenk::tools::EffectOutcome {
        success: true,
        output: "hi\n".to_string(),
    });
    assert_eq!(events.len(), 1);
    match &events[0] {
        AgentEvent::Message(m) => {
            assert!(!m.error);
            assert_eq!(m.content, "{\"result\":\"hi\\n\"}");
            assert_eq!(m.tool_call_id.as_deref(), Some("b1"));
        }
        other => panic!("expected the tool result, got {:?}", other),
    }
    let recorded = agent.chat.last().unwrap().content.clone();
    // the abort is seen only at the race point, before a new turn starts
    assert!(matches!(agent.next_action(), StepAction::CallBackend));
    let (events, r) = agent.absorb_backend(TurnInput::Abort);
    assert!(r.is_ok());
    assert!(events.is_empty());
    assert!(!agent.is_running());
    assert_eq!(agent.chat.last().unwrap().content, recorded);
}

#[test]
fn open_todos_nudge_and_then_stop() {
    let mut agent = new_agent();
    agent.context.todo_list.upsert(
        "t1".to_string(),
        TodoItem {
            priority: Priority::High,
            status: Status::Pending,
            content: "write the report".to_string(),
        },
    );
    agent.begin_run().unwrap();
    let before = agent.chat.len();
    let (_e, r) = agent.absorb_backend(response(vec![], vec![]));
    assert!(r.is_ok());
    // exactly one synthetic user message was appended, and the loop goes on
    assert_eq!(agent.chat.len(), before + 1);
    let nudge = agent.chat.last().unwrap();
    assert_eq!(nudge.role, Role::User);
    assert_eq!(
        nudge.content,
        "you have unfinished work on your todo list. please update the list according to your task progression."
    );
    assert!(matches!(agent.next_action(), StepAction::CallBackend));
    // once the item is completed, a quiet turn stops the loop
    agent.context.todo_list.upsert(
        "t1".to_string(),
        TodoItem {
            priority: Priority::High,
            status: Status::Completed,
            content: "write the report".to_string(),
        },
    );
    let len_before_stop = agent.chat.len();
    let (_e, r) = agent.absorb_backend(response(vec![], vec![]));
    assert!(r.is_ok());
    assert_eq!(agent.chat.len(), len_before_stop);
    assert!(matches!(agent.next_action(), StepAction::Idle));
    assert!(!agent.is_running());
}

#[test]
fn one_result_per_call_in_order() {
    let mut agent = new_agent();
    agent.begin_run().unwrap();
    let mut args1 = ToolArgs::new();
    args1.push_str("id", "a");
    args1.push_str("content", "first");
    args1.push_str("priority", "high");
    args1.push_str("status", "pending");
    let call1 = FunctionCall {
        id: Some("k1".to_string()),
        name: "todo_write".to_string(),
        args: args1,
    };
    let call2 = FunctionCall {
        id: Some("k2".to_string()),
        name: "no_such_tool".to_string(),
        args: ToolArgs::new(),
    };
    let (_e, r) = agent.absorb_backend(response(vec![], vec![call1, call2]));
    assert!(r.is_ok());
    let e1 = agent.run_next_tool();
    assert_eq!(e1.len(), 1);
    let e2 = agent.run_next_tool();
    assert_eq!(e2.len(), 1);
    assert!(matches!(agent.next_action(), StepAction::CallBackend));
    let n = agent.chat.len();
    // tail: batch message, result for k1, result for k2 — in call order
    assert_eq!(agent.chat[n - 3].tool_calls.len(), 2);
    assert_eq!(agent.chat[n - 2].tool_call_id.as_deref(), Some("k1"));
    assert_eq!(agent.chat[n - 2].content, "todo list updated");
    assert_eq!(agent.chat[n - 1].tool_call_id.as_deref(), Some("k2"));
    assert!(agent.chat[n - 1].error);
    // the ledger was updated by the tool pair
    assert!(agent.context.has_open_todos());
}

#[test]
fn approved_write_hands_out_exactly_the_proposed_effect() {
    let mut agent = new_agent();
    agent.begin_run().unwrap();
    let (_e, r) = agent.absorb_backend(response(vec![], vec![write_call("w1")]));
    assert!(r.is_ok());
    agent.run_next_tool();
    // an auto-accepting foreground simply answers every request with yes
    let events = agent.provide_permission(Some(true));
    assert!(events.is_empty());
    assert!(matches!(agent.next_action(), StepAction::Perform));
    match agent.pending_effect() {
        ToolEffect::WriteFile { path, content } => {
            assert_eq!(path, "/work/file.txt");
            assert_eq!(content, "hello");
        }
        other => panic!("expected the proposed write, got {:?}", other),
    }
    let events = agent.provide_effect(blitzdenk::tools::EffectOutcome {
        success: true,
        output: String::new(),
    });
    match &events[0] {
        AgentEvent::Message(m) => {
            assert!(!m.error);
            assert_eq!(m.content, "{\"result\":\"file was edited\"}");
            assert_eq!(m.tool_call_id.as_deref(), Some("w1"));
        }
        other => panic!("expected the tool result, got {:?}", other),
    }
}

#[test]
fn token_cost_event_and_cache_hints() {
    let mut agent = new_agent();
    agent.add_message(Message::user("one".to_string()));
    agent.add_message(Message::user("two".to_string()));
    agent.add_message(Message::user("three".to_string()));
    agent.add_message(Message::user("four".to_string()));
    agent.add_message(Message::user("five".to_string()));
    agent.begin_run().unwrap();
    // first two and last two messages carry the hint, the middle does not
    let hints: Vec<bool> = agent.chat.iter().map(|m| m.cache_hint).collect();
    assert_eq!(hints, vec![true, true, false, true, true]);
    let (events, r) = agent.absorb_backend(TurnInput::Response(TurnResponse {
        texts: vec!["t".to_string()],
        tool_calls: vec![],
        prompt_tokens: Some(70),
        completion_tokens: Some(30),
    }));
    assert!(r.is_ok());
    match &events[0] {
        AgentEvent::TokenCost(n) => assert_eq!(*n, 100),
        other => panic!("expected the token cost first, got {:?}", other),
    }
}

#[test]
fn rate_limit_detection_follows_the_documented_signature() {
    for text in ["rate_limit hit", "please mind the rate limit", "x rate limits y"] {
        let mut agent = new_agent();
        agent.begin_run().unwrap();
        let (_e, r) = agent.absorb_backend(TurnInput::Failure(text.to_string()));
        assert!(r.is_ok(), "{text} should be retried");
        assert!(matches!(agent.next_action(), StepAction::Sleep));
    }
    // a failure without the signature is fatal
    let mut agent = new_agent();
    agent.begin_run().unwrap();
    let (_e, r) = agent.absorb_backend(TurnInput::Failure("ratelimit".to_string()));
    assert!(matches!(r, Err(AiError::RequestError(_))));
}
