use blitzdenk::chat::{ArgValue, EditOp, FunctionCall, Message, ToolArgs};
use blitzdenk::ledger::{Priority, Status, TodoItem};
use blitzdenk::session::SessionSaveState;

fn sample_state() -> SessionSaveState {
    let args = ToolArgs(vec![
        ("path".to_string(), ArgValue::Str("a/b.txt".to_string())),
        ("offset".to_string(), ArgValue::Int(-7)),
        ("flag".to_string(), ArgValue::Bool(true)),
        (
            "edits".to_string(),
            ArgValue::Edits(vec![EditOp {
                old_string: "x".to_string(),
                new_string: "y\n".to_string(),
                replace_all: true,
            }]),
        ),
    ]);
    let call = FunctionCall {
        id: Some("call-1".to_string()),
        name: "edit".to_string(),
        args,
    };
    let mut batch = Message::tool_call_batch(vec![call]);
    batch.cache_hint = true;
    SessionSaveState {
        chat: vec![
            Message::system("be useful".to_string()),
            Message::user("please edit a/b.txt".to_string()),
            batch,
            Message::tool("file was edited".to_string(), Some("call-1".to_string())),
            Message::assistant("done \u{2713}".to_string()),
        ],
        todo: vec![
            (
                "t1".to_string(),
                TodoItem {
                    priority: Priority::High,
                    status: Status::Completed,
                    content: "first step".to_string(),
                },
            ),
            (
                "t2".to_string(),
                TodoItem {
                    priority: Priority::Low,
                    status: Status::Pending,
                    content: "second step".to_string(),
                },
            ),
        ],
        model: "test-model-1".to_string(),
        token_cost: 12345,
    }
}

#[test]
fn save_load_save_writes_the_same_text() {
    let state = sample_state();
    let first = state.save();
    let reloaded = SessionSaveState::load(&first).expect("a saved record loads");
    let second = reloaded.save();
    assert_eq!(first, second);
}

#[test]
fn load_restores_every_field() {
    let state = sample_state();
    let text = state.save();
    let reloaded = SessionSaveState::load(&text).unwrap();
    assert_eq!(reloaded.model, "test-model-1");
    assert_eq!(reloaded.token_cost, 12345);
    assert_eq!(reloaded.chat.len(), 5);
    assert_eq!(reloaded.todo.len(), 2);
    assert_eq!(reloaded.chat[1].content, "please edit a/b.txt");
    assert!(reloaded.chat[2].cache_hint);
    let call = &reloaded.chat[2].tool_calls[0];
    assert_eq!(call.id.as_deref(), Some("call-1"));
    assert_eq!(call.name, "edit");
    assert_eq!(call.args.0.len(), 4);
    match &call.args.0[1].1 {
        ArgValue::Int(n) => assert_eq!(*n, -7),
        other => panic!("expected the integer argument, got {:?}", other),
    }
    match &call.args.0[3].1 {
        ArgValue::Edits(es) => {
            assert_eq!(es.len(), 1);
            assert_eq!(es[0].new_string, "y\n");
            assert!(es[0].replace_all);
        }
        other => panic!("expected the edit list, got {:?}", other),
    }
    assert_eq!(reloaded.todo[1].0, "t2");
    assert_eq!(reloaded.todo[1].1.status, Status::Pending);
    assert_eq!(reloaded.chat[4].content, "done \u{2713}");
}

#[test]
fn truncated_or_padded_text_is_rejected() {
    let state = sample_state();
    let text = state.save();
    let mut truncated = text.clone();
    truncated.pop();
    assert!(SessionSaveState::load(&truncated).is_err());
    let mut padded = text.clone();
    padded.push('x');
    assert!(SessionSaveState::load(&padded).is_err());
    assert!(SessionSaveState::load("garbage").is_err());
    assert!(SessionSaveState::load("").is_err());
}

#[test]
fn empty_state_round_trips() {
    let state = SessionSaveState {
        chat: vec![],
        todo: vec![],
        model: String::new(),
        token_cost: 0,
    };
    let text = state.save();
    let reloaded = SessionSaveState::load(&text).unwrap();
    assert!(reloaded.chat.is_empty());
    assert!(reloaded.todo.is_empty());
    assert_eq!(reloaded.model, "");
    assert_eq!(reloaded.token_cost, 0);
}
