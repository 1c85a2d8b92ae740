use blitzdenk::chat::{ArgType, Argument, EditOp, ToolArgs};
use blitzdenk::error::AiError;
use blitzdenk::ledger::{Status, TaskLedger, TodoItem, Priority};
use blitzdenk::registry::{ToolBox, ToolKind};
use blitzdenk::textutil;
use blitzdenk::tools::{plan_call, continue_call, EffectCont, EffectOutcome, ToolEffect, ToolStep};

fn plan(kind: ToolKind, args: &ToolArgs) -> ToolStep {
    let mut ledger = TaskLedger::new();
    plan_call(kind, &Some("id1".to_string()), args, &mut ledger)
}

#[test]
fn registry_lookup_resolves_by_name() {
    let mut toolbox = ToolBox::new();
    toolbox.register(ToolKind::Bash);
    toolbox.register(ToolKind::Grep);
    assert_eq!(toolbox.lookup("bash"), Some(ToolKind::Bash));
    assert_eq!(toolbox.lookup("grep"), Some(ToolKind::Grep));
    assert_eq!(toolbox.lookup("nope"), None);
    assert_eq!(toolbox.len(), 2);
}

#[test]
fn missing_argument_becomes_error_payload() {
    let step = plan(ToolKind::Bash, &ToolArgs::new());
    match step {
        ToolStep::Finished(m) => {
            assert!(m.error);
            assert_eq!(m.content, "tool call is missing argument `command`");
            assert_eq!(m.tool_call_id.as_deref(), Some("id1"));
        }
        other => panic!("expected an error result, got {:?}", other),
    }
}

#[test]
fn mistyped_argument_becomes_error_payload() {
    let mut args = ToolArgs::new();
    args.push_int("command", 7);
    let step = plan(ToolKind::Bash, &args);
    match step {
        ToolStep::Finished(m) => {
            assert!(m.error);
            assert_eq!(m.content, "malformed value: command");
        }
        other => panic!("expected an error result, got {:?}", other),
    }
}

#[test]
fn bash_asks_permission_with_the_command() {
    let mut args = ToolArgs::new();
    args.push_str("command", "ls -la");
    match plan(ToolKind::Bash, &args) {
        ToolStep::NeedPermission { message, effect, cont } => {
            assert_eq!(message, "The agent wants to run:\n\n```sh\nls -la\n```");
            match effect {
                ToolEffect::RunCommand { program, args } => {
                    assert_eq!(program, "sh");
                    assert_eq!(args, vec!["-c".to_string(), "ls -la".to_string()]);
                }
                other => panic!("expected a command, got {:?}", other),
            }
            assert!(matches!(cont, EffectCont::WrapJson));
        }
        other => panic!("expected a permission step, got {:?}", other),
    }
}

#[test]
fn edit_reads_then_asks_with_the_patch() {
    let mut args = ToolArgs::new();
    args.push_str("path", "notes.txt");
    args.push_str("old_string", "beta");
    args.push_str("new_string", "BETA");
    let step = plan(ToolKind::Edit, &args);
    let cont = match step {
        ToolStep::NeedEffect { effect, cont } => {
            match effect {
                ToolEffect::ReadFile { path } => assert_eq!(path, "notes.txt"),
                other => panic!("expected a read, got {:?}", other),
            }
            cont
        }
        other => panic!("expected an effect step, got {:?}", other),
    };
    let outcome = EffectOutcome {
        success: true,
        output: "alpha\nbeta\n".to_string(),
    };
    match continue_call(cont, outcome, &Some("id1".to_string())) {
        ToolStep::NeedPermission { message, effect, .. } => {
            assert_eq!(
                message,
                "The agent wants to edit `notes.txt`:\n\n```diff\n--- original\n+++ modified\n@@ -1,2 +1,2 @@\n alpha\n-beta\n+BETA\n\n```"
            );
            match effect {
                ToolEffect::WriteFile { path, content } => {
                    assert_eq!(path, "notes.txt");
                    assert_eq!(content, "alpha\nBETA\n");
                }
                other => panic!("expected a write, got {:?}", other),
            }
        }
        other => panic!("expected a permission step, got {:?}", other),
    }
}

#[test]
fn edit_rejects_a_missing_old_string() {
    let cont = EffectCont::EditApply {
        path: "f".to_string(),
        old_string: "zzz".to_string(),
        new_string: "y".to_string(),
        replace_all: false,
    };
    let outcome = EffectOutcome { success: true, output: "abc".to_string() };
    match continue_call(cont, outcome, &None) {
        ToolStep::Finished(m) => {
            assert!(m.error);
            assert_eq!(
                m.content,
                "the `old_string` argument cannot be found in the original file!"
            );
        }
        other => panic!("expected an error result, got {:?}", other),
    }
}

#[test]
fn multi_edit_applies_in_order() {
    let cont = EffectCont::MultiEditApply {
        path: "f".to_string(),
        edits: vec![
            EditOp { old_string: "a".to_string(), new_string: "b".to_string(), replace_all: false },
            EditOp { old_string: "bb".to_string(), new_string: "c".to_string(), replace_all: false },
        ],
    };
    let outcome = EffectOutcome { success: true, output: "ab".to_string() };
    match continue_call(cont, outcome, &None) {
        ToolStep::NeedPermission { effect, .. } => match effect {
            ToolEffect::WriteFile { content, .. } => assert_eq!(content, "c"),
            other => panic!("expected a write, got {:?}", other),
        },
        other => panic!("expected a permission step, got {:?}", other),
    }
}

#[test]
fn failed_effect_becomes_error_result() {
    let outcome = EffectOutcome { success: false, output: "no such file".to_string() };
    match continue_call(EffectCont::Text, outcome, &Some("x".to_string())) {
        ToolStep::Finished(m) => {
            assert!(m.error);
            assert_eq!(m.content, "no such file");
        }
        other => panic!("expected an error result, got {:?}", other),
    }
}

#[test]
fn read_gates_on_project_membership() {
    let mut args = ToolArgs::new();
    args.push_str("path", "src/main.rs");
    args.push_int("offset", 1);
    let cont = match plan(ToolKind::Read, &args) {
        ToolStep::NeedEffect { effect, cont } => {
            assert!(matches!(effect, ToolEffect::ListProject));
            cont
        }
        other => panic!("expected an effect step, got {:?}", other),
    };
    // path is not part of the project listing
    let listing = EffectOutcome { success: true, output: "README.md\nsrc/lib.rs".to_string() };
    match continue_call(cont, listing, &None) {
        ToolStep::Finished(m) => {
            assert!(m.error);
            assert_eq!(m.content, "path does not exists in current project");
        }
        other => panic!("expected an error result, got {:?}", other),
    }
    // the same call with the path listed goes on to read the file
    let cont2 = match plan(ToolKind::Read, &args) {
        ToolStep::NeedEffect { cont, .. } => cont,
        other => panic!("expected an effect step, got {:?}", other),
    };
    let listing2 = EffectOutcome {
        success: true,
        output: "README.md\nsrc/main.rs\nsrc/lib.rs".to_string(),
    };
    let cont3 = match continue_call(cont2, listing2, &None) {
        ToolStep::NeedEffect { effect, cont } => {
            match effect {
                ToolEffect::ReadFile { path } => assert_eq!(path, "src/main.rs"),
                other => panic!("expected a read, got {:?}", other),
            }
            cont
        }
        other => panic!("expected a read step, got {:?}", other),
    };
    let file = EffectOutcome { success: true, output: "l0\nl1\nl2".to_string() };
    match continue_call(cont3, file, &None) {
        ToolStep::Finished(m) => {
            assert!(!m.error);
            assert_eq!(m.content, "total lines: 3\n<content>\nl1\nl2\n</content>");
        }
        other => panic!("expected the read result, got {:?}", other),
    }
}

#[test]
fn todo_write_updates_the_ledger() {
    let mut ledger = TaskLedger::new();
    let mut args = ToolArgs::new();
    args.push_str("id", "t1");
    args.push_str("content", "ship it");
    args.push_str("priority", "medium");
    args.push_str("status", "in_progress");
    let step = plan_call(ToolKind::TodoWrite, &None, &args, &mut ledger);
    match step {
        ToolStep::Finished(m) => {
            assert!(!m.error);
            assert_eq!(m.content, "todo list updated");
        }
        other => panic!("expected a result, got {:?}", other),
    }
    assert!(ledger.has_open_todos());
    let open = ledger.get_open_todos();
    assert_eq!(open.len(), 1);
    assert_eq!(open[0].0, "t1");
    assert_eq!(open[0].1.content, "ship it");
    assert_eq!(open[0].1.priority, Priority::Medium);
    assert_eq!(open[0].1.status, Status::InProgress);
    // reading renders the single entry
    let step = plan_call(ToolKind::TodoRead, &None, &ToolArgs::new(), &mut ledger);
    match step {
        ToolStep::Finished(m) => {
            assert_eq!(m.content, "t1 [in_progress] ship it\n");
        }
        other => panic!("expected a result, got {:?}", other),
    }
}

#[test]
fn bad_priority_keyword_is_rejected() {
    let mut ledger = TaskLedger::new();
    let mut args = ToolArgs::new();
    args.push_str("id", "t1");
    args.push_str("content", "x");
    args.push_str("priority", "urgent");
    args.push_str("status", "pending");
    match plan_call(ToolKind::TodoWrite, &None, &args, &mut ledger) {
        ToolStep::Finished(m) => {
            assert!(m.error);
            assert_eq!(m.content, "malformed value: priority");
        }
        other => panic!("expected an error result, got {:?}", other),
    }
    assert_eq!(ledger.len(), 0);
}

#[test]
fn sed_escape_covers_the_special_characters() {
    assert_eq!(textutil::sed_escape("a/b"), "a\\/b");
    assert_eq!(textutil::sed_escape("x&y$z"), "x\\&y\\$z");
    assert_eq!(textutil::sed_escape("plain"), "plain");
    assert_eq!(textutil::sed_escape("[a.b]"), "\\[a\\.b\\]");
}

#[test]
fn replace_helpers() {
    assert_eq!(textutil::replace_first("aXbXc", "X", "-"), "a-bXc");
    assert_eq!(textutil::replace_all("aXbXc", "X", "-"), "a-b-c");
    assert_eq!(textutil::replace_first("abc", "zz", "-"), "abc");
    assert_eq!(textutil::replace_all("ab", "", "-"), "-a-b-");
    assert_eq!(textutil::replace_first("ab", "", "xy"), "xyab");
}

#[test]
fn schema_helpers() {
    let arg = Argument::new("path", "the file", ArgType::Str);
    assert!(arg.required);
    assert_eq!(arg.name, "path");
    assert_eq!(ToolKind::Tree.name(), "list_project_file_tree");
    assert_eq!(ToolKind::Sed.args().len(), 3);
    let marker = blitzdenk::tools::Cat;
    assert_eq!(marker.name(), "cat_file");
    assert_eq!(marker.kind(), ToolKind::Cat);
}

#[test]
fn typed_getters_report_each_failure() {
    let mut args = ToolArgs::new();
    args.push_str("a", "x");
    args.push_bool("b", true);
    args.push_int("c", -4);
    assert_eq!(args.get_str("a").unwrap(), "x");
    assert!(args.get_bool("b").unwrap());
    assert_eq!(args.get_int("c").unwrap(), -4);
    assert!(matches!(args.get_str("zzz"), Err(AiError::MissingArgument(_))));
    assert!(matches!(args.get_str("b"), Err(AiError::ParseError(_))));
    let e = AiError::MissingArgument("zzz".to_string());
    assert_eq!(e.text(), "tool call is missing argument `zzz`");
}

#[test]
fn ls_path_gets_a_dot_prefix() {
    let mut args = ToolArgs::new();
    args.push_str("path", "/abs/dir");
    match plan(ToolKind::Ls, &args) {
        ToolStep::NeedEffect { effect, .. } => match effect {
            ToolEffect::ListDir { path } => assert_eq!(path, "./abs/dir"),
            other => panic!("expected a listing, got {:?}", other),
        },
        other => panic!("expected an effect step, got {:?}", other),
    }
    match plan(ToolKind::Ls, &ToolArgs::new()) {
        ToolStep::NeedEffect { effect, .. } => match effect {
            ToolEffect::ListDir { path } => assert_eq!(path, "./"),
            other => panic!("expected a listing, got {:?}", other),
        },
        other => panic!("expected an effect step, got {:?}", other),
    }
}

#[test]
fn grep_builds_its_flags_conditionally() {
    let mut args = ToolArgs::new();
    args.push_str("pattern", "fn main");
    args.push_bool("literal_text", true);
    args.push_str("include", "*.rs");
    match plan(ToolKind::Grep, &args) {
        ToolStep::NeedEffect { effect, .. } => match effect {
            ToolEffect::RunCommand { program, args } => {
                assert_eq!(program, "rg");
                assert_eq!(
                    args,
                    vec![
                        "fn main".to_string(),
                        "--fixed-strings".to_string(),
                        "--glob".to_string(),
                        "*.rs".to_string(),
                        "./".to_string(),
                    ]
                );
            }
            other => panic!("expected a command, got {:?}", other),
        },
        other => panic!("expected an effect step, got {:?}", other),
    }
}

#[test]
fn sed_builds_an_escaped_program() {
    let mut args = ToolArgs::new();
    args.push_str("file_path", "f.txt");
    args.push_str("old", "a/b");
    args.push_str("new", "c&d");
    match plan(ToolKind::Sed, &args) {
        ToolStep::NeedPermission { message, effect, .. } => {
            assert_eq!(
                message,
                "The agent wants to run:\n\n```sh\nsed -i s/a\\/b/c\\&d/g f.txt\n```"
            );
            match effect {
                ToolEffect::RunCommand { program, args } => {
                    assert_eq!(program, "sed");
                    assert_eq!(
                        args,
                        vec!["-i".to_string(), "s/a\\/b/c\\&d/g".to_string(), "f.txt".to_string()]
                    );
                }
                other => panic!("expected a command, got {:?}", other),
            }
        }
        other => panic!("expected a permission step, got {:?}", other),
    }
}

#[test]
fn message_state_toggles() {
    let mut state = blitzdenk::message_state::MessageState::default();
    assert!(!state.collapse);
    state.close();
    assert!(state.collapse);
    state.open();
    assert!(!state.collapse);
    state.toggle();
    assert!(state.collapse);
}

#[test]
fn system_prompt_frames_the_user_context() {
    let with = blitzdenk::runner::build_system_prompt("base.", Some("use tabs"));
    assert!(with.starts_with("base.# User Rules and Context"));
    assert!(with.contains("<user_context>\nuse tabs\n</user_context>"));
    let without = blitzdenk::runner::build_system_prompt("base.", None);
    assert_eq!(without, "base.");
}

#[test]
fn wrapped_payload_escapes_every_control_character() {
    let outcome = EffectOutcome {
        success: true,
        output: "a\u{1}b\u{1f}\tc".to_string(),
    };
    match continue_call(EffectCont::WrapJson, outcome, &None) {
        ToolStep::Finished(m) => {
            assert!(!m.error);
            assert_eq!(m.content, "{\"result\":\"a\\u0001b\\u001f\\tc\"}");
        }
        other => panic!("expected the wrapped result, got {:?}", other),
    }
}

#[test]
fn args_schema_matches_its_stated_shape() {
    let args = ToolKind::Edit.args();
    let shape: Vec<(String, ArgType)> = args.iter().map(|a| (a.name.clone(), a.ty)).collect();
    assert_eq!(
        shape,
        vec![
            ("path".to_string(), ArgType::Str),
            ("old_string".to_string(), ArgType::Str),
            ("new_string".to_string(), ArgType::Str),
            ("replace_all".to_string(), ArgType::Bool),
        ]
    );
    assert!(args.iter().all(|a| a.required && a.options.is_none()));
    assert!(ToolKind::TodoRead.args().is_empty());
}
