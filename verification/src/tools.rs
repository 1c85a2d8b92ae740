//! The tool layer: what each capability decides and computes.
//!
//! A tool's outside work (running a program, touching a file, fetching a
//! page) is described by a [`ToolEffect`] value and performed by the
//! embedding shell; everything the tool decides — argument parsing,
//! permission messages, replacement arithmetic, result payloads — is
//! verified here. A side-effecting tool first asks for permission
//! ([`ToolStep::NeedPermission`]); a declined request produces a failed
//! result and no effect is ever handed out for it.

use vstd::prelude::*;

use crate::chat::{ArgValueModel, EditOp, Message, ToolArgs};
use crate::error::AiError;
use crate::ledger::{Priority, Status, TaskLedger, TodoItem, string_eq};
use crate::registry::{ToolKind, arg_lookup};
use crate::textutil;

verus! {

/// One outside action that the embedding shell performs for a tool.
#[derive(Debug)]
pub enum ToolEffect {
    /// Run a program with arguments in the working directory.
    RunCommand { program: String, args: Vec<String> },
    /// Run a program with arguments, feeding `input` to its standard input.
    RunCommandWithInput { program: String, args: Vec<String>, input: String },
    /// Overwrite a file with content.
    WriteFile { path: String, content: String },
    /// Append content to a file, creating it if needed.
    AppendFile { path: String, content: String },
    /// Read a file to a string.
    ReadFile { path: String },
    /// List the entries directly under a path.
    ListDir { path: String },
    /// List every project file path, one per line, honoring ignore rules.
    ListProject,
    /// List the project files matching a glob pattern, one per line.
    WalkGlob { path: String, pattern: String },
    /// Fetch a page and extract the text under a CSS selector.
    FetchUrl { url: String, selector: String },
    /// Run a fresh one-task sub-agent and return its last message.
    RunSubAgent { prompt: String },
}

/// What the shell reports back for a performed effect: a success flag and
/// the produced text (output on success, a failure description otherwise).
#[derive(Debug)]
pub struct EffectOutcome {
    pub success: bool,
    pub output: String,
}

/// How a finished effect's outcome becomes this call's result, or what
/// the tool does next with it.
#[derive(Debug)]
pub enum EffectCont {
    /// The output is the result content.
    Text,
    /// The output is wrapped as a quoted `result` payload field.
    WrapJson,
    /// A fixed success text is the result content.
    Fixed(String),
    /// The output is a file: count its lines and return them from `offset`.
    ReadLines { offset: u64 },
    /// The output lists the project files: require `path` among them, then
    /// read it.
    ProjectGate { path: String, offset: u64 },
    /// The output is the file to edit: replace and ask for permission.
    EditApply { path: String, old_string: String, new_string: String, replace_all: bool },
    /// The output is the file to edit: apply each edit in order, then ask.
    MultiEditApply { path: String, edits: Vec<EditOp> },
}

/// What a tool call does next.
#[derive(Debug)]
pub enum ToolStep {
    /// The call's result message is determined.
    Finished(Message),
    /// The call must round-trip through the permission gate; only when the
    /// answer is an approval is `effect` handed out.
    NeedPermission { message: String, effect: ToolEffect, cont: EffectCont },
    /// The call needs an outside effect performed.
    NeedEffect { effect: ToolEffect, cont: EffectCont },
}

/// The model of a call identifier.
pub open spec fn id_model(id: &Option<String>) -> Option<Seq<char>> {
    match id {
        Some(s) => Some(s@),
        None => None,
    }
}

/// The permission question asked before running a shell command.
pub open spec fn bash_ask_spec(cmd: Seq<char>) -> Seq<char> {
    "The agent wants to run:\n\n```sh\n"@ + cmd + "\n```"@
}

/// The permission question asked before creating a file.
pub open spec fn write_ask_spec(path: Seq<char>, content: Seq<char>) -> Seq<char> {
    "The agent wants to create `"@ + path + "`:\n\n```diff\n"@ + content + "\n```"@
}

/// The permission question asked before editing a file, over the patch
/// between the old and the new content.
pub open spec fn edit_ask_spec(path: Seq<char>, patch: Seq<char>) -> Seq<char> {
    "The agent wants to edit `"@ + path + "`:\n\n```diff\n"@ + patch + "\n```"@
}

/// The failed-result text after a declined permission request.
pub open spec fn declined_text_spec() -> Seq<char> {
    "user declined the edit request"@
}

/// A failed tool result carrying an error's text.
pub fn fail_result(e: &AiError, call_id: &Option<String>) -> (r: Message)
    ensures
        r@.is_result_for(id_model(call_id)),
        r@.error,
        r@.content == e.text_spec(),
{
    Message::tool_error(e.text(), crate::chat::clone_opt_string(call_id))
}

/// The failed result recorded when the user declines a permission request.
pub fn declined_result(call_id: &Option<String>) -> (r: Message)
    ensures
        r@.is_result_for(id_model(call_id)),
        r@.error,
        r@.content == declined_text_spec(),
{
    Message::tool_error(
        String::from_str("user declined the edit request"),
        crate::chat::clone_opt_string(call_id),
    )
}

/// One argument string for a run-command effect.
fn one_arg(a: &str) -> (r: Vec<String>)
    ensures
        r@.map_values(|s: String| s@) =~= seq![a@],
{
    let mut v: Vec<String> = Vec::new();
    v.push(a.to_owned());
    v
}

/// Two argument strings for a run-command effect.
fn two_args(a: &str, b: &str) -> (r: Vec<String>)
    ensures
        r@.map_values(|s: String| s@) =~= seq![a@, b@],
{
    let mut v: Vec<String> = Vec::new();
    v.push(a.to_owned());
    v.push(b.to_owned());
    v
}

/// The sequence of character views of a string vector.
pub open spec fn strs(v: Seq<String>) -> Seq<Seq<char>> {
    v.map_values(|s: String| s@)
}

/// The text value bound to `key`, if `key` is bound to text.
pub open spec fn str_arg(args: Seq<(Seq<char>, ArgValueModel)>, key: Seq<char>) -> Option<
    Seq<char>,
> {
    match arg_lookup(args, key) {
        Some(ArgValueModel::Str(s)) => Some(s),
        _ => None,
    }
}

/// The error text reported when `key` is not usable as text.
pub open spec fn arg_fail_text(args: Seq<(Seq<char>, ArgValueModel)>, key: Seq<char>) -> Seq<
    char,
> {
    match arg_lookup(args, key) {
        None => "tool call is missing argument `"@ + key + "`"@,
        Some(_) => "malformed value: "@ + key,
    }
}

/// A finished error step for a failed argument read.
fn arg_fail_step(e: AiError, call_id: &Option<String>) -> (r: ToolStep)
    ensures
        r matches ToolStep::Finished(m) && m@.is_result_for(id_model(call_id)) && m@.error
            && m@.content == e.text_spec(),
{
    ToolStep::Finished(fail_result(&e, call_id))
}

/// A finished success step with fixed content.
fn done_text(content: String, call_id: &Option<String>) -> (r: ToolStep)
    ensures
        r matches ToolStep::Finished(m) && m@.is_result_for(id_model(call_id)) && !m@.error
            && m@.content == content@,
{
    ToolStep::Finished(Message::tool(content, crate::chat::clone_opt_string(call_id)))
}

/// Three argument strings for a run-command effect.
fn three_args(a: &str, b: &str, c: &str) -> (r: Vec<String>)
    ensures
        r@.map_values(|s: String| s@) =~= seq![a@, b@, c@],
{
    let mut v: Vec<String> = Vec::new();
    v.push(a.to_owned());
    v.push(b.to_owned());
    v.push(c.to_owned());
    v
}

/// The integer value bound to `key`, if `key` is bound to an integer.
pub open spec fn int_arg(args: Seq<(Seq<char>, ArgValueModel)>, key: Seq<char>) -> Option<i64> {
    match arg_lookup(args, key) {
        Some(ArgValueModel::Int(n)) => Some(n),
        _ => None,
    }
}

/// The text bound to `key`, or `dflt` when `key` is not bound to text.
pub open spec fn str_arg_or(
    args: Seq<(Seq<char>, ArgValueModel)>,
    key: Seq<char>,
    dflt: Seq<char>,
) -> Seq<char> {
    match arg_lookup(args, key) {
        Some(ArgValueModel::Str(s)) => s,
        _ => dflt,
    }
}

/// The boolean bound to `key`, or false when `key` is not bound to one.
pub open spec fn bool_arg_or_false(args: Seq<(Seq<char>, ArgValueModel)>, key: Seq<char>) -> bool {
    match arg_lookup(args, key) {
        Some(ArgValueModel::Bool(b)) => b,
        _ => false,
    }
}

/// The listing path of the `ls` capability: made relative by prefixing a
/// dot when it does not already start with one.
pub open spec fn ls_path_spec(p: Seq<char>) -> Seq<char> {
    if p.len() > 0 && p[0] == '.' {
        p
    } else {
        "."@ + p
    }
}

/// The permission question asked before running a named program.
pub open spec fn run_ask_spec(cmd: Seq<char>, arg: Seq<char>) -> Seq<char> {
    "The agent wants to execute:\n\n```sh\n"@ + cmd + " "@ + arg + "\n```"@
}

/// The permission question asked before applying a patch.
pub open spec fn patch_ask_spec(diff: Seq<char>) -> Seq<char> {
    "The agent wants to run this patch:\n\n```diff\n"@ + diff + "\n```"@
}

/// The `sed` substitution program for one replacement.
pub open spec fn sed_prog_spec(o: Seq<char>, n: Seq<char>) -> Seq<char> {
    "s/"@ + textutil::sed_escape_spec(o) + "/"@ + textutil::sed_escape_spec(n) + "/g"@
}

/// One line of the task-list rendering.
pub open spec fn todo_line_spec(e: (Seq<char>, crate::ledger::TodoModel)) -> Seq<char> {
    e.0 + " ["@ + status_word_spec(e.1.status) + "] "@ + e.1.content + "\n"@
}

/// The keyword of a status.
pub open spec fn status_word_spec(s: Status) -> Seq<char> {
    match s {
        Status::Pending => "pending"@,
        Status::InProgress => "in_progress"@,
        Status::Completed => "completed"@,
    }
}

/// The rendering of the task list, one line per item, in insertion order.
pub open spec fn render_todos_spec(s: Seq<(Seq<char>, crate::ledger::TodoModel)>) -> Seq<char>
    decreases s.len(),
{
    if s.len() == 0 {
        Seq::<char>::empty()
    } else {
        todo_line_spec(s[0]) + render_todos_spec(s.skip(1))
    }
}

/// The priority named by a keyword, if any.
pub open spec fn priority_of_spec(s: Seq<char>) -> Option<Priority> {
    if s == "high"@ {
        Some(Priority::High)
    } else if s == "medium"@ {
        Some(Priority::Medium)
    } else if s == "low"@ {
        Some(Priority::Low)
    } else {
        None
    }
}

/// The status named by a keyword, if any.
pub open spec fn status_of_spec(s: Seq<char>) -> Option<Status> {
    if s == "pending"@ {
        Some(Status::Pending)
    } else if s == "in_progress"@ {
        Some(Status::InProgress)
    } else if s == "completed"@ {
        Some(Status::Completed)
    } else {
        None
    }
}

/// Reads a priority keyword.
fn parse_priority(s: &str) -> (r: Option<Priority>)
    ensures
        r == priority_of_spec(s@),
{
    if s.eq("high") {
        Some(Priority::High)
    } else if s.eq("medium") {
        Some(Priority::Medium)
    } else if s.eq("low") {
        Some(Priority::Low)
    } else {
        None
    }
}

/// Reads a status keyword.
fn parse_status(s: &str) -> (r: Option<Status>)
    ensures
        r == status_of_spec(s@),
{
    if s.eq("pending") {
        Some(Status::Pending)
    } else if s.eq("in_progress") {
        Some(Status::InProgress)
    } else if s.eq("completed") {
        Some(Status::Completed)
    } else {
        None
    }
}

/// The status keyword of one item.
fn status_word(s: Status) -> (r: &'static str)
    ensures
        r@ == status_word_spec(s),
{
    match s {
        Status::Pending => "pending",
        Status::InProgress => "in_progress",
        Status::Completed => "completed",
    }
}

/// Renders the task list for the reading capability.
pub fn render_todos(ledger: &TaskLedger) -> (r: String)
    ensures
        r@ == render_todos_spec(ledger@),
{
    let mut out = String::new();
    let n = ledger.len();
    let mut i: usize = 0;
    proof {
        assert(ledger@.skip(0) =~= ledger@);
    }
    while i < n
        invariant
            n == ledger@.len(),
            i <= n,
            render_todos_spec(ledger@) == out@ + render_todos_spec(ledger@.skip(i as int)),
        decreases n - i,
    {
        let ghost rest = ledger@.skip(i as int);
        let entry = ledger.entry_at(i);
        let line = crate::strutil::cat5(
            entry.0.as_str(),
            " [",
            status_word(entry.1.status),
            "] ",
            entry.1.content.as_str(),
        );
        let ghost out_before = out@;
        out.append(line.as_str());
        out.append("\n");
        proof {
            assert(rest[0] == ledger@[i as int]);
            assert(rest.skip(1) =~= ledger@.skip(i + 1int));
            assert(render_todos_spec(rest) == todo_line_spec(ledger@[i as int])
                + render_todos_spec(ledger@.skip(i + 1int)));
            assert(line@ + "\n"@ == todo_line_spec(ledger@[i as int])) by {
                assert(line@ + "\n"@ =~= todo_line_spec(ledger@[i as int]));
            }
            assert(out@ == out_before + todo_line_spec(ledger@[i as int])) by {
                assert(out@ =~= out_before + (line@ + "\n"@));
            }
            assert(out_before + (todo_line_spec(ledger@[i as int]) + render_todos_spec(
                ledger@.skip(i + 1int),
            )) =~= (out_before + todo_line_spec(ledger@[i as int])) + render_todos_spec(
                ledger@.skip(i + 1int),
            ));
        }
        i += 1;
    }
    proof {
        assert(ledger@.skip(n as int) =~= Seq::<(Seq<char>, crate::ledger::TodoModel)>::empty());
        assert(out@ =~= out@ + Seq::<char>::empty());
    }
    out
}

/// Everything `plan_call` promises of its decision, as one predicate
/// over the call's identifier and arguments, the ledger before and after,
/// and the returned step. `run_next_tool` lifts this to the run loop.
pub open spec fn plan_post(
    kind: ToolKind,
    cid: Option<Seq<char>>,
    args: Seq<(Seq<char>, ArgValueModel)>,
    l0: Seq<(Seq<char>, crate::ledger::TodoModel)>,
    l1: Seq<(Seq<char>, crate::ledger::TodoModel)>,
    r: ToolStep,
) -> bool {
    &&& (kind != ToolKind::TodoWrite ==> l1 == l0)
    &&& (r matches ToolStep::Finished(m) ==> m@.is_result_for(cid))
    &&& (kind == ToolKind::Bash ==> (match str_arg(args, "command"@) {
            Some(cmd) => r matches ToolStep::NeedPermission { message, effect, cont }
                && message@ == bash_ask_spec(cmd) && (effect matches ToolEffect::RunCommand {
                program,
                args: a,
            } && program@ == "sh"@ && strs(a@) == seq!["-c"@, cmd]) && cont is WrapJson,
            None => r matches ToolStep::Finished(m) && m@.error && m@.content == arg_fail_text(
                args,
                "command"@,
            ),
        }))
    &&& (kind == ToolKind::Write ==> (match (
            str_arg(args, "path"@),
            str_arg(args, "content"@),
        ) {
            (Some(p), Some(c)) => r matches ToolStep::NeedPermission { message, effect, cont }
                && message@ == write_ask_spec(p, c) && (effect matches ToolEffect::WriteFile {
                path,
                content,
            } && path@ == p && content@ == c) && (cont matches EffectCont::Fixed(t) && t@
                == "{\"result\":\"file was edited\"}"@),
            (None, _) => r matches ToolStep::Finished(m) && m@.error && m@.content
                == arg_fail_text(args, "path"@),
            (Some(_), None) => r matches ToolStep::Finished(m) && m@.error && m@.content
                == arg_fail_text(args, "content"@),
        }))
    &&& (kind == ToolKind::Edit ==> (match (
            str_arg(args, "path"@),
            str_arg(args, "old_string"@),
            str_arg(args, "new_string"@),
        ) {
            (Some(p), Some(o), Some(n)) => r matches ToolStep::NeedEffect { effect, cont } && (
            effect matches ToolEffect::ReadFile { path } && path@ == p) && (
            cont matches EffectCont::EditApply { path, old_string, new_string, replace_all }
                && path@ == p && old_string@ == o && new_string@ == n && replace_all
                == bool_arg_or_false(args, "replace_all"@)),
            _ => r matches ToolStep::Finished(m) && m@.error,
        }))
    &&& (kind == ToolKind::MultiEdit ==> (match arg_lookup(args, "edits"@) {
            Some(ArgValueModel::Edits(es)) => (match str_arg(args, "path"@) {
                Some(p) => r matches ToolStep::NeedEffect { effect, cont } && (
                effect matches ToolEffect::ReadFile { path } && path@ == p) && (
                cont matches EffectCont::MultiEditApply { path, edits } && path@ == p
                    && edits@.map_values(|e: EditOp| e@) == es),
                None => r matches ToolStep::Finished(m) && m@.error,
            }),
            _ => r matches ToolStep::Finished(m) && m@.error,
        }))
    &&& (kind == ToolKind::Read ==> (match (str_arg(args, "path"@), int_arg(args, "offset"@)) {
            (Some(p), Some(o)) => if o < 0 {
                r matches ToolStep::Finished(m) && m@.error
            } else {
                r matches ToolStep::NeedEffect { effect, cont } && effect is ListProject && (
                cont matches EffectCont::ProjectGate { path, offset } && path@ == p && offset
                    == o as u64)
            },
            _ => r matches ToolStep::Finished(m) && m@.error,
        }))
    &&& (kind == ToolKind::Ls ==> (r matches ToolStep::NeedEffect { effect, cont } && (
        effect matches ToolEffect::ListDir { path } && path@ == ls_path_spec(
            str_arg_or(args, "path"@, "./"@),
        )) && cont is Text))
    &&& (kind == ToolKind::Glob ==> (match str_arg(args, "pattern"@) {
            Some(pat) => r matches ToolStep::NeedEffect { effect, cont } && (
            effect matches ToolEffect::WalkGlob { path, pattern } && path@ == str_arg_or(
                args,
                "path"@,
                "."@,
            ) && pattern@ == pat) && cont is Text,
            None => r matches ToolStep::Finished(m) && m@.error && m@.content == arg_fail_text(
                args,
                "pattern"@,
            ),
        }))
    &&& (kind == ToolKind::Grep ==> (match str_arg(args, "pattern"@) {
            Some(pat) => r matches ToolStep::NeedEffect { effect, cont } && (
            effect matches ToolEffect::RunCommand { program, args: a } && program@ == "rg"@
                && strs(a@) == grep_args_spec(args, pat)) && cont is Text,
            None => r matches ToolStep::Finished(m) && m@.error && m@.content == arg_fail_text(
                args,
                "pattern"@,
            ),
        }))
    &&& (kind == ToolKind::Fetch ==> (match str_arg(args, "url"@) {
            Some(u) => r matches ToolStep::NeedEffect { effect, cont } && (
            effect matches ToolEffect::FetchUrl { url, selector } && url@ == u && selector@
                == "main"@) && cont is Text,
            None => r matches ToolStep::Finished(m) && m@.error,
        }))
    &&& (kind == ToolKind::CrawlWebsite ==> (match str_arg(args, "url"@) {
            Some(u) => r matches ToolStep::NeedEffect { effect, cont } && (
            effect matches ToolEffect::FetchUrl { url, selector } && url@ == u && selector@
                == "h1,h2,h3,h4,h5,h6,p,code,li,th,td"@) && cont is Text,
            None => r matches ToolStep::Finished(m) && m@.error,
        }))
    &&& (kind == ToolKind::TodoRead ==> (r matches ToolStep::Finished(m) && !m@.error
            && m@.content == render_todos_spec(l0)))
    &&& (kind == ToolKind::TodoWrite ==> (match (
            str_arg(args, "id"@),
            str_arg(args, "content"@),
            str_arg(args, "priority"@),
            str_arg(args, "status"@),
        ) {
            (Some(id), Some(c), Some(p), Some(st)) => (match (
                priority_of_spec(p),
                status_of_spec(st),
            ) {
                (Some(prio), Some(stat)) => (r matches ToolStep::Finished(m) && !m@.error
                    && m@.content == "todo list updated"@) && (exists|j: int| 0 <= j < l1.len() && l1[j].0 == id) && (
                forall|i: int|
                    0 <= i < l1.len() && l1[i].0 == id ==> l1[i].1 == (crate::ledger::TodoModel {
                        priority: prio,
                        status: stat,
                        content: c,
                    })),
                _ => r matches ToolStep::Finished(m) && m@.error && l1 == l0,
            }),
            _ => r matches ToolStep::Finished(m) && m@.error && l1 == l0,
        }))
    &&& (kind == ToolKind::Task ==> (match str_arg(args, "task"@) {
            Some(t) => r matches ToolStep::NeedEffect { effect, cont } && (
            effect matches ToolEffect::RunSubAgent { prompt } && prompt@ == t) && cont is Text,
            None => r matches ToolStep::Finished(m) && m@.error,
        }))
    &&& (kind == ToolKind::Tree ==> (r matches ToolStep::NeedEffect { effect, cont } && (
        effect matches ToolEffect::RunCommand { program, args: a } && program@ == "tree"@
            && strs(a@) == seq!["-f"@, "-i"@, "--gitignore"@]) && cont is Text))
    &&& (kind == ToolKind::Cat ==> (match str_arg(args, "file"@) {
            Some(f) => r matches ToolStep::NeedEffect { effect, cont } && (
            effect matches ToolEffect::RunCommand { program, args: a } && program@ == "cat"@
                && strs(a@) == seq!["-n"@, f]) && cont is Text,
            None => r matches ToolStep::Finished(m) && m@.error && m@.content == arg_fail_text(
                args,
                "file"@,
            ),
        }))
    &&& (kind == ToolKind::Compress ==> (match str_arg(args, "file_path"@) {
            Some(f) => r matches ToolStep::NeedEffect { effect, cont } && (
            effect matches ToolEffect::RunSubAgent { prompt } && prompt@ == "find '"@ + f
                + "' and compress it"@) && cont is Text,
            None => r matches ToolStep::Finished(m) && m@.error,
        }))
    &&& (kind == ToolKind::WriteMemo ==> (match str_arg(args, "information"@) {
            Some(info) => r matches ToolStep::NeedPermission { message, effect, cont }
                && message@ == write_ask_spec("memo.md"@, info) && (
            effect matches ToolEffect::AppendFile { path, content } && path@ == "memo.md"@
                && content@ == info) && (cont matches EffectCont::Fixed(t) && t@
                == "memory written"@),
            None => r matches ToolStep::Finished(m) && m@.error,
        }))
    &&& (kind == ToolKind::Mkdir ==> (match str_arg(args, "dir_path"@) {
            Some(p) => r matches ToolStep::NeedPermission { message, effect, cont } && message@
                == bash_ask_spec("mkdir -p "@ + p) && (effect matches ToolEffect::RunCommand {
                program,
                args: a,
            } && program@ == "mkdir"@ && strs(a@) == seq!["-p"@, p]) && cont is Text,
            None => r matches ToolStep::Finished(m) && m@.error,
        }))
    &&& (kind == ToolKind::Sed ==> (match (
            str_arg(args, "file_path"@),
            str_arg(args, "old"@),
            str_arg(args, "new"@),
        ) {
            (Some(f), Some(o), Some(n)) => r matches ToolStep::NeedPermission {
                message,
                effect,
                cont,
            } && message@ == bash_ask_spec("sed -i "@ + sed_prog_spec(o, n) + " "@ + f) && (
            effect matches ToolEffect::RunCommand { program, args: a } && program@ == "sed"@
                && strs(a@) == seq!["-i"@, sed_prog_spec(o, n), f]) && cont is Text,
            _ => r matches ToolStep::Finished(m) && m@.error,
        }))
    &&& (kind == ToolKind::CreateFile ==> (match (
            str_arg(args, "file_path"@),
            str_arg(args, "content"@),
        ) {
            (Some(p), Some(c)) => r matches ToolStep::NeedPermission { message, effect, cont }
                && message@ == write_ask_spec(p, c) && (effect matches ToolEffect::WriteFile {
                path,
                content,
            } && path@ == p && content@ == c) && (cont matches EffectCont::Fixed(t) && t@
                == "file created"@),
            _ => r matches ToolStep::Finished(m) && m@.error,
        }))
    &&& (kind == ToolKind::MoveFile ==> (match (str_arg(args, "src"@), str_arg(args, "dst"@)) {
            (Some(a1), Some(a2)) => r matches ToolStep::NeedPermission { message, effect, cont }
                && message@ == bash_ask_spec("mv "@ + a1 + " "@ + a2) && (
            effect matches ToolEffect::RunCommand { program, args: a } && program@ == "mv"@
                && strs(a@) == seq![a1, a2]) && (cont matches EffectCont::Fixed(t) && t@
                == "file moved"@),
            _ => r matches ToolStep::Finished(m) && m@.error,
        }))
    &&& (kind == ToolKind::DeleteFile ==> (match str_arg(args, "file_path"@) {
            Some(p) => r matches ToolStep::NeedPermission { message, effect, cont } && message@
                == bash_ask_spec("rm "@ + p) && (effect matches ToolEffect::RunCommand {
                program,
                args: a,
            } && program@ == "rm"@ && strs(a@) == seq![p]) && (
            cont matches EffectCont::Fixed(t) && t@ == "file deleted"@),
            None => r matches ToolStep::Finished(m) && m@.error,
        }))
    &&& (kind == ToolKind::GitLog ==> (r matches ToolStep::NeedEffect { effect, cont } && (
        effect matches ToolEffect::RunCommand { program, args: a } && program@ == "git"@
            && strs(a@) == seq!["log"@, "-n 20"@]) && cont is Text))
    &&& (kind == ToolKind::GitShowCommit ==> (match str_arg(args, "commit"@) {
            Some(h) => r matches ToolStep::NeedEffect { effect, cont } && (
            effect matches ToolEffect::RunCommand { program, args: a } && program@ == "git"@
                && strs(a@) == seq!["show"@, h]) && cont is Text,
            None => r matches ToolStep::Finished(m) && m@.error,
        }))
    &&& (kind == ToolKind::PatchFile ==> (match str_arg(args, "diff"@) {
            Some(d) => r matches ToolStep::NeedPermission { message, effect, cont } && message@
                == patch_ask_spec(d) && (effect matches ToolEffect::RunCommandWithInput {
                program,
                args: a,
                input,
            } && program@ == "patch"@ && strs(a@) == seq!["-p1"@] && input@ == d) && cont
                is Text,
            None => r matches ToolStep::Finished(m) && m@.error,
        }))
    &&& (kind == ToolKind::RunTerminal ==> (match (
            str_arg(args, "command"@),
            str_arg(args, "arguments"@),
        ) {
            (Some(c), Some(a1)) => r matches ToolStep::NeedPermission { message, effect, cont }
                && message@ == run_ask_spec(c, a1) && (effect matches ToolEffect::RunCommand {
                program,
                args: a,
            } && program@ == c && strs(a@) == seq![a1]) && cont is Text,
            _ => r matches ToolStep::Finished(m) && m@.error,
        }))
    &&& (kind == ToolKind::EditFile ==> (match (
            str_arg(args, "edit_string"@),
            str_arg(args, "target_file"@),
        ) {
            (Some(es), Some(tf)) => r matches ToolStep::NeedEffect { effect, cont } && (
            effect matches ToolEffect::RunSubAgent { prompt } && prompt@ == edit_prompt_spec(
                tf,
                es,
            )) && (cont matches EffectCont::Fixed(t) && t@ == "edits done"@),
            _ => r matches ToolStep::Finished(m) && m@.error,
        }))
}

/// Decides what the call of capability `kind` with arguments `args` does:
/// a determined result, a permission question, or an outside effect.
/// Only the task-list writer touches the ledger; everything the decision
/// promises is gathered in [`plan_post`].
pub fn plan_call(
    kind: ToolKind,
    call_id: &Option<String>,
    args: &ToolArgs,
    ledger: &mut TaskLedger,
) -> (r: ToolStep)
    requires
        old(ledger).wf(),
    ensures
        final(ledger).wf(),
        plan_post(kind, id_model(call_id), args@, old(ledger)@, final(ledger)@, r),
{
    match kind {
        ToolKind::Bash => match args.get_str("command") {
            Ok(cmd) => ToolStep::NeedPermission {
                message: crate::strutil::cat3(
                    "The agent wants to run:\n\n```sh\n",
                    cmd.as_str(),
                    "\n```",
                ),
                effect: ToolEffect::RunCommand {
                    program: String::from_str("sh"),
                    args: two_args("-c", cmd.as_str()),
                },
                cont: EffectCont::WrapJson,
            },
            Err(e) => arg_fail_step(e, call_id),
        },
        ToolKind::Write => match args.get_str("path") {
            Ok(p) => match args.get_str("content") {
                Ok(c) => ToolStep::NeedPermission {
                    message: crate::strutil::cat5(
                        "The agent wants to create `",
                        p.as_str(),
                        "`:\n\n```diff\n",
                        c.as_str(),
                        "\n```",
                    ),
                    effect: ToolEffect::WriteFile { path: p, content: c },
                    cont: EffectCont::Fixed(
                        String::from_str("{\"result\":\"file was edited\"}"),
                    ),
                },
                Err(e) => arg_fail_step(e, call_id),
            },
            Err(e) => arg_fail_step(e, call_id),
        },
        ToolKind::Edit => match args.get_str("path") {
            Ok(p) => match args.get_str("old_string") {
                Ok(o) => match args.get_str("new_string") {
                    Ok(n) => {
                        let replace_all = match args.get_bool("replace_all") {
                            Ok(b) => b,
                            Err(_) => false,
                        };
                        ToolStep::NeedEffect {
                            effect: ToolEffect::ReadFile { path: p.clone() },
                            cont: EffectCont::EditApply {
                                path: p,
                                old_string: o,
                                new_string: n,
                                replace_all,
                            },
                        }
                    },
                    Err(e) => arg_fail_step(e, call_id),
                },
                Err(e) => arg_fail_step(e, call_id),
            },
            Err(e) => arg_fail_step(e, call_id),
        },
        ToolKind::MultiEdit => match args.get_edits("edits") {
            Ok(es) => match args.get_str("path") {
                Ok(p) => ToolStep::NeedEffect {
                    effect: ToolEffect::ReadFile { path: p.clone() },
                    cont: EffectCont::MultiEditApply { path: p, edits: es },
                },
                Err(e) => arg_fail_step(e, call_id),
            },
            Err(e) => arg_fail_step(e, call_id),
        },
        ToolKind::Read => match args.get_str("path") {
            Ok(p) => match args.get_int("offset") {
                Ok(o) => {
                    if o < 0 {
                        arg_fail_step(AiError::ParseError(String::from_str("offset")), call_id)
                    } else {
                        ToolStep::NeedEffect {
                            effect: ToolEffect::ListProject,
                            cont: EffectCont::ProjectGate { path: p, offset: o as u64 },
                        }
                    }
                },
                Err(e) => arg_fail_step(e, call_id),
            },
            Err(e) => arg_fail_step(e, call_id),
        },
        ToolKind::Ls => {
            let p = match args.get_str("path") {
                Ok(p) => p,
                Err(_) => String::from_str("./"),
            };
            let fixed = if p.as_str().unicode_len() > 0 && p.as_str().get_char(0) == '.' {
                p
            } else {
                crate::strutil::cat2(".", p.as_str())
            };
            ToolStep::NeedEffect {
                effect: ToolEffect::ListDir { path: fixed },
                cont: EffectCont::Text,
            }
        },
        ToolKind::Glob => match args.get_str("pattern") {
            Ok(pat) => {
                let p = match args.get_str("path") {
                    Ok(p) => p,
                    Err(_) => String::from_str("."),
                };
                ToolStep::NeedEffect {
                    effect: ToolEffect::WalkGlob { path: p, pattern: pat },
                    cont: EffectCont::Text,
                }
            },
            Err(e) => arg_fail_step(e, call_id),
        },
        ToolKind::Grep => match args.get_str("pattern") {
            Ok(pat) => {
                let mut a: Vec<String> = Vec::new();
                a.push(pat);
                let lit = match args.get_bool("literal_text") {
                    Ok(b) => b,
                    Err(_) => false,
                };
                if lit {
                    a.push(String::from_str("--fixed-strings"));
                }
                match args.get_str("include") {
                    Ok(inc) => {
                        a.push(String::from_str("--glob"));
                        a.push(inc);
                    },
                    Err(_) => {},
                }
                let p = match args.get_str("path") {
                    Ok(p) => p,
                    Err(_) => String::from_str("./"),
                };
                a.push(p);
                proof {
                    assert(strs(a@) =~= grep_args_spec(args@, str_arg(
                        args@,
                        "pattern"@,
                    ).unwrap()));
                }
                ToolStep::NeedEffect {
                    effect: ToolEffect::RunCommand { program: String::from_str("rg"), args: a },
                    cont: EffectCont::Text,
                }
            },
            Err(e) => arg_fail_step(e, call_id),
        },
        ToolKind::Fetch => match args.get_str("url") {
            Ok(u) => ToolStep::NeedEffect {
                effect: ToolEffect::FetchUrl { url: u, selector: String::from_str("main") },
                cont: EffectCont::Text,
            },
            Err(e) => arg_fail_step(e, call_id),
        },
        ToolKind::CrawlWebsite => match args.get_str("url") {
            Ok(u) => ToolStep::NeedEffect {
                effect: ToolEffect::FetchUrl {
                    url: u,
                    selector: String::from_str("h1,h2,h3,h4,h5,h6,p,code,li,th,td"),
                },
                cont: EffectCont::Text,
            },
            Err(e) => arg_fail_step(e, call_id),
        },
        ToolKind::TodoRead => done_text(render_todos(ledger), call_id),
        ToolKind::TodoWrite => match args.get_str("id") {
            Ok(id) => match args.get_str("content") {
                Ok(c) => match args.get_str("priority") {
                    Ok(p) => match args.get_str("status") {
                        Ok(st) => match parse_priority(p.as_str()) {
                            Some(prio) => match parse_status(st.as_str()) {
                                Some(stat) => {
                                    ledger.upsert(
                                        id,
                                        TodoItem { priority: prio, status: stat, content: c },
                                    );
                                    done_text(String::from_str("todo list updated"), call_id)
                                },
                                None => arg_fail_step(
                                    AiError::ParseError(String::from_str("status")),
                                    call_id,
                                ),
                            },
                            None => arg_fail_step(
                                AiError::ParseError(String::from_str("priority")),
                                call_id,
                            ),
                        },
                        Err(e) => arg_fail_step(e, call_id),
                    },
                    Err(e) => arg_fail_step(e, call_id),
                },
                Err(e) => arg_fail_step(e, call_id),
            },
            Err(e) => arg_fail_step(e, call_id),
        },
        ToolKind::Task => match args.get_str("task") {
            Ok(t) => ToolStep::NeedEffect {
                effect: ToolEffect::RunSubAgent { prompt: t },
                cont: EffectCont::Text,
            },
            Err(e) => arg_fail_step(e, call_id),
        },
        ToolKind::Tree => ToolStep::NeedEffect {
            effect: ToolEffect::RunCommand {
                program: String::from_str("tree"),
                args: three_args("-f", "-i", "--gitignore"),
            },
            cont: EffectCont::Text,
        },
        ToolKind::Cat => match args.get_str("file") {
            Ok(f) => ToolStep::NeedEffect {
                effect: ToolEffect::RunCommand {
                    program: String::from_str("cat"),
                    args: two_args("-n", f.as_str()),
                },
                cont: EffectCont::Text,
            },
            Err(e) => arg_fail_step(e, call_id),
        },
        ToolKind::Compress => match args.get_str("file_path") {
            Ok(f) => ToolStep::NeedEffect {
                effect: ToolEffect::RunSubAgent {
                    prompt: crate::strutil::cat3("find '", f.as_str(), "' and compress it"),
                },
                cont: EffectCont::Text,
            },
            Err(e) => arg_fail_step(e, call_id),
        },
        ToolKind::WriteMemo => match args.get_str("information") {
            Ok(info) => ToolStep::NeedPermission {
                message: crate::strutil::cat5(
                    "The agent wants to create `",
                    "memo.md",
                    "`:\n\n```diff\n",
                    info.as_str(),
                    "\n```",
                ),
                effect: ToolEffect::AppendFile {
                    path: String::from_str("memo.md"),
                    content: info,
                },
                cont: EffectCont::Fixed(String::from_str("memory written")),
            },
            Err(e) => arg_fail_step(e, call_id),
        },
        ToolKind::Mkdir => match args.get_str("dir_path") {
            Ok(p) => ToolStep::NeedPermission {
                message: crate::strutil::cat3(
                    "The agent wants to run:\n\n```sh\n",
                    crate::strutil::cat2("mkdir -p ", p.as_str()).as_str(),
                    "\n```",
                ),
                effect: ToolEffect::RunCommand {
                    program: String::from_str("mkdir"),
                    args: two_args("-p", p.as_str()),
                },
                cont: EffectCont::Text,
            },
            Err(e) => arg_fail_step(e, call_id),
        },
        ToolKind::Sed => match args.get_str("file_path") {
            Ok(f) => match args.get_str("old") {
                Ok(o) => match args.get_str("new") {
                    Ok(n) => {
                        let eo = textutil::sed_escape(o.as_str());
                        let en = textutil::sed_escape(n.as_str());
                        let prog = crate::strutil::cat5(
                            "s/",
                            eo.as_str(),
                            "/",
                            en.as_str(),
                            "/g",
                        );
                        let cmdline = crate::strutil::cat2(
                            crate::strutil::cat3("sed -i ", prog.as_str(), " ").as_str(),
                            f.as_str(),
                        );
                        ToolStep::NeedPermission {
                            message: crate::strutil::cat3(
                                "The agent wants to run:\n\n```sh\n",
                                cmdline.as_str(),
                                "\n```",
                            ),
                            effect: ToolEffect::RunCommand {
                                program: String::from_str("sed"),
                                args: three_args("-i", prog.as_str(), f.as_str()),
                            },
                            cont: EffectCont::Text,
                        }
                    },
                    Err(e) => arg_fail_step(e, call_id),
                },
                Err(e) => arg_fail_step(e, call_id),
            },
            Err(e) => arg_fail_step(e, call_id),
        },
        ToolKind::CreateFile => match args.get_str("file_path") {
            Ok(p) => match args.get_str("content") {
                Ok(c) => ToolStep::NeedPermission {
                    message: crate::strutil::cat5(
                        "The agent wants to create `",
                        p.as_str(),
                        "`:\n\n```diff\n",
                        c.as_str(),
                        "\n```",
                    ),
                    effect: ToolEffect::WriteFile { path: p, content: c },
                    cont: EffectCont::Fixed(String::from_str("file created")),
                },
                Err(e) => arg_fail_step(e, call_id),
            },
            Err(e) => arg_fail_step(e, call_id),
        },
        ToolKind::MoveFile => match args.get_str("src") {
            Ok(a1) => match args.get_str("dst") {
                Ok(a2) => ToolStep::NeedPermission {
                    message: crate::strutil::cat3(
                        "The agent wants to run:\n\n```sh\n",
                        crate::strutil::cat2(
                            crate::strutil::cat3("mv ", a1.as_str(), " ").as_str(),
                            a2.as_str(),
                        ).as_str(),
                        "\n```",
                    ),
                    effect: ToolEffect::RunCommand {
                        program: String::from_str("mv"),
                        args: two_args(a1.as_str(), a2.as_str()),
                    },
                    cont: EffectCont::Fixed(String::from_str("file moved")),
                },
                Err(e) => arg_fail_step(e, call_id),
            },
            Err(e) => arg_fail_step(e, call_id),
        },
        ToolKind::DeleteFile => match args.get_str("file_path") {
            Ok(p) => ToolStep::NeedPermission {
                message: crate::strutil::cat3(
                    "The agent wants to run:\n\n```sh\n",
                    crate::strutil::cat2("rm ", p.as_str()).as_str(),
                    "\n```",
                ),
                effect: ToolEffect::RunCommand {
                    program: String::from_str("rm"),
                    args: one_arg(p.as_str()),
                },
                cont: EffectCont::Fixed(String::from_str("file deleted")),
            },
            Err(e) => arg_fail_step(e, call_id),
        },
        ToolKind::GitLog => ToolStep::NeedEffect {
            effect: ToolEffect::RunCommand {
                program: String::from_str("git"),
                args: two_args("log", "-n 20"),
            },
            cont: EffectCont::Text,
        },
        ToolKind::GitShowCommit => match args.get_str("commit") {
            Ok(h) => ToolStep::NeedEffect {
                effect: ToolEffect::RunCommand {
                    program: String::from_str("git"),
                    args: two_args("show", h.as_str()),
                },
                cont: EffectCont::Text,
            },
            Err(e) => arg_fail_step(e, call_id),
        },
        ToolKind::PatchFile => match args.get_str("diff") {
            Ok(d) => ToolStep::NeedPermission {
                message: crate::strutil::cat3(
                    "The agent wants to run this patch:\n\n```diff\n",
                    d.as_str(),
                    "\n```",
                ),
                effect: ToolEffect::RunCommandWithInput {
                    program: String::from_str("patch"),
                    args: one_arg("-p1"),
                    input: d,
                },
                cont: EffectCont::Text,
            },
            Err(e) => arg_fail_step(e, call_id),
        },
        ToolKind::RunTerminal => match args.get_str("command") {
            Ok(c) => match args.get_str("arguments") {
                Ok(a1) => ToolStep::NeedPermission {
                    message: crate::strutil::cat5(
                        "The agent wants to execute:\n\n```sh\n",
                        c.as_str(),
                        " ",
                        a1.as_str(),
                        "\n```",
                    ),
                    effect: ToolEffect::RunCommand {
                        program: c,
                        args: one_arg(a1.as_str()),
                    },
                    cont: EffectCont::Text,
                },
                Err(e) => arg_fail_step(e, call_id),
            },
            Err(e) => arg_fail_step(e, call_id),
        },
        ToolKind::EditFile => match args.get_str("edit_string") {
            Ok(es) => match args.get_str("target_file") {
                Ok(tf) => ToolStep::NeedEffect {
                    effect: ToolEffect::RunSubAgent {
                        prompt: crate::strutil::cat5(
                            "Compare the following changes to the current file and apply them with your patch tool.\n\n<changes target_file=\"",
                            tf.as_str(),
                            "\">\n",
                            es.as_str(),
                            "\n</changes>",
                        ),
                    },
                    cont: EffectCont::Fixed(String::from_str("edits done")),
                },
                Err(e) => arg_fail_step(e, call_id),
            },
            Err(e) => arg_fail_step(e, call_id),
        },
    }
}

/// The argument list handed to the search program: the pattern, the
/// optional literal and include flags, then the search path.
pub open spec fn grep_args_spec(
    args: Seq<(Seq<char>, ArgValueModel)>,
    pat: Seq<char>,
) -> Seq<Seq<char>> {
    seq![pat] + (if bool_arg_or_false(args, "literal_text"@) {
        seq!["--fixed-strings"@]
    } else {
        Seq::<Seq<char>>::empty()
    }) + (match str_arg(args, "include"@) {
        Some(inc) => seq!["--glob"@, inc],
        None => Seq::<Seq<char>>::empty(),
    }) + seq![str_arg_or(args, "path"@, "./"@)]
}

/// The prompt handed to the loose-edit sub-agent.
pub open spec fn edit_prompt_spec(target_file: Seq<char>, edit_string: Seq<char>) -> Seq<char> {
    "Compare the following changes to the current file and apply them with your patch tool.\n\n<changes target_file=\""@
        + target_file + "\">\n"@ + edit_string + "\n</changes>"@
}

/// The unified-diff text between two texts, as the diff library renders
/// it; a function of the two texts alone.
pub uninterp spec fn patch_of(original: Seq<char>, modified: Seq<char>) -> Seq<char>;

/// Relies on `diffy::create_patch` and the `Display` of its `Patch`: the
/// rendered unified diff depends on the two texts alone.
#[verifier::external_body]
fn create_patch_text(original: &str, modified: &str) -> (r: String)
    ensures
        r@ == patch_of(original@, modified@),
{
    diffy::create_patch(original, modified).to_string()
}

/// The result content of the shell capability: its output as a quoted
/// payload field.
pub open spec fn wrap_json_spec(out: Seq<char>) -> Seq<char> {
    "{\"result\":\""@ + textutil::json_escape_spec(out) + "\"}"@
}

/// The result content of the reading capability: the line count, then the
/// text from the requested line on.
pub open spec fn read_render_spec(file: Seq<char>, offset: u64) -> Seq<char> {
    "total lines: "@ + textutil::dec_spec(textutil::count_lines_spec(file))
        + "\n<content>\n"@ + textutil::skip_lines_spec(file, offset as nat)
        + "\n</content>"@
}

/// The edited file content after one replacement.
pub open spec fn edited_spec(
    file: Seq<char>,
    old_string: Seq<char>,
    new_string: Seq<char>,
    replace_all: bool,
) -> Seq<char> {
    if replace_all {
        textutil::replace_all_spec(file, old_string, new_string)
    } else {
        textutil::replace_first_spec(file, old_string, new_string)
    }
}

/// The edited file content after a list of replacements, applied in
/// order; nothing when some old text cannot be found.
pub open spec fn apply_edits_spec(file: Seq<char>, edits: Seq<crate::chat::EditOpModel>) -> Option<
    Seq<char>,
>
    decreases edits.len(),
{
    if edits.len() == 0 {
        Some(file)
    } else if !textutil::contains_seq(file, edits[0].old_string) {
        None
    } else {
        apply_edits_spec(
            edited_spec(file, edits[0].old_string, edits[0].new_string, edits[0].replace_all),
            edits.skip(1),
        )
    }
}

/// The error text when an old text is not present in the edited file.
pub open spec fn not_found_text_spec() -> Seq<char> {
    "the `old_string` argument cannot be found in the original file!"@
}

/// Applies one replacement to file content.
fn apply_one_edit(file: &str, old_string: &str, new_string: &str, replace_all: bool) -> (r:
    String)
    ensures
        r@ == edited_spec(file@, old_string@, new_string@, replace_all),
{
    if replace_all {
        textutil::replace_all(file, old_string, new_string)
    } else {
        textutil::replace_first(file, old_string, new_string)
    }
}

/// The permission step that proposes writing `new_content` to `path`,
/// asking over the rendered patch.
fn edit_permission_step(path: String, old_content: &str, new_content: String) -> (r: ToolStep)
    ensures
        (r matches ToolStep::NeedPermission { message, effect, cont } && message@
            == edit_ask_spec(path@, patch_of(old_content@, new_content@)) && (
        effect matches ToolEffect::WriteFile { path: p, content } && p@ == path@ && content@
            == new_content@) && (cont matches EffectCont::Fixed(t) && t@ == "file was edited"@)),
{
    let patch = create_patch_text(old_content, new_content.as_str());
    let message = crate::strutil::cat5(
        "The agent wants to edit `",
        path.as_str(),
        "`:\n\n```diff\n",
        patch.as_str(),
        "\n```",
    );
    ToolStep::NeedPermission {
        message,
        effect: ToolEffect::WriteFile { path, content: new_content },
        cont: EffectCont::Fixed(String::from_str("file was edited")),
    }
}

/// Everything `continue_call` promises of the tool's next step for one
/// effect outcome, as one predicate. `provide_effect` lifts this to the
/// run loop.
pub open spec fn continue_post(
    cont: EffectCont,
    outcome: EffectOutcome,
    cid: Option<Seq<char>>,
    r: ToolStep,
) -> bool {
    &&& (r matches ToolStep::Finished(m) ==> m@.is_result_for(cid))
    &&& (!outcome.success ==> (r matches ToolStep::Finished(m) && m@.error && m@.content
            == outcome.output@))
    &&& (outcome.success ==> (match cont {
            EffectCont::Text => r matches ToolStep::Finished(m) && !m@.error && m@.content
                == outcome.output@,
            EffectCont::WrapJson => r matches ToolStep::Finished(m) && !m@.error && m@.content
                == wrap_json_spec(outcome.output@),
            EffectCont::Fixed(t) => r matches ToolStep::Finished(m) && !m@.error && m@.content
                == t@,
            EffectCont::ReadLines { offset } => r matches ToolStep::Finished(m) && !m@.error
                && m@.content == read_render_spec(outcome.output@, offset),
            EffectCont::ProjectGate { path, offset } => if textutil::has_line_spec(
                outcome.output@,
                path@,
            ) {
                r matches ToolStep::NeedEffect { effect, cont: c2 } && (
                effect matches ToolEffect::ReadFile { path: p2 } && p2@ == path@) && (
                c2 matches EffectCont::ReadLines { offset: o2 } && o2 == offset)
            } else {
                r matches ToolStep::Finished(m) && m@.error && m@.content
                    == "path does not exists in current project"@
            },
            EffectCont::EditApply { path, old_string, new_string, replace_all } => if
                textutil::contains_seq(outcome.output@, old_string@) {
                r matches ToolStep::NeedPermission { message, effect, cont: c2 } && message@
                    == edit_ask_spec(
                    path@,
                    patch_of(
                        outcome.output@,
                        edited_spec(outcome.output@, old_string@, new_string@, replace_all),
                    ),
                ) && (effect matches ToolEffect::WriteFile { path: p2, content } && p2@ == path@
                    && content@ == edited_spec(
                    outcome.output@,
                    old_string@,
                    new_string@,
                    replace_all,
                )) && (c2 matches EffectCont::Fixed(t) && t@ == "file was edited"@)
            } else {
                r matches ToolStep::Finished(m) && m@.error && m@.content
                    == not_found_text_spec()
            },
            EffectCont::MultiEditApply { path, edits } => (match apply_edits_spec(
                outcome.output@,
                edits@.map_values(|e: EditOp| e@),
            ) {
                Some(newc) => r matches ToolStep::NeedPermission { message, effect, cont: c2 }
                    && message@ == edit_ask_spec(path@, patch_of(outcome.output@, newc)) && (
                effect matches ToolEffect::WriteFile { path: p2, content } && p2@ == path@
                    && content@ == newc) && (c2 matches EffectCont::Fixed(t) && t@
                    == "file was edited"@),
                None => r matches ToolStep::Finished(m) && m@.error && m@.content
                    == not_found_text_spec(),
            }),
        }))
}

/// Turns a finished effect's outcome into the call's result, or into the
/// tool's next step. A failed outcome always becomes a failed result;
/// everything the step promises is gathered in [`continue_post`].
pub fn continue_call(cont: EffectCont, outcome: EffectOutcome, call_id: &Option<String>) -> (r:
    ToolStep)
    ensures
        continue_post(cont, outcome, id_model(call_id), r),
{
    if !outcome.success {
        return ToolStep::Finished(Message::tool_error(
            outcome.output,
            crate::chat::clone_opt_string(call_id),
        ));
    }
    match cont {
        EffectCont::Text => done_text(outcome.output, call_id),
        EffectCont::WrapJson => {
            let esc = textutil::json_escape(outcome.output.as_str());
            done_text(
                crate::strutil::cat3("{\"result\":\"", esc.as_str(), "\"}"),
                call_id,
            )
        },
        EffectCont::Fixed(t) => done_text(t, call_id),
        EffectCont::ReadLines { offset } => {
            let total = textutil::count_lines(outcome.output.as_str());
            let total_text = textutil::fmt_u64(total as u64);
            proof {
                assert(total as u64 as nat == textutil::count_lines_spec(outcome.output@));
            }
            let rest = textutil::skip_lines(outcome.output.as_str(), offset);
            let content = crate::strutil::cat5(
                "total lines: ",
                total_text.as_str(),
                "\n<content>\n",
                rest.as_str(),
                "\n</content>",
            );
            done_text(content, call_id)
        },
        EffectCont::ProjectGate { path, offset } => {
            if textutil::has_line(outcome.output.as_str(), path.as_str()) {
                ToolStep::NeedEffect {
                    effect: ToolEffect::ReadFile { path },
                    cont: EffectCont::ReadLines { offset },
                }
            } else {
                ToolStep::Finished(Message::tool_error(
                    String::from_str("path does not exists in current project"),
                    crate::chat::clone_opt_string(call_id),
                ))
            }
        },
        EffectCont::EditApply { path, old_string, new_string, replace_all } => {
            if textutil::contains_sub(outcome.output.as_str(), old_string.as_str()) {
                let new_content = apply_one_edit(
                    outcome.output.as_str(),
                    old_string.as_str(),
                    new_string.as_str(),
                    replace_all,
                );
                edit_permission_step(path, outcome.output.as_str(), new_content)
            } else {
                ToolStep::Finished(Message::tool_error(
                    String::from_str(
                        "the `old_string` argument cannot be found in the original file!",
                    ),
                    crate::chat::clone_opt_string(call_id),
                ))
            }
        },
        EffectCont::MultiEditApply { path, edits } => {
            let ghost edit_models = edits@.map_values(|e: EditOp| e@);
            let mut content = outcome.output.clone();
            let n = edits.len();
            let mut i: usize = 0;
            proof {
                assert(edit_models.skip(0) =~= edit_models);
            }
            while i < n
                invariant
                    outcome.success,
                    cont matches EffectCont::MultiEditApply { path: cp, edits: ce } && cp == path
                        && ce@.map_values(|e: EditOp| e@) == edit_models,
                    n == edits@.len(),
                    edit_models == edits@.map_values(|e: EditOp| e@),
                    i <= n,
                    apply_edits_spec(outcome.output@, edit_models) == apply_edits_spec(
                        content@,
                        edit_models.skip(i as int),
                    ),
                decreases n - i,
            {
                let ghost rest = edit_models.skip(i as int);
                proof {
                    assert(rest[0] == edit_models[i as int]);
                    assert(rest.skip(1) =~= edit_models.skip(i + 1int));
                }
                let op = &edits[i];
                if !textutil::contains_sub(content.as_str(), op.old_string.as_str()) {
                    proof {
                        assert(rest[0] == op@);
                        assert(apply_edits_spec(content@, rest) is None);
                        assert(apply_edits_spec(outcome.output@, edit_models) is None);
                    }
                    return ToolStep::Finished(Message::tool_error(
                        String::from_str(
                            "the `old_string` argument cannot be found in the original file!",
                        ),
                        crate::chat::clone_opt_string(call_id),
                    ));
                }
                proof {
                    assert(rest[0] == op@);
                }
                let next = apply_one_edit(
                    content.as_str(),
                    op.old_string.as_str(),
                    op.new_string.as_str(),
                    op.replace_all,
                );
                proof {
                    assert(apply_edits_spec(content@, rest) == apply_edits_spec(
                        next@,
                        rest.skip(1),
                    ));
                }
                content = next;
                i += 1;
            }
            proof {
                assert(edit_models.skip(n as int) =~= Seq::<crate::chat::EditOpModel>::empty());
            }
            edit_permission_step(path, outcome.output.as_str(), content)
        },
    }
}


/// Marker for the capability dispatched as `ToolKind::Bash`.
#[derive(Clone, Copy, Debug, Default)]
pub struct Bash;

impl Bash {
    /// The name under which the capability is offered.
    pub fn name(&self) -> (r: &'static str)
        ensures
            r@ == ToolKind::Bash.name_spec(),
    {
        ToolKind::Bash.name()
    }

    /// A one-line description of the capability.
    pub fn description(&self) -> &'static str {
        ToolKind::Bash.description()
    }

    /// The declared argument schema.
    pub fn args(&self) -> Vec<crate::chat::Argument> {
        ToolKind::Bash.args()
    }

    /// The registry tag the marker stands for.
    pub fn kind(&self) -> (r: ToolKind)
        ensures
            r == ToolKind::Bash,
    {
        ToolKind::Bash
    }
}

/// Marker for the capability dispatched as `ToolKind::Edit`.
#[derive(Clone, Copy, Debug, Default)]
pub struct Edit;

impl Edit {
    /// The name under which the capability is offered.
    pub fn name(&self) -> (r: &'static str)
        ensures
            r@ == ToolKind::Edit.name_spec(),
    {
        ToolKind::Edit.name()
    }

    /// A one-line description of the capability.
    pub fn description(&self) -> &'static str {
        ToolKind::Edit.description()
    }

    /// The declared argument schema.
    pub fn args(&self) -> Vec<crate::chat::Argument> {
        ToolKind::Edit.args()
    }

    /// The registry tag the marker stands for.
    pub fn kind(&self) -> (r: ToolKind)
        ensures
            r == ToolKind::Edit,
    {
        ToolKind::Edit
    }
}

/// Marker for the capability dispatched as `ToolKind::MultiEdit`.
#[derive(Clone, Copy, Debug, Default)]
pub struct MultiEdit;

impl MultiEdit {
    /// The name under which the capability is offered.
    pub fn name(&self) -> (r: &'static str)
        ensures
            r@ == ToolKind::MultiEdit.name_spec(),
    {
        ToolKind::MultiEdit.name()
    }

    /// A one-line description of the capability.
    pub fn description(&self) -> &'static str {
        ToolKind::MultiEdit.description()
    }

    /// The declared argument schema.
    pub fn args(&self) -> Vec<crate::chat::Argument> {
        ToolKind::MultiEdit.args()
    }

    /// The registry tag the marker stands for.
    pub fn kind(&self) -> (r: ToolKind)
        ensures
            r == ToolKind::MultiEdit,
    {
        ToolKind::MultiEdit
    }
}

/// Marker for the capability dispatched as `ToolKind::Write`.
#[derive(Clone, Copy, Debug, Default)]
pub struct Write;

impl Write {
    /// The name under which the capability is offered.
    pub fn name(&self) -> (r: &'static str)
        ensures
            r@ == ToolKind::Write.name_spec(),
    {
        ToolKind::Write.name()
    }

    /// A one-line description of the capability.
    pub fn description(&self) -> &'static str {
        ToolKind::Write.description()
    }

    /// The declared argument schema.
    pub fn args(&self) -> Vec<crate::chat::Argument> {
        ToolKind::Write.args()
    }

    /// The registry tag the marker stands for.
    pub fn kind(&self) -> (r: ToolKind)
        ensures
            r == ToolKind::Write,
    {
        ToolKind::Write
    }
}

/// Marker for the capability dispatched as `ToolKind::Read`.
#[derive(Clone, Copy, Debug, Default)]
pub struct Read;

impl Read {
    /// The name under which the capability is offered.
    pub fn name(&self) -> (r: &'static str)
        ensures
            r@ == ToolKind::Read.name_spec(),
    {
        ToolKind::Read.name()
    }

    /// A one-line description of the capability.
    pub fn description(&self) -> &'static str {
        ToolKind::Read.description()
    }

    /// The declared argument schema.
    pub fn args(&self) -> Vec<crate::chat::Argument> {
        ToolKind::Read.args()
    }

    /// The registry tag the marker stands for.
    pub fn kind(&self) -> (r: ToolKind)
        ensures
            r == ToolKind::Read,
    {
        ToolKind::Read
    }
}

/// Marker for the capability dispatched as `ToolKind::Ls`.
#[derive(Clone, Copy, Debug, Default)]
pub struct Ls;

impl Ls {
    /// The name under which the capability is offered.
    pub fn name(&self) -> (r: &'static str)
        ensures
            r@ == ToolKind::Ls.name_spec(),
    {
        ToolKind::Ls.name()
    }

    /// A one-line description of the capability.
    pub fn description(&self) -> &'static str {
        ToolKind::Ls.description()
    }

    /// The declared argument schema.
    pub fn args(&self) -> Vec<crate::chat::Argument> {
        ToolKind::Ls.args()
    }

    /// The registry tag the marker stands for.
    pub fn kind(&self) -> (r: ToolKind)
        ensures
            r == ToolKind::Ls,
    {
        ToolKind::Ls
    }
}

/// Marker for the capability dispatched as `ToolKind::Glob`.
#[derive(Clone, Copy, Debug, Default)]
pub struct Glob;

impl Glob {
    /// The name under which the capability is offered.
    pub fn name(&self) -> (r: &'static str)
        ensures
            r@ == ToolKind::Glob.name_spec(),
    {
        ToolKind::Glob.name()
    }

    /// A one-line description of the capability.
    pub fn description(&self) -> &'static str {
        ToolKind::Glob.description()
    }

    /// The declared argument schema.
    pub fn args(&self) -> Vec<crate::chat::Argument> {
        ToolKind::Glob.args()
    }

    /// The registry tag the marker stands for.
    pub fn kind(&self) -> (r: ToolKind)
        ensures
            r == ToolKind::Glob,
    {
        ToolKind::Glob
    }
}

/// Marker for the capability dispatched as `ToolKind::Grep`.
#[derive(Clone, Copy, Debug, Default)]
pub struct Grep;

impl Grep {
    /// The name under which the capability is offered.
    pub fn name(&self) -> (r: &'static str)
        ensures
            r@ == ToolKind::Grep.name_spec(),
    {
        ToolKind::Grep.name()
    }

    /// A one-line description of the capability.
    pub fn description(&self) -> &'static str {
        ToolKind::Grep.description()
    }

    /// The declared argument schema.
    pub fn args(&self) -> Vec<crate::chat::Argument> {
        ToolKind::Grep.args()
    }

    /// The registry tag the marker stands for.
    pub fn kind(&self) -> (r: ToolKind)
        ensures
            r == ToolKind::Grep,
    {
        ToolKind::Grep
    }
}

/// Marker for the capability dispatched as `ToolKind::Fetch`.
#[derive(Clone, Copy, Debug, Default)]
pub struct Fetch;

impl Fetch {
    /// The name under which the capability is offered.
    pub fn name(&self) -> (r: &'static str)
        ensures
            r@ == ToolKind::Fetch.name_spec(),
    {
        ToolKind::Fetch.name()
    }

    /// A one-line description of the capability.
    pub fn description(&self) -> &'static str {
        ToolKind::Fetch.description()
    }

    /// The declared argument schema.
    pub fn args(&self) -> Vec<crate::chat::Argument> {
        ToolKind::Fetch.args()
    }

    /// The registry tag the marker stands for.
    pub fn kind(&self) -> (r: ToolKind)
        ensures
            r == ToolKind::Fetch,
    {
        ToolKind::Fetch
    }
}

/// Marker for the capability dispatched as `ToolKind::TodoRead`.
#[derive(Clone, Copy, Debug, Default)]
pub struct TodoRead;

impl TodoRead {
    /// The name under which the capability is offered.
    pub fn name(&self) -> (r: &'static str)
        ensures
            r@ == ToolKind::TodoRead.name_spec(),
    {
        ToolKind::TodoRead.name()
    }

    /// A one-line description of the capability.
    pub fn description(&self) -> &'static str {
        ToolKind::TodoRead.description()
    }

    /// The declared argument schema.
    pub fn args(&self) -> Vec<crate::chat::Argument> {
        ToolKind::TodoRead.args()
    }

    /// The registry tag the marker stands for.
    pub fn kind(&self) -> (r: ToolKind)
        ensures
            r == ToolKind::TodoRead,
    {
        ToolKind::TodoRead
    }
}

/// Marker for the capability dispatched as `ToolKind::TodoWrite`.
#[derive(Clone, Copy, Debug, Default)]
pub struct TodoWrite;

impl TodoWrite {
    /// The name under which the capability is offered.
    pub fn name(&self) -> (r: &'static str)
        ensures
            r@ == ToolKind::TodoWrite.name_spec(),
    {
        ToolKind::TodoWrite.name()
    }

    /// A one-line description of the capability.
    pub fn description(&self) -> &'static str {
        ToolKind::TodoWrite.description()
    }

    /// The declared argument schema.
    pub fn args(&self) -> Vec<crate::chat::Argument> {
        ToolKind::TodoWrite.args()
    }

    /// The registry tag the marker stands for.
    pub fn kind(&self) -> (r: ToolKind)
        ensures
            r == ToolKind::TodoWrite,
    {
        ToolKind::TodoWrite
    }
}

/// Marker for the capability dispatched as `ToolKind::Task`.
#[derive(Clone, Copy, Debug, Default)]
pub struct Task;

impl Task {
    /// The name under which the capability is offered.
    pub fn name(&self) -> (r: &'static str)
        ensures
            r@ == ToolKind::Task.name_spec(),
    {
        ToolKind::Task.name()
    }

    /// A one-line description of the capability.
    pub fn description(&self) -> &'static str {
        ToolKind::Task.description()
    }

    /// The declared argument schema.
    pub fn args(&self) -> Vec<crate::chat::Argument> {
        ToolKind::Task.args()
    }

    /// The registry tag the marker stands for.
    pub fn kind(&self) -> (r: ToolKind)
        ensures
            r == ToolKind::Task,
    {
        ToolKind::Task
    }
}

/// Marker for the capability dispatched as `ToolKind::Tree`.
#[derive(Clone, Copy, Debug, Default)]
pub struct Tree;

impl Tree {
    /// The name under which the capability is offered.
    pub fn name(&self) -> (r: &'static str)
        ensures
            r@ == ToolKind::Tree.name_spec(),
    {
        ToolKind::Tree.name()
    }

    /// A one-line description of the capability.
    pub fn description(&self) -> &'static str {
        ToolKind::Tree.description()
    }

    /// The declared argument schema.
    pub fn args(&self) -> Vec<crate::chat::Argument> {
        ToolKind::Tree.args()
    }

    /// The registry tag the marker stands for.
    pub fn kind(&self) -> (r: ToolKind)
        ensures
            r == ToolKind::Tree,
    {
        ToolKind::Tree
    }
}

/// Marker for the capability dispatched as `ToolKind::Cat`.
#[derive(Clone, Copy, Debug, Default)]
pub struct Cat;

impl Cat {
    /// The name under which the capability is offered.
    pub fn name(&self) -> (r: &'static str)
        ensures
            r@ == ToolKind::Cat.name_spec(),
    {
        ToolKind::Cat.name()
    }

    /// A one-line description of the capability.
    pub fn description(&self) -> &'static str {
        ToolKind::Cat.description()
    }

    /// The declared argument schema.
    pub fn args(&self) -> Vec<crate::chat::Argument> {
        ToolKind::Cat.args()
    }

    /// The registry tag the marker stands for.
    pub fn kind(&self) -> (r: ToolKind)
        ensures
            r == ToolKind::Cat,
    {
        ToolKind::Cat
    }
}

/// Marker for the capability dispatched as `ToolKind::Compress`.
#[derive(Clone, Copy, Debug, Default)]
pub struct Compress;

impl Compress {
    /// The name under which the capability is offered.
    pub fn name(&self) -> (r: &'static str)
        ensures
            r@ == ToolKind::Compress.name_spec(),
    {
        ToolKind::Compress.name()
    }

    /// A one-line description of the capability.
    pub fn description(&self) -> &'static str {
        ToolKind::Compress.description()
    }

    /// The declared argument schema.
    pub fn args(&self) -> Vec<crate::chat::Argument> {
        ToolKind::Compress.args()
    }

    /// The registry tag the marker stands for.
    pub fn kind(&self) -> (r: ToolKind)
        ensures
            r == ToolKind::Compress,
    {
        ToolKind::Compress
    }
}

/// Marker for the capability dispatched as `ToolKind::WriteMemo`.
#[derive(Clone, Copy, Debug, Default)]
pub struct WriteMemo;

impl WriteMemo {
    /// The name under which the capability is offered.
    pub fn name(&self) -> (r: &'static str)
        ensures
            r@ == ToolKind::WriteMemo.name_spec(),
    {
        ToolKind::WriteMemo.name()
    }

    /// A one-line description of the capability.
    pub fn description(&self) -> &'static str {
        ToolKind::WriteMemo.description()
    }

    /// The declared argument schema.
    pub fn args(&self) -> Vec<crate::chat::Argument> {
        ToolKind::WriteMemo.args()
    }

    /// The registry tag the marker stands for.
    pub fn kind(&self) -> (r: ToolKind)
        ensures
            r == ToolKind::WriteMemo,
    {
        ToolKind::WriteMemo
    }
}

/// Marker for the capability dispatched as `ToolKind::CrawlWebsite`.
#[derive(Clone, Copy, Debug, Default)]
pub struct CrawlWebsite;

impl CrawlWebsite {
    /// The name under which the capability is offered.
    pub fn name(&self) -> (r: &'static str)
        ensures
            r@ == ToolKind::CrawlWebsite.name_spec(),
    {
        ToolKind::CrawlWebsite.name()
    }

    /// A one-line description of the capability.
    pub fn description(&self) -> &'static str {
        ToolKind::CrawlWebsite.description()
    }

    /// The declared argument schema.
    pub fn args(&self) -> Vec<crate::chat::Argument> {
        ToolKind::CrawlWebsite.args()
    }

    /// The registry tag the marker stands for.
    pub fn kind(&self) -> (r: ToolKind)
        ensures
            r == ToolKind::CrawlWebsite,
    {
        ToolKind::CrawlWebsite
    }
}

/// Marker for the capability dispatched as `ToolKind::Mkdir`.
#[derive(Clone, Copy, Debug, Default)]
pub struct Mkdir;

impl Mkdir {
    /// The name under which the capability is offered.
    pub fn name(&self) -> (r: &'static str)
        ensures
            r@ == ToolKind::Mkdir.name_spec(),
    {
        ToolKind::Mkdir.name()
    }

    /// A one-line description of the capability.
    pub fn description(&self) -> &'static str {
        ToolKind::Mkdir.description()
    }

    /// The declared argument schema.
    pub fn args(&self) -> Vec<crate::chat::Argument> {
        ToolKind::Mkdir.args()
    }

    /// The registry tag the marker stands for.
    pub fn kind(&self) -> (r: ToolKind)
        ensures
            r == ToolKind::Mkdir,
    {
        ToolKind::Mkdir
    }
}

/// Marker for the capability dispatched as `ToolKind::Sed`.
#[derive(Clone, Copy, Debug, Default)]
pub struct Sed;

impl Sed {
    /// The name under which the capability is offered.
    pub fn name(&self) -> (r: &'static str)
        ensures
            r@ == ToolKind::Sed.name_spec(),
    {
        ToolKind::Sed.name()
    }

    /// A one-line description of the capability.
    pub fn description(&self) -> &'static str {
        ToolKind::Sed.description()
    }

    /// The declared argument schema.
    pub fn args(&self) -> Vec<crate::chat::Argument> {
        ToolKind::Sed.args()
    }

    /// The registry tag the marker stands for.
    pub fn kind(&self) -> (r: ToolKind)
        ensures
            r == ToolKind::Sed,
    {
        ToolKind::Sed
    }
}

/// Marker for the capability dispatched as `ToolKind::CreateFile`.
#[derive(Clone, Copy, Debug, Default)]
pub struct CreateFile;

impl CreateFile {
    /// The name under which the capability is offered.
    pub fn name(&self) -> (r: &'static str)
        ensures
            r@ == ToolKind::CreateFile.name_spec(),
    {
        ToolKind::CreateFile.name()
    }

    /// A one-line description of the capability.
    pub fn description(&self) -> &'static str {
        ToolKind::CreateFile.description()
    }

    /// The declared argument schema.
    pub fn args(&self) -> Vec<crate::chat::Argument> {
        ToolKind::CreateFile.args()
    }

    /// The registry tag the marker stands for.
    pub fn kind(&self) -> (r: ToolKind)
        ensures
            r == ToolKind::CreateFile,
    {
        ToolKind::CreateFile
    }
}

/// Marker for the capability dispatched as `ToolKind::MoveFile`.
#[derive(Clone, Copy, Debug, Default)]
pub struct MoveFile;

impl MoveFile {
    /// The name under which the capability is offered.
    pub fn name(&self) -> (r: &'static str)
        ensures
            r@ == ToolKind::MoveFile.name_spec(),
    {
        ToolKind::MoveFile.name()
    }

    /// A one-line description of the capability.
    pub fn description(&self) -> &'static str {
        ToolKind::MoveFile.description()
    }

    /// The declared argument schema.
    pub fn args(&self) -> Vec<crate::chat::Argument> {
        ToolKind::MoveFile.args()
    }

    /// The registry tag the marker stands for.
    pub fn kind(&self) -> (r: ToolKind)
        ensures
            r == ToolKind::MoveFile,
    {
        ToolKind::MoveFile
    }
}

/// Marker for the capability dispatched as `ToolKind::DeleteFile`.
#[derive(Clone, Copy, Debug, Default)]
pub struct DeleteFile;

impl DeleteFile {
    /// The name under which the capability is offered.
    pub fn name(&self) -> (r: &'static str)
        ensures
            r@ == ToolKind::DeleteFile.name_spec(),
    {
        ToolKind::DeleteFile.name()
    }

    /// A one-line description of the capability.
    pub fn description(&self) -> &'static str {
        ToolKind::DeleteFile.description()
    }

    /// The declared argument schema.
    pub fn args(&self) -> Vec<crate::chat::Argument> {
        ToolKind::DeleteFile.args()
    }

    /// The registry tag the marker stands for.
    pub fn kind(&self) -> (r: ToolKind)
        ensures
            r == ToolKind::DeleteFile,
    {
        ToolKind::DeleteFile
    }
}

/// Marker for the capability dispatched as `ToolKind::GitLog`.
#[derive(Clone, Copy, Debug, Default)]
pub struct GitLog;

impl GitLog {
    /// The name under which the capability is offered.
    pub fn name(&self) -> (r: &'static str)
        ensures
            r@ == ToolKind::GitLog.name_spec(),
    {
        ToolKind::GitLog.name()
    }

    /// A one-line description of the capability.
    pub fn description(&self) -> &'static str {
        ToolKind::GitLog.description()
    }

    /// The declared argument schema.
    pub fn args(&self) -> Vec<crate::chat::Argument> {
        ToolKind::GitLog.args()
    }

    /// The registry tag the marker stands for.
    pub fn kind(&self) -> (r: ToolKind)
        ensures
            r == ToolKind::GitLog,
    {
        ToolKind::GitLog
    }
}

/// Marker for the capability dispatched as `ToolKind::GitShowCommit`.
#[derive(Clone, Copy, Debug, Default)]
pub struct GitShowCommit;

impl GitShowCommit {
    /// The name under which the capability is offered.
    pub fn name(&self) -> (r: &'static str)
        ensures
            r@ == ToolKind::GitShowCommit.name_spec(),
    {
        ToolKind::GitShowCommit.name()
    }

    /// A one-line description of the capability.
    pub fn description(&self) -> &'static str {
        ToolKind::GitShowCommit.description()
    }

    /// The declared argument schema.
    pub fn args(&self) -> Vec<crate::chat::Argument> {
        ToolKind::GitShowCommit.args()
    }

    /// The registry tag the marker stands for.
    pub fn kind(&self) -> (r: ToolKind)
        ensures
            r == ToolKind::GitShowCommit,
    {
        ToolKind::GitShowCommit
    }
}

/// Marker for the capability dispatched as `ToolKind::PatchFile`.
#[derive(Clone, Copy, Debug, Default)]
pub struct PatchFile;

impl PatchFile {
    /// The name under which the capability is offered.
    pub fn name(&self) -> (r: &'static str)
        ensures
            r@ == ToolKind::PatchFile.name_spec(),
    {
        ToolKind::PatchFile.name()
    }

    /// A one-line description of the capability.
    pub fn description(&self) -> &'static str {
        ToolKind::PatchFile.description()
    }

    /// The declared argument schema.
    pub fn args(&self) -> Vec<crate::chat::Argument> {
        ToolKind::PatchFile.args()
    }

    /// The registry tag the marker stands for.
    pub fn kind(&self) -> (r: ToolKind)
        ensures
            r == ToolKind::PatchFile,
    {
        ToolKind::PatchFile
    }
}

/// Marker for the capability dispatched as `ToolKind::RunTerminal`.
#[derive(Clone, Copy, Debug, Default)]
pub struct RunTerminal;

impl RunTerminal {
    /// The name under which the capability is offered.
    pub fn name(&self) -> (r: &'static str)
        ensures
            r@ == ToolKind::RunTerminal.name_spec(),
    {
        ToolKind::RunTerminal.name()
    }

    /// A one-line description of the capability.
    pub fn description(&self) -> &'static str {
        ToolKind::RunTerminal.description()
    }

    /// The declared argument schema.
    pub fn args(&self) -> Vec<crate::chat::Argument> {
        ToolKind::RunTerminal.args()
    }

    /// The registry tag the marker stands for.
    pub fn kind(&self) -> (r: ToolKind)
        ensures
            r == ToolKind::RunTerminal,
    {
        ToolKind::RunTerminal
    }
}

/// Marker for the capability dispatched as `ToolKind::EditFile`.
#[derive(Clone, Copy, Debug, Default)]
pub struct EditFile;

impl EditFile {
    /// The name under which the capability is offered.
    pub fn name(&self) -> (r: &'static str)
        ensures
            r@ == ToolKind::EditFile.name_spec(),
    {
        ToolKind::EditFile.name()
    }

    /// A one-line description of the capability.
    pub fn description(&self) -> &'static str {
        ToolKind::EditFile.description()
    }

    /// The declared argument schema.
    pub fn args(&self) -> Vec<crate::chat::Argument> {
        ToolKind::EditFile.args()
    }

    /// The registry tag the marker stands for.
    pub fn kind(&self) -> (r: ToolKind)
        ensures
            r == ToolKind::EditFile,
    {
        ToolKind::EditFile
    }
}

} // verus!

