//! Conversation data model: roles, messages, tool calls and their arguments.
//!
//! A conversation is an ordered, append-only sequence of [`Message`]s. A
//! message is a system directive, user text, assistant text, an assistant
//! tool-call batch, or a single tool result correlated to its call by an
//! identifier. Contracts speak of messages through their mathematical
//! models ([`MessageModel`], [`CallModel`], [`ArgValueModel`]).

use vstd::prelude::*;

verus! {

/// Who authored a message.
#[derive(Clone, Copy, Debug, PartialEq, Eq, Structural)]
pub enum Role {
    Assistant,
    System,
    User,
    Tool,
}

impl Role {
    /// The bracketed label shown for the role in a transcript.
    pub fn label(&self) -> (r: &'static str)
        ensures
            r@ == self.label_spec(),
    {
        match self {
            Role::Assistant => "[ASSISTANT]",
            Role::System => "[SYSTEM]",
            Role::User => "[USER]",
            Role::Tool => "[TOOL]",
        }
    }

    /// What `label` returns.
    pub open spec fn label_spec(&self) -> Seq<char> {
        match self {
            Role::Assistant => "[ASSISTANT]"@,
            Role::System => "[SYSTEM]"@,
            Role::User => "[USER]"@,
            Role::Tool => "[TOOL]"@,
        }
    }
}

/// The declared type of a tool argument in a tool's schema.
#[derive(Clone, Copy, Debug, PartialEq, Eq, Structural)]
pub enum ArgType {
    Str,
    Int,
    Float,
    Bool,
}

impl ArgType {
    /// The schema keyword for the type.
    pub fn as_text(&self) -> (r: &'static str)
        ensures
            r@ == self.as_text_spec(),
    {
        match self {
            ArgType::Str => "string",
            ArgType::Int => "int",
            ArgType::Float => "float",
            ArgType::Bool => "boolean",
        }
    }

    /// What `as_text` returns.
    pub open spec fn as_text_spec(&self) -> Seq<char> {
        match self {
            ArgType::Str => "string"@,
            ArgType::Int => "int"@,
            ArgType::Float => "float"@,
            ArgType::Bool => "boolean"@,
        }
    }
}

/// One declared argument of a tool's schema.
#[derive(Clone, Debug)]
pub struct Argument {
    pub name: String,
    pub description: String,
    pub ty: ArgType,
    pub required: bool,
    pub options: Option<Vec<String>>,
}

impl Argument {
    /// A required argument with no option list.
    pub fn new(name: &str, description: &str, ty: ArgType) -> (r: Argument)
        ensures
            r.name@ == name@,
            r.description@ == description@,
            r.ty == ty,
            r.required,
            r.options is None,
    {
        Argument {
            name: name.to_owned(),
            description: description.to_owned(),
            ty,
            required: true,
            options: None,
        }
    }
}

/// One pending string replacement, as a structured argument of the
/// multi-edit capability.
#[derive(Debug)]
pub struct EditOp {
    pub old_string: String,
    pub new_string: String,
    pub replace_all: bool,
}

/// Mathematical model of an [`EditOp`].
#[verifier::ext_equal]
pub ghost struct EditOpModel {
    pub old_string: Seq<char>,
    pub new_string: Seq<char>,
    pub replace_all: bool,
}

impl View for EditOp {
    type V = EditOpModel;

    open spec fn view(&self) -> EditOpModel {
        EditOpModel {
            old_string: self.old_string@,
            new_string: self.new_string@,
            replace_all: self.replace_all,
        }
    }
}

impl Clone for EditOp {
    /// The copy holds the same replacement.
    fn clone(&self) -> (r: Self)
        ensures
            r@ == self@,
    {
        EditOp {
            old_string: self.old_string.clone(),
            new_string: self.new_string.clone(),
            replace_all: self.replace_all,
        }
    }
}

/// A structured argument value carried by a tool call.
#[derive(Debug)]
pub enum ArgValue {
    Str(String),
    Int(i64),
    Bool(bool),
    Edits(Vec<EditOp>),
}

/// Mathematical model of an [`ArgValue`].
#[verifier::ext_equal]
pub ghost enum ArgValueModel {
    Str(Seq<char>),
    Int(i64),
    Bool(bool),
    Edits(Seq<EditOpModel>),
}

impl View for ArgValue {
    type V = ArgValueModel;

    open spec fn view(&self) -> ArgValueModel {
        match self {
            ArgValue::Str(s) => ArgValueModel::Str(s@),
            ArgValue::Int(n) => ArgValueModel::Int(*n),
            ArgValue::Bool(b) => ArgValueModel::Bool(*b),
            ArgValue::Edits(v) => ArgValueModel::Edits(v@.map_values(|e: EditOp| e@)),
        }
    }
}

impl Clone for ArgValue {
    /// The copy holds the same value.
    fn clone(&self) -> (r: Self)
        ensures
            r@ == self@,
    {
        match self {
            ArgValue::Str(s) => ArgValue::Str(s.clone()),
            ArgValue::Int(n) => ArgValue::Int(*n),
            ArgValue::Bool(b) => ArgValue::Bool(*b),
            ArgValue::Edits(v) => ArgValue::Edits(clone_edits(v)),
        }
    }
}

/// A copy of a vector of replacements, holding the same replacements.
pub fn clone_edits(v: &Vec<EditOp>) -> (r: Vec<EditOp>)
    ensures
        r@.map_values(|e: EditOp| e@) == v@.map_values(|e: EditOp| e@),
{
    let mut out: Vec<EditOp> = Vec::new();
    let n = v.len();
    let mut i: usize = 0;
    while i < n
        invariant
            n == v@.len(),
            i <= n,
            out@.len() == i,
            out@.map_values(|e: EditOp| e@) =~~= v@.map_values(|e: EditOp| e@).take(i as int),
        decreases n - i,
    {
        out.push(v[i].clone());
        proof {
            assert(out@.map_values(|e: EditOp| e@) =~~= v@.map_values(|e: EditOp| e@).take(
                i as int + 1,
            ));
        }
        i += 1;
    }
    proof {
        assert(v@.map_values(|e: EditOp| e@).take(n as int) =~= v@.map_values(|e: EditOp| e@));
    }
    out
}

/// The opaque argument bag handed to a tool handler: named values in the
/// order the model supplied them.
#[derive(Debug)]
pub struct ToolArgs(pub Vec<(String, ArgValue)>);

impl View for ToolArgs {
    type V = Seq<(Seq<char>, ArgValueModel)>;

    open spec fn view(&self) -> Seq<(Seq<char>, ArgValueModel)> {
        self.0@.map_values(|p: (String, ArgValue)| (p.0@, p.1@))
    }
}

impl Clone for ToolArgs {
    /// The copy holds the same named values.
    fn clone(&self) -> (r: Self)
        ensures
            r@ == self@,
    {
        let mut out: Vec<(String, ArgValue)> = Vec::new();
        let n = self.0.len();
        let mut i: usize = 0;
        while i < n
            invariant
                n == self.0@.len(),
                i <= n,
                out@.len() == i,
                out@.map_values(|p: (String, ArgValue)| (p.0@, p.1@)) =~~= self@.take(i as int),
            decreases n - i,
        {
            let ghost out_before = out@;
            let entry = &self.0[i];
            out.push((entry.0.clone(), entry.1.clone()));
            proof {
                let f = |p: (String, ArgValue)| (p.0@, p.1@);
                assert(out@ == out_before.push(out@[i as int]));
                assert(f(out@[i as int]) == (self.0@[i as int].0@, self.0@[i as int].1@));
                assert(self@[i as int] == (self.0@[i as int].0@, self.0@[i as int].1@));
                assert forall|j: int| 0 <= j < i + 1 implies out@.map_values(f)[j] == self@.take(
                    i as int + 1,
                )[j] by {
                    if j < i {
                        assert(out_before.map_values(f)[j] == self@.take(i as int)[j]);
                        assert(out@.map_values(f)[j] == f(out@[j]));
                        assert(out@[j] == out_before[j]);
                    }
                }
                assert(out@.map_values(|p: (String, ArgValue)| (p.0@, p.1@)) =~~= self@.take(
                    i as int + 1,
                ));
            }
            i += 1;
        }
        proof {
            assert(self@.take(n as int) =~= self@);
        }
        ToolArgs(out)
    }
}

/// A named invocation the model asks the orchestrator to perform, with an
/// identifier correlating it to its eventual result.
#[derive(Debug)]
pub struct FunctionCall {
    pub id: Option<String>,
    pub name: String,
    pub args: ToolArgs,
}

/// Mathematical model of a [`FunctionCall`].
#[verifier::ext_equal]
pub ghost struct CallModel {
    pub id: Option<Seq<char>>,
    pub name: Seq<char>,
    pub args: Seq<(Seq<char>, ArgValueModel)>,
}

impl View for FunctionCall {
    type V = CallModel;

    open spec fn view(&self) -> CallModel {
        CallModel {
            id: match &self.id {
                Some(s) => Some(s@),
                None => None,
            },
            name: self.name@,
            args: self.args@,
        }
    }
}

impl Clone for FunctionCall {
    /// The copy holds the same call.
    fn clone(&self) -> (r: Self)
        ensures
            r@ == self@,
    {
        FunctionCall {
            id: clone_opt_string(&self.id),
            name: self.name.clone(),
            args: self.args.clone(),
        }
    }
}

/// A copy of an optional string, holding the same characters.
pub fn clone_opt_string(s: &Option<String>) -> (r: Option<String>)
    ensures
        (match (s, &r) {
            (Some(a), Some(b)) => a@ == b@,
            (None, None) => true,
            _ => false,
        }),
{
    match s {
        Some(x) => Some(x.clone()),
        None => None,
    }
}

/// A copy of a vector of calls, holding the same calls.
pub fn clone_calls(v: &Vec<FunctionCall>) -> (r: Vec<FunctionCall>)
    ensures
        r@.map_values(|c: FunctionCall| c@) == v@.map_values(|c: FunctionCall| c@),
{
    let mut out: Vec<FunctionCall> = Vec::new();
    let n = v.len();
    let mut i: usize = 0;
    while i < n
        invariant
            n == v@.len(),
            i <= n,
            out@.len() == i,
            out@.map_values(|c: FunctionCall| c@) =~~= v@.map_values(|c: FunctionCall| c@).take(
                i as int,
            ),
        decreases n - i,
    {
        out.push(v[i].clone());
        proof {
            assert(out@.map_values(|c: FunctionCall| c@) =~~= v@.map_values(
                |c: FunctionCall| c@,
            ).take(i as int + 1));
        }
        i += 1;
    }
    proof {
        assert(v@.map_values(|c: FunctionCall| c@).take(n as int) =~= v@.map_values(
            |c: FunctionCall| c@,
        ));
    }
    out
}

/// One entry of a conversation.
///
/// `tool_calls` is non-empty exactly for an assistant tool-call batch;
/// `tool_call_id` is set exactly for a tool result; `error` tags a tool
/// result as an error payload; `cache_hint` is the short-lived
/// prefer-cache mark of the turn policy, an optimization hint only.
#[derive(Debug)]
pub struct Message {
    pub role: Role,
    pub content: String,
    pub tool_calls: Vec<FunctionCall>,
    pub tool_call_id: Option<String>,
    pub error: bool,
    pub cache_hint: bool,
}

/// Mathematical model of a [`Message`].
#[verifier::ext_equal]
pub ghost struct MessageModel {
    pub role: Role,
    pub content: Seq<char>,
    pub tool_calls: Seq<CallModel>,
    pub tool_call_id: Option<Seq<char>>,
    pub error: bool,
    pub cache_hint: bool,
}

impl View for Message {
    type V = MessageModel;

    open spec fn view(&self) -> MessageModel {
        MessageModel {
            role: self.role,
            content: self.content@,
            tool_calls: self.tool_calls@.map_values(|c: FunctionCall| c@),
            tool_call_id: match &self.tool_call_id {
                Some(s) => Some(s@),
                None => None,
            },
            error: self.error,
            cache_hint: self.cache_hint,
        }
    }
}

impl Clone for Message {
    /// The copy holds the same message.
    fn clone(&self) -> (r: Self)
        ensures
            r@ == self@,
    {
        Message {
            role: self.role,
            content: self.content.clone(),
            tool_calls: clone_calls(&self.tool_calls),
            tool_call_id: clone_opt_string(&self.tool_call_id),
            error: self.error,
            cache_hint: self.cache_hint,
        }
    }
}

impl MessageModel {
    /// A plain text message: no calls, no result correlation.
    pub open spec fn is_text(self, role: Role, content: Seq<char>) -> bool {
        &&& self.role == role
        &&& self.content == content
        &&& self.tool_calls.len() == 0
        &&& self.tool_call_id is None
        &&& !self.error
    }

    /// A tool result correlated to call identifier `id`.
    pub open spec fn is_result_for(self, id: Option<Seq<char>>) -> bool {
        &&& self.role == Role::Tool
        &&& self.tool_calls.len() == 0
        &&& self.tool_call_id == id
    }
}

impl Message {
    /// User text.
    pub fn user(content: String) -> (r: Message)
        ensures
            r@.is_text(Role::User, content@),
            !r@.cache_hint,
    {
        Message {
            role: Role::User,
            content,
            tool_calls: Vec::new(),
            tool_call_id: None,
            error: false,
            cache_hint: false,
        }
    }

    /// A successful tool result for the given call identifier.
    pub fn tool(content: String, call_id: Option<String>) -> (r: Message)
        ensures
            r@.role == Role::Tool,
            r@.content == content@,
            r@.tool_calls.len() == 0,
            r@.tool_call_id == (match call_id {
                Some(s) => Some::<Seq<char>>(s@),
                None => None::<Seq<char>>,
            }),
            !r@.error,
            !r@.cache_hint,
    {
        Message {
            role: Role::Tool,
            content,
            tool_calls: Vec::new(),
            tool_call_id: call_id,
            error: false,
            cache_hint: false,
        }
    }

    /// A failed tool result for the given call identifier.
    pub fn tool_error(content: String, call_id: Option<String>) -> (r: Message)
        ensures
            r@.role == Role::Tool,
            r@.content == content@,
            r@.tool_calls.len() == 0,
            r@.tool_call_id == (match call_id {
                Some(s) => Some::<Seq<char>>(s@),
                None => None::<Seq<char>>,
            }),
            r@.error,
            !r@.cache_hint,
    {
        Message {
            role: Role::Tool,
            content,
            tool_calls: Vec::new(),
            tool_call_id: call_id,
            error: true,
            cache_hint: false,
        }
    }

    /// A system directive.
    pub fn system(content: String) -> (r: Message)
        ensures
            r@.is_text(Role::System, content@),
            !r@.cache_hint,
    {
        Message {
            role: Role::System,
            content,
            tool_calls: Vec::new(),
            tool_call_id: None,
            error: false,
            cache_hint: false,
        }
    }

    /// Assistant text.
    pub fn assistant(content: String) -> (r: Message)
        ensures
            r@.is_text(Role::Assistant, content@),
            !r@.cache_hint,
    {
        Message {
            role: Role::Assistant,
            content,
            tool_calls: Vec::new(),
            tool_call_id: None,
            error: false,
            cache_hint: false,
        }
    }

    /// An assistant tool-call batch: all calls of one turn as one message.
    pub fn tool_call_batch(calls: Vec<FunctionCall>) -> (r: Message)
        ensures
            r@.role == Role::Assistant,
            r@.content.len() == 0,
            r@.tool_calls == calls@.map_values(|c: FunctionCall| c@),
            r@.tool_call_id is None,
            !r@.error,
            !r@.cache_hint,
    {
        Message {
            role: Role::Assistant,
            content: String::new(),
            tool_calls: calls,
            tool_call_id: None,
            error: false,
            cache_hint: false,
        }
    }
}

} // verus!
