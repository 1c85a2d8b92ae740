//! The run loop: a state machine that drives one conversation.
//!
//! The embedding shell owns the clock, the channels and the backend call;
//! this engine owns every decision. The shell asks [`Agent::next_action`]
//! what to do, performs it, and feeds the result back through one of the
//! feed functions ([`Agent::absorb_backend`], [`Agent::run_next_tool`],
//! [`Agent::provide_permission`], [`Agent::provide_effect`],
//! [`Agent::resume_after_backoff`]). Each feed function says exactly what
//! it appends to the conversation and which events it publishes.

use vstd::prelude::*;

use crate::chat::{CallModel, FunctionCall, Message, MessageModel, Role};
use crate::error::AiError;
use crate::ledger::TaskLedger;
use crate::registry::ToolBox;
use crate::tools::{EffectCont, EffectOutcome, ToolEffect, ToolStep};

verus! {

/// The fixed timeout raced against each backend call, in seconds.
pub const TIMEOUT_SECS: u64 = 120;

/// The fixed backoff slept after a rate-limited turn, in seconds.
pub const BACKOFF_SECS: u64 = 10;

/// A permission question on its way to the foreground. The reply travels
/// outside this engine; a dropped or negative reply is a decline.
#[derive(Debug)]
pub struct PermissionRequest {
    pub message: String,
}

/// One user-visible occurrence, published to the foreground in order.
#[derive(Debug)]
pub enum AgentEvent {
    Message(Message),
    Permission(PermissionRequest),
    TokenCost(u64),
    Timeout,
    RateLimit,
}

/// Mathematical model of an [`AgentEvent`].
#[verifier::ext_equal]
pub ghost enum EventModel {
    Message(MessageModel),
    Permission(Seq<char>),
    TokenCost(u64),
    Timeout,
    RateLimit,
}

impl View for AgentEvent {
    type V = EventModel;

    open spec fn view(&self) -> EventModel {
        match self {
            AgentEvent::Message(m) => EventModel::Message(m@),
            AgentEvent::Permission(p) => EventModel::Permission(p.message@),
            AgentEvent::TokenCost(n) => EventModel::TokenCost(*n),
            AgentEvent::Timeout => EventModel::Timeout,
            AgentEvent::RateLimit => EventModel::RateLimit,
        }
    }
}

/// The models of a list of events.
pub open spec fn events_of(v: Seq<AgentEvent>) -> Seq<EventModel> {
    v.map_values(|e: AgentEvent| e@)
}

/// What one backend turn produced: text pieces, tool calls, and usage.
#[derive(Debug)]
pub struct TurnResponse {
    pub texts: Vec<String>,
    pub tool_calls: Vec<FunctionCall>,
    pub prompt_tokens: Option<u32>,
    pub completion_tokens: Option<u32>,
}

/// What the race of backend call, timeout and abort signal produced.
#[derive(Debug)]
pub enum TurnInput {
    Response(TurnResponse),
    Failure(String),
    Timeout,
    Abort,
}

/// What the shell must do next.
#[derive(Clone, Copy, Debug, PartialEq, Eq, Structural)]
pub enum StepAction {
    /// No run is active.
    Idle,
    /// Race one backend turn against the timeout and the abort signal,
    /// then call `absorb_backend`.
    CallBackend,
    /// Sleep the backoff interval, then call `resume_after_backoff`.
    Sleep,
    /// Call `run_next_tool` to dispatch the next pending call.
    RunTool,
    /// Await the permission reply, then call `provide_permission`.
    AskPermission,
    /// Perform `pending_effect`, then call `provide_effect`.
    Perform,
}

/// Where the run loop stands.
#[derive(Debug)]
pub enum Phase {
    /// No run is active.
    Idle,
    /// A backend turn is due.
    AwaitBackend,
    /// A rate-limited turn waits out the backoff interval.
    Backoff,
    /// The next pending call must be planned.
    ToolStart,
    /// A permission question is out; on approval `effect` is performed.
    AwaitPermission { message: String, effect: ToolEffect, cont: EffectCont },
    /// An effect is out with the shell.
    AwaitEffect { effect: ToolEffect, cont: EffectCont },
}

/// Cross-cutting state reachable from every tool invocation.
#[derive(Debug)]
pub struct AgentContext {
    pub current_cwd: String,
    pub todo_list: TaskLedger,
}

impl AgentContext {
    /// The open items of the task ledger, with their keys.
    pub fn get_open_todos(&self) -> (r: Vec<(String, crate::ledger::TodoItem)>)
        ensures
            r@.map_values(|e: (String, crate::ledger::TodoItem)| (e.0@, e.1@))
                == self.todo_list@.filter(
                |e: (Seq<char>, crate::ledger::TodoModel)| e.1.status
                    != crate::ledger::Status::Completed,
            ),
    {
        self.todo_list.get_open_todos()
    }

    /// True iff at least one tracked item is not completed.
    pub fn has_open_todos(&self) -> (r: bool)
        ensures
            r == self.todo_list.has_open_spec(),
    {
        self.todo_list.has_open_todos()
    }
}

/// One conversation under the orchestrator's control.
#[derive(Debug)]
pub struct Agent {
    pub chat: Vec<Message>,
    pub model: String,
    pub tool_box: ToolBox,
    pub running: bool,
    pub context: AgentContext,
    pub phase: Phase,
    pub pending: Vec<FunctionCall>,
    pub resolved: usize,
}

/// An assistant text message, as a model.
pub open spec fn assistant_model(t: Seq<char>) -> MessageModel {
    MessageModel {
        role: Role::Assistant,
        content: t,
        tool_calls: Seq::empty(),
        tool_call_id: None,
        error: false,
        cache_hint: false,
    }
}

/// The synthetic continuation nudge appended over open ledger items.
pub open spec fn nudge_text_spec() -> Seq<char> {
    "you have unfinished work on your todo list. please update the list according to your task progression."@
}

/// `m` is the tool-call batch of `calls`.
pub open spec fn is_batch_of(m: MessageModel, calls: Seq<CallModel>) -> bool {
    &&& m.role == Role::Assistant
    &&& m.tool_calls == calls
    &&& m.tool_call_id is None
}

/// The conversation tail holds the batch message of `calls` followed by
/// one result per already-resolved call, in call order.
pub open spec fn batch_state(conv: Seq<MessageModel>, calls: Seq<CallModel>, done: int) -> bool {
    &&& 0 <= done <= calls.len()
    &&& conv.len() >= 1 + done
    &&& is_batch_of(conv[conv.len() - 1 - done], calls)
    &&& forall|k: int|
        0 <= k < done ==> (#[trigger] conv[conv.len() - done + k]).is_result_for(calls[k].id)
}

/// `m` with its prefer-cache mark set to `b`.
pub open spec fn set_hint(m: MessageModel, b: bool) -> MessageModel {
    MessageModel { cache_hint: b, ..m }
}

/// Whether position `i` of a conversation of length `len` carries the
/// prefer-cache mark: the first two and the last two positions do.
pub open spec fn hint_flag(i: int, len: int) -> bool {
    i < 2 || len - i <= 2
}

/// The conversation with the cache-hint policy applied: stale marks
/// cleared, the first two and last two messages marked.
pub open spec fn hinted(s: Seq<MessageModel>) -> Seq<MessageModel> {
    Seq::new(s.len(), |i: int| set_hint(s[i], hint_flag(i, s.len() as int)))
}

/// The models of the messages of a conversation.
pub open spec fn conv_of(chat: Seq<Message>) -> Seq<MessageModel> {
    chat.map_values(|m: Message| m@)
}

/// The failed-result text for a call whose name no entry carries.
pub open spec fn unknown_tool_text_spec() -> Seq<char> {
    "no tool is registered under this name"@
}

/// The token cost of one turn: the prompt and completion counts added.
pub open spec fn cost_of(res: &TurnResponse) -> int {
    (match res.prompt_tokens {
        Some(n) => n as u64,
        None => 0u64,
    }) + (match res.completion_tokens {
        Some(n) => n as u64,
        None => 0u64,
    })
}


/// Whether a backend failure's text carries the rate-limit signature.
pub open spec fn rate_limited_spec(t: Seq<char>) -> bool {
    crate::textutil::contains_seq(t, "rate_limit"@) || crate::textutil::contains_seq(
        t,
        "rate limit"@,
    )
}

/// Classifies a backend failure's text: retried exactly when the
/// rate-limit signature occurs in it.
pub fn is_rate_limited(t: &str) -> (r: bool)
    ensures
        r == rate_limited_spec(t@),
{
    crate::textutil::contains_sub(t, "rate_limit") || crate::textutil::contains_sub(
        t,
        "rate limit",
    )
}

impl Agent {
    /// The conversation, as a sequence of message models.
    pub open spec fn conv(&self) -> Seq<MessageModel> {
        conv_of(self.chat@)
    }

    /// The pending calls, as models.
    pub open spec fn calls(&self) -> Seq<CallModel> {
        self.pending@.map_values(|c: FunctionCall| c@)
    }

    /// The engine's structural invariant.
    pub open spec fn wf(&self) -> bool {
        &&& self.context.todo_list.wf()
        &&& (self.running <==> !(self.phase is Idle))
        &&& (self.phase is ToolStart || self.phase is AwaitPermission || self.phase
            is AwaitEffect) ==> self.resolved < self.calls().len() && batch_state(
            self.conv(),
            self.calls(),
            self.resolved as int,
        )
    }

    /// A fresh, idle agent for one model and working directory.
    pub fn new(model: String, cwd: String) -> (r: Agent)
        ensures
            r.wf(),
            !r.running,
            r.phase is Idle,
            r.conv().len() == 0,
            r.model@ == model@,
            r.context.current_cwd@ == cwd@,
            r.context.todo_list@.len() == 0,
            r.tool_box.entries_spec().len() == 0,
    {
        Agent {
            chat: Vec::new(),
            model,
            tool_box: ToolBox::new(),
            running: false,
            context: AgentContext { current_cwd: cwd, todo_list: TaskLedger::new() },
            phase: Phase::Idle,
            pending: Vec::new(),
            resolved: 0,
        }
    }

    /// Registers a capability for the coming runs.
    pub fn add_tool(&mut self, kind: crate::registry::ToolKind)
        requires
            old(self).wf(),
        ensures
            final(self).wf(),
            final(self).tool_box.entries_spec() == old(self).tool_box.entries_spec().push(
                (kind.name_spec(), kind),
            ),
            final(self).model == old(self).model,
            final(self).context.current_cwd == old(self).context.current_cwd,
            final(self).conv() == old(self).conv(),
            final(self).running == old(self).running,
            final(self).phase == old(self).phase,
            final(self).context.todo_list@ == old(self).context.todo_list@,
            final(self).pending@ == old(self).pending@,
            final(self).resolved == old(self).resolved,
    {
        self.tool_box.register(kind);
    }

    /// Appends a system directive, marked for caching.
    pub fn add_system_msg(&mut self, prompt: String)
        requires
            old(self).wf(),
            !old(self).running,
        ensures
            final(self).wf(),
            final(self).conv() == old(self).conv().push(
                MessageModel {
                    role: Role::System,
                    content: prompt@,
                    tool_calls: Seq::empty(),
                    tool_call_id: None,
                    error: false,
                    cache_hint: true,
                },
            ),
            final(self).running == old(self).running,
            final(self).phase == old(self).phase,
            final(self).context.todo_list@ == old(self).context.todo_list@,
            final(self).tool_box.entries_spec() == old(self).tool_box.entries_spec(),
            final(self).model == old(self).model,
            final(self).context.current_cwd == old(self).context.current_cwd,
            final(self).pending@ == old(self).pending@,
            final(self).resolved == old(self).resolved,
    {
        let ghost p = prompt@;
        let mut m = Message::system(prompt);
        m.cache_hint = true;
        self.chat.push(m);
        proof {
            assert(self.conv() =~~= old(self).conv().push(
                MessageModel {
                    role: Role::System,
                    content: p,
                    tool_calls: Seq::empty(),
                    tool_call_id: None,
                    error: false,
                    cache_hint: true,
                },
            ));
        }
    }

    /// Appends a message directly to history; legal only while idle.
    pub fn add_message(&mut self, msg: Message)
        requires
            old(self).wf(),
            !old(self).running,
        ensures
            final(self).wf(),
            final(self).conv() == old(self).conv().push(msg@),
            final(self).running == old(self).running,
            final(self).phase == old(self).phase,
            final(self).context.todo_list@ == old(self).context.todo_list@,
            final(self).tool_box.entries_spec() == old(self).tool_box.entries_spec(),
            final(self).model == old(self).model,
            final(self).context.current_cwd == old(self).context.current_cwd,
            final(self).pending@ == old(self).pending@,
            final(self).resolved == old(self).resolved,
    {
        let ghost mm = msg@;
        self.chat.push(msg);
        proof {
            assert(self.conv() =~= old(self).conv().push(mm));
        }
    }

    /// Clears the conversation; legal only while idle.
    pub fn clear(&mut self)
        requires
            old(self).wf(),
            !old(self).running,
        ensures
            final(self).wf(),
            final(self).conv().len() == 0,
            final(self).running == old(self).running,
            final(self).phase == old(self).phase,
            final(self).context.todo_list@ == old(self).context.todo_list@,
            final(self).tool_box.entries_spec() == old(self).tool_box.entries_spec(),
            final(self).model == old(self).model,
            final(self).context.current_cwd == old(self).context.current_cwd,
            final(self).pending@ == old(self).pending@,
            final(self).resolved == old(self).resolved,
    {
        self.chat.clear();
        proof {
            assert(self.conv() =~= Seq::<MessageModel>::empty());
        }
    }

    /// Applies the cache-hint policy to the conversation.
    fn apply_cache_hints(&mut self)
        ensures
            final(self).conv() == hinted(old(self).conv()),
            final(self).running == old(self).running,
            final(self).phase == old(self).phase,
            final(self).context.todo_list@ == old(self).context.todo_list@,
            final(self).tool_box.entries_spec() == old(self).tool_box.entries_spec(),
            final(self).pending@ == old(self).pending@,
            final(self).resolved == old(self).resolved,
            final(self).model == old(self).model,
            final(self).context.current_cwd == old(self).context.current_cwd,
    {
        let n = self.chat.len();
        let mut out: Vec<Message> = Vec::new();
        let mut i: usize = 0;
        while i < n
            invariant
                n == self.chat@.len(),
                self.chat@ == old(self).chat@,
                i <= n,
                out@.len() == i,
                conv_of(out@) =~~= hinted(old(self).conv()).take(i as int),
            decreases n - i,
        {
            let mut m = self.chat[i].clone();
            m.cache_hint = i < 2 || n - i <= 2;
            out.push(m);
            proof {
                assert(conv_of(out@) =~~= hinted(old(self).conv()).take(i as int + 1));
            }
            i += 1;
        }
        self.chat = out;
        proof {
            assert(hinted(old(self).conv()).take(n as int) =~= hinted(old(self).conv()));
        }
    }

    /// What the shell must do next, read off the phase.
    pub fn next_action(&self) -> (r: StepAction)
        ensures
            r == (match self.phase {
                Phase::Idle => StepAction::Idle,
                Phase::AwaitBackend => StepAction::CallBackend,
                Phase::Backoff => StepAction::Sleep,
                Phase::ToolStart => StepAction::RunTool,
                Phase::AwaitPermission { .. } => StepAction::AskPermission,
                Phase::AwaitEffect { .. } => StepAction::Perform,
            }),
    {
        match &self.phase {
            Phase::Idle => StepAction::Idle,
            Phase::AwaitBackend => StepAction::CallBackend,
            Phase::Backoff => StepAction::Sleep,
            Phase::ToolStart => StepAction::RunTool,
            Phase::AwaitPermission { .. } => StepAction::AskPermission,
            Phase::AwaitEffect { .. } => StepAction::Perform,
        }
    }

    /// The effect the shell must perform now.
    pub fn pending_effect(&self) -> (r: &ToolEffect)
        requires
            self.phase is AwaitEffect,
        ensures
            (match self.phase {
                Phase::AwaitEffect { effect, .. } => r == effect,
                _ => false,
            }),
    {
        match &self.phase {
            Phase::AwaitEffect { effect, .. } => effect,
            _ => unreached(),
        }
    }

    /// The question of the permission request that is out.
    pub fn permission_message(&self) -> (r: &String)
        requires
            self.phase is AwaitPermission,
        ensures
            (match self.phase {
                Phase::AwaitPermission { message, .. } => *r == message,
                _ => false,
            }),
    {
        match &self.phase {
            Phase::AwaitPermission { message, .. } => message,
            _ => unreached(),
        }
    }

    /// Whether a run is active.
    pub fn is_running(&self) -> (r: bool)
        ensures
            r == self.running,
    {
        self.running
    }

    /// Enters a run: fails with `AlreadyRunning`, touching nothing, when
    /// one is active; otherwise marks the run and applies the cache-hint
    /// policy for the first turn.
    pub fn begin_run(&mut self) -> (r: Result<(), AiError>)
        requires
            old(self).wf(),
        ensures
            final(self).wf(),
            old(self).running ==> (r matches Err(e) && e == AiError::AlreadyRunning
                && final(self).conv() == old(self).conv() && final(self).running
                && final(self).context.todo_list@ == old(self).context.todo_list@),
            !old(self).running ==> (r is Ok && final(self).running
                && final(self).phase is AwaitBackend
                && final(self).conv() == hinted(old(self).conv())
                && final(self).context.todo_list@ == old(self).context.todo_list@),
            final(self).tool_box.entries_spec() == old(self).tool_box.entries_spec(),
            final(self).model == old(self).model,
            final(self).context.current_cwd == old(self).context.current_cwd,
    {
        if self.running {
            return Err(AiError::AlreadyRunning);
        }
        self.running = true;
        self.phase = Phase::AwaitBackend;
        self.apply_cache_hints();
        Ok(())
    }
}

/// The models of a list of assistant texts.
pub open spec fn texts_models(ts: Seq<String>) -> Seq<MessageModel> {
    ts.map_values(|t: String| assistant_model(t@))
}

/// The tool-call batch message of `calls`, as a model.
pub open spec fn batch_model(calls: Seq<CallModel>) -> MessageModel {
    MessageModel {
        role: Role::Assistant,
        content: Seq::empty(),
        tool_calls: calls,
        tool_call_id: None,
        error: false,
        cache_hint: false,
    }
}

/// The synthetic continuation nudge, as a model.
pub open spec fn nudge_model() -> MessageModel {
    MessageModel {
        role: Role::User,
        content: nudge_text_spec(),
        tool_calls: Seq::empty(),
        tool_call_id: None,
        error: false,
        cache_hint: false,
    }
}

/// What one successful turn appends before any tool is dispatched: its
/// texts, then its batch message when it carries calls.
pub open spec fn turn_appended(res: &TurnResponse) -> Seq<MessageModel> {
    texts_models(res.texts@) + (if res.tool_calls@.len() > 0 {
        seq![batch_model(res.tool_calls@.map_values(|c: FunctionCall| c@))]
    } else {
        Seq::<MessageModel>::empty()
    })
}

/// What one successful turn publishes before any tool is dispatched: the
/// token cost when any, then each appended message.
pub open spec fn turn_events(res: &TurnResponse) -> Seq<EventModel> {
    (if cost_of(res) > 0 {
        seq![EventModel::TokenCost(cost_of(res) as u64)]
    } else {
        Seq::<EventModel>::empty()
    }) + turn_appended(res).map_values(|m: MessageModel| EventModel::Message(m))
}

/// Marking a message for caching does not change what it is.
proof fn lemma_hint_preserves_batch(conv: Seq<MessageModel>, calls: Seq<CallModel>, done: int)
    requires
        batch_state(conv, calls, done),
    ensures
        batch_state(hinted(conv), calls, done),
{
    let h = hinted(conv);
    assert(h.len() == conv.len());
    assert(is_batch_of(h[h.len() - 1 - done], calls));
    assert forall|k: int| 0 <= k < done implies (#[trigger] h[h.len() - done + k]).is_result_for(
        calls[k].id,
    ) by {
        assert(conv[conv.len() - done + k].is_result_for(calls[k].id));
    }
}

impl Agent {
    /// Appends one tool result for the call being resolved, publishes it,
    /// and moves on: to the next call, or, when the batch is complete,
    /// into the next turn with the cache-hint policy applied.
    fn record_result(&mut self, m: Message, events: &mut Vec<AgentEvent>)
        requires
            old(self).wf(),
            old(self).phase is ToolStart || old(self).phase is AwaitPermission || old(self).phase is AwaitEffect,
            m@.is_result_for(old(self).calls()[old(self).resolved as int].id),
        ensures
            final(self).wf(),
            final(self).calls() == old(self).calls(),
            final(self).resolved == old(self).resolved + 1,
            final(self).running,
            final(self).context.todo_list@ == old(self).context.todo_list@,
            final(self).tool_box.entries_spec() == old(self).tool_box.entries_spec(),
            final(self).model == old(self).model,
            final(self).context.current_cwd == old(self).context.current_cwd,
            final(events)@ == old(events)@.push(AgentEvent::Message(m)),
            events_of(final(events)@) == events_of(old(events)@).push(EventModel::Message(m@)),
            final(self).phase is ToolStart || final(self).phase is AwaitBackend,
            final(self).phase is ToolStart ==> final(self).resolved < final(self).calls().len()
                && final(self).conv() == old(self).conv().push(m@),
            final(self).phase is AwaitBackend ==> final(self).resolved == final(self).calls().len() && final(self).conv() == hinted(old(self).conv().push(m@))
                && batch_state(
                final(self).conv(),
                final(self).calls(),
                final(self).calls().len() as int,
            ),
    {
        let ghost mm = m@;
        let ghost conv0 = self.conv();
        let ghost calls0 = self.calls();
        let ghost done0 = self.resolved as int;
        let n_pending = self.pending.len();
        proof {
            assert(self.resolved < n_pending);
        }
        self.chat.push(m.clone());
        events.push(AgentEvent::Message(m));
        self.resolved = self.resolved + 1;
        proof {
            assert(self.conv() =~= conv0.push(mm));
            assert(events_of(events@) =~= events_of(old(events)@).push(EventModel::Message(mm)));
            let conv1 = self.conv();
            assert(conv1[conv1.len() - 1 - (done0 + 1)] == conv0[conv0.len() - 1 - done0]);
            assert forall|k: int|
                0 <= k < done0 + 1 implies (#[trigger] conv1[conv1.len() - (done0 + 1)
                + k]).is_result_for(calls0[k].id) by {
                if k < done0 {
                    assert(conv0[conv0.len() - done0 + k].is_result_for(calls0[k].id));
                } else {
                    assert(conv1[conv1.len() - 1] == mm);
                }
            }
            assert(batch_state(conv1, calls0, done0 + 1));
        }
        if self.resolved < self.pending.len() {
            self.phase = Phase::ToolStart;
        } else {
            self.phase = Phase::AwaitBackend;
            let ghost conv_mid = self.conv();
            self.apply_cache_hints();
            proof {
                lemma_hint_preserves_batch(conv_mid, calls0, done0 + 1);
            }
        }
    }

    /// Absorbs what the raced backend turn produced. An abort or a
    /// timeout ends the run with history untouched; a rate-limited
    /// failure publishes one event and backs off with history untouched;
    /// any other failure ends the run as an error; a response appends its
    /// texts and calls and either starts the tool batch, nudges over open
    /// ledger items, or stops.
    pub fn absorb_backend(&mut self, input: TurnInput) -> (r: (Vec<AgentEvent>, Result<
        (),
        AiError,
    >))
        requires
            old(self).wf(),
            old(self).phase is AwaitBackend,
        ensures
            final(self).wf(),
            final(self).context.todo_list@ == old(self).context.todo_list@,
            final(self).tool_box.entries_spec() == old(self).tool_box.entries_spec(),
            final(self).model == old(self).model,
            final(self).context.current_cwd == old(self).context.current_cwd,
            (match input {
                TurnInput::Abort => events_of(r.0@) == Seq::<EventModel>::empty() && r.1 is Ok
                    && final(self).conv() == old(self).conv() && !final(self).running && final(self).phase is Idle,
                TurnInput::Timeout => events_of(r.0@) == seq![EventModel::Timeout] && r.1 is Ok
                    && final(self).conv() == old(self).conv() && !final(self).running && final(self).phase is Idle,
                TurnInput::Failure(t) => if rate_limited_spec(t@) {
                    events_of(r.0@) == seq![EventModel::RateLimit] && r.1 is Ok && final(self).conv() == old(self).conv() && final(self).running && final(self).phase
                        is Backoff
                } else {
                    events_of(r.0@) == Seq::<EventModel>::empty() && (r.1 matches Err(e) && (
                    e matches AiError::RequestError(msg) && msg@ == t@)) && final(self).conv()
                        == old(self).conv() && !final(self).running && final(self).phase is Idle
                },
                TurnInput::Response(res) => r.1 is Ok && events_of(r.0@) == turn_events(&res)
                    && final(self).running == !(final(self).phase is Idle) && (if res.tool_calls@.len() > 0 {
                    final(self).conv() == old(self).conv() + turn_appended(&res) && final(self).calls() == res.tool_calls@.map_values(|c: FunctionCall| c@) && final(self).resolved == 0 && final(self).phase is ToolStart
                } else {
                    if old(self).context.todo_list.has_open_spec() {
                        final(self).conv() == hinted(
                            old(self).conv() + turn_appended(&res) + seq![nudge_model()],
                        ) && final(self).phase is AwaitBackend
                    } else {
                        final(self).conv() == old(self).conv() + turn_appended(&res) && final(self).phase is Idle
                    }
                }),
            }),
    {
        match input {
            TurnInput::Abort => {
                self.running = false;
                self.phase = Phase::Idle;
                let events: Vec<AgentEvent> = Vec::new();
                proof {
                    assert(events_of(events@) =~= Seq::<EventModel>::empty());
                }
                (events, Ok(()))
            },
            TurnInput::Timeout => {
                self.running = false;
                self.phase = Phase::Idle;
                let mut events: Vec<AgentEvent> = Vec::new();
                events.push(AgentEvent::Timeout);
                proof {
                    assert(events_of(events@) =~= seq![EventModel::Timeout]);
                }
                (events, Ok(()))
            },
            TurnInput::Failure(t) => {
                if is_rate_limited(t.as_str()) {
                    self.phase = Phase::Backoff;
                    let mut events: Vec<AgentEvent> = Vec::new();
                    events.push(AgentEvent::RateLimit);
                    proof {
                        assert(events_of(events@) =~= seq![EventModel::RateLimit]);
                    }
                    (events, Ok(()))
                } else {
                    self.running = false;
                    self.phase = Phase::Idle;
                    let events: Vec<AgentEvent> = Vec::new();
                    proof {
                        assert(events_of(events@) =~= Seq::<EventModel>::empty());
                    }
                    (events, Err(AiError::RequestError(t)))
                }
            },
            TurnInput::Response(res) => {
                let ghost conv0 = self.conv();
                let mut events: Vec<AgentEvent> = Vec::new();
                let prompt_cost: u64 = match res.prompt_tokens {
                    Some(n) => n as u64,
                    None => 0,
                };
                let completion_cost: u64 = match res.completion_tokens {
                    Some(n) => n as u64,
                    None => 0,
                };
                let cost = prompt_cost + completion_cost;
                if cost > 0 {
                    events.push(AgentEvent::TokenCost(cost));
                }
                let ghost cost_events = events_of(events@);
                proof {
                    assert(cost_events =~= (if cost_of(&res) > 0 {
                        seq![EventModel::TokenCost(cost_of(&res) as u64)]
                    } else {
                        Seq::<EventModel>::empty()
                    }));
                }
                let n_texts = res.texts.len();
                let mut i: usize = 0;
                while i < n_texts
                    invariant
                        n_texts == res.texts@.len(),
                        i <= n_texts,
                        self.conv() =~~= conv0 + texts_models(res.texts@.take(i as int)),
                        events_of(events@) =~~= cost_events + texts_models(
                            res.texts@.take(i as int),
                        ).map_values(|m: MessageModel| EventModel::Message(m)),
                        self.context.todo_list@ == old(self).context.todo_list@,
                        self.tool_box.entries_spec() == old(self).tool_box.entries_spec(),
                        self.running == old(self).running,
                        self.model == old(self).model,
                        self.context.current_cwd == old(self).context.current_cwd,
                        self.phase is AwaitBackend,
                        self.context.todo_list.wf(),
                        cost_events == (if cost_of(&res) > 0 {
                            seq![EventModel::TokenCost(cost_of(&res) as u64)]
                        } else {
                            Seq::<EventModel>::empty()
                        }),
                        conv0 == old(self).conv(),
                    decreases n_texts - i,
                {
                    let ghost conv_prev = self.conv();
                    let ghost ev_prev = events_of(events@);
                    let msg = Message::assistant(res.texts[i].clone());
                    let ghost gm = msg@;
                    self.chat.push(msg.clone());
                    events.push(AgentEvent::Message(msg));
                    proof {
                        assert(gm =~~= assistant_model(res.texts@[i as int]@));
                        assert(self.conv() =~= conv_prev.push(gm));
                        assert(events_of(events@) =~= ev_prev.push(EventModel::Message(gm)));
                        assert(texts_models(res.texts@.take(i + 1int)) =~~= texts_models(
                            res.texts@.take(i as int),
                        ).push(assistant_model(res.texts@[i as int]@)));
                        assert(self.conv() =~~= conv0 + texts_models(res.texts@.take(i + 1int)));
                        assert(events_of(events@) =~~= cost_events + texts_models(
                            res.texts@.take(i + 1int),
                        ).map_values(|m: MessageModel| EventModel::Message(m)));
                    }
                    i += 1;
                }
                proof {
                    assert(res.texts@.take(n_texts as int) =~= res.texts@);
                }
                if res.tool_calls.len() > 0 {
                    let ghost conv_prev = self.conv();
                    let ghost ev_prev = events_of(events@);
                    let batch = Message::tool_call_batch(crate::chat::clone_calls(
                        &res.tool_calls,
                    ));
                    let ghost gb = batch@;
                    self.chat.push(batch.clone());
                    events.push(AgentEvent::Message(batch));
                    self.pending = res.tool_calls;
                    self.resolved = 0;
                    self.phase = Phase::ToolStart;
                    proof {
                        assert(gb =~~= batch_model(self.calls()));
                        assert(self.conv() =~= conv_prev.push(gb));
                        assert(events_of(events@) =~= ev_prev.push(EventModel::Message(gb)));
                        assert(self.conv() =~~= conv0 + turn_appended(&res));
                        assert(events_of(events@) =~~= turn_events(&res));
                        assert(self.conv()[self.conv().len() - 1] == gb);
                        assert(batch_state(self.conv(), self.calls(), 0));
                    }
                    (events, Ok(()))
                } else {
                    proof {
                        assert(turn_appended(&res) =~~= texts_models(res.texts@));
                        assert(self.conv() =~~= conv0 + turn_appended(&res));
                        assert(events_of(events@) =~~= turn_events(&res));
                    }
                    if self.context.todo_list.has_open_todos() {
                        let ghost conv_mid = self.conv();
                        let nudge = Message::user(
                            String::from_str(
                                "you have unfinished work on your todo list. please update the list according to your task progression.",
                            ),
                        );
                        let ghost gn = nudge@;
                        self.chat.push(nudge);
                        proof {
                            assert(gn =~~= nudge_model());
                            assert(self.conv() =~= conv_mid.push(gn));
                            assert(self.conv() =~~= conv_mid + seq![nudge_model()]);
                        }
                        self.apply_cache_hints();
                        (events, Ok(()))
                    } else {
                        self.running = false;
                        self.phase = Phase::Idle;
                        (events, Ok(()))
                    }
                }
            },
        }
    }

    /// Resumes after the backoff sleep: the same turn is retried, history
    /// unchanged, with the cache-hint policy applied anew.
    pub fn resume_after_backoff(&mut self)
        requires
            old(self).wf(),
            old(self).phase is Backoff,
        ensures
            final(self).wf(),
            final(self).phase is AwaitBackend,
            final(self).running,
            final(self).conv() == hinted(old(self).conv()),
            final(self).context.todo_list@ == old(self).context.todo_list@,
            final(self).tool_box.entries_spec() == old(self).tool_box.entries_spec(),
            final(self).model == old(self).model,
            final(self).context.current_cwd == old(self).context.current_cwd,
    {
        self.phase = Phase::AwaitBackend;
        self.apply_cache_hints();
    }

    /// Dispatches the next pending call: resolves its capability by name,
    /// parses its arguments, and either records its result at once,
    /// publishes a permission question, or hands out an effect. Exactly
    /// one result is recorded per call, in call order.
    pub fn run_next_tool(&mut self) -> (events: Vec<AgentEvent>)
        requires
            old(self).wf(),
            old(self).phase is ToolStart,
        ensures
            final(self).wf(),
            final(self).running,
            final(self).calls() == old(self).calls(),
            final(self).tool_box.entries_spec() == old(self).tool_box.entries_spec(),
            final(self).model == old(self).model,
            final(self).context.current_cwd == old(self).context.current_cwd,
            (final(self).phase is AwaitPermission || final(self).phase is AwaitEffect) ==> (
            final(self).conv() == old(self).conv() && final(self).resolved == old(self).resolved
                && final(self).context.todo_list@ == old(self).context.todo_list@),
            final(self).phase is AwaitPermission ==> events@.len() == 1 && events@[0]
                matches AgentEvent::Permission(_),
            final(self).phase is AwaitEffect ==> events@.len() == 0,
            (final(self).phase is ToolStart || final(self).phase is AwaitBackend) ==> (final(self).resolved == old(self).resolved + 1 && events@.len() == 1 && (events@[0]@
                matches EventModel::Message(m) && m.is_result_for(
                old(self).calls()[old(self).resolved as int].id,
            ) && (final(self).phase is ToolStart ==> final(self).conv() == old(self).conv().push(m)) && (final(self).phase is AwaitBackend ==> final(self).conv()
                == hinted(old(self).conv().push(m)) && batch_state(
                final(self).conv(),
                final(self).calls(),
                final(self).calls().len() as int,
            )))),
            final(self).phase is ToolStart ==> final(self).resolved < final(self).calls().len(),
            final(self).phase is AwaitBackend ==> final(self).resolved == final(self).calls().len(),
            // dispatching a name no entry carries is captured, never a crash
            old(self).tool_box.lookup_spec(old(self).calls()[old(self).resolved as int].name)
                is None ==> ((final(self).phase is ToolStart || final(self).phase
                is AwaitBackend) && (events@[0]@ matches EventModel::Message(m) && m.error
                && m.content == unknown_tool_text_spec())),
            // a registered name is dispatched exactly as `plan_call` decides:
            // a gated step enters the permission phase holding the planned
            // question, effect and continuation; an immediate step records
            // the planned result; the ledger moves as the plan says
            (match old(self).tool_box.lookup_spec(
                old(self).calls()[old(self).resolved as int].name,
            ) {
                Some(kind) => exists|step: ToolStep|
                    {
                        &&& #[trigger] crate::tools::plan_post(
                            kind,
                            old(self).calls()[old(self).resolved as int].id,
                            old(self).calls()[old(self).resolved as int].args,
                            old(self).context.todo_list@,
                            final(self).context.todo_list@,
                            step,
                        )
                        &&& (match step {
                            ToolStep::Finished(m) => final(self).resolved == old(self).resolved
                                + 1 && events@.len() == 1 && events@[0]@ == EventModel::Message(
                                m@,
                            ),
                            ToolStep::NeedPermission { message, effect, cont } => (final(self).phase matches Phase::AwaitPermission {
                                message: pm,
                                effect: pe,
                                cont: pc,
                            } && pm@ == message@ && pe == effect && pc == cont) && events@.len()
                                == 1 && events@[0]@ == EventModel::Permission(message@),
                            ToolStep::NeedEffect { effect, cont } => (final(self).phase matches Phase::AwaitEffect { effect: pe, cont: pc } && pe
                                == effect && pc == cont) && events@.len() == 0,
                        })
                    },
                None => true,
            }),
    {
        let idx = self.resolved;
        let name = self.pending[idx].name.clone();
        let kind_opt = self.tool_box.lookup(name.as_str());
        match kind_opt {
            None => {
                let m = Message::tool_error(
                    String::from_str("no tool is registered under this name"),
                    crate::chat::clone_opt_string(&self.pending[idx].id),
                );
                let mut events: Vec<AgentEvent> = Vec::new();
                self.record_result(m, &mut events);
                events
            },
            Some(kind) => {
                let call_id = crate::chat::clone_opt_string(&self.pending[idx].id);
                let args = self.pending[idx].args.clone();
                let ghost l0 = self.context.todo_list@;
                let step = crate::tools::plan_call(
                    kind,
                    &call_id,
                    &args,
                    &mut self.context.todo_list,
                );
                let ghost gstep = step;
                proof {
                    assert(crate::tools::id_model(&call_id) == old(self).calls()[
                        idx as int].id);
                    assert(args@ == old(self).calls()[idx as int].args);
                }
                match step {
                    ToolStep::Finished(m) => {
                        let ghost gm = m@;
                        let mut events: Vec<AgentEvent> = Vec::new();
                        self.record_result(m, &mut events);
                        proof {
                            assert(crate::tools::plan_post(
                                kind,
                                old(self).calls()[idx as int].id,
                                old(self).calls()[idx as int].args,
                                l0,
                                self.context.todo_list@,
                                gstep,
                            ));
                            assert(events@[0]@ == EventModel::Message(gm));
                        }
                        events
                    },
                    ToolStep::NeedPermission { message, effect, cont } => {
                        let event_message = message.clone();
                        self.phase = Phase::AwaitPermission { message, effect, cont };
                        let mut events: Vec<AgentEvent> = Vec::new();
                        events.push(AgentEvent::Permission(PermissionRequest {
                            message: event_message,
                        }));
                        proof {
                            assert(crate::tools::plan_post(
                                kind,
                                old(self).calls()[idx as int].id,
                                old(self).calls()[idx as int].args,
                                l0,
                                self.context.todo_list@,
                                gstep,
                            ));
                        }
                        events
                    },
                    ToolStep::NeedEffect { effect, cont } => {
                        self.phase = Phase::AwaitEffect { effect, cont };
                        proof {
                            assert(crate::tools::plan_post(
                                kind,
                                old(self).calls()[idx as int].id,
                                old(self).calls()[idx as int].args,
                                l0,
                                self.context.todo_list@,
                                gstep,
                            ));
                        }
                        Vec::new()
                    },
                }
            },
        }
    }

    /// Takes the permission reply. Only an explicit approval hands the
    /// gated effect out; a negative or dropped reply records a failed
    /// result that names the decline, and the effect is never performed.
    pub fn provide_permission(&mut self, granted: Option<bool>) -> (events: Vec<AgentEvent>)
        requires
            old(self).wf(),
            old(self).phase is AwaitPermission,
        ensures
            final(self).wf(),
            final(self).running,
            final(self).calls() == old(self).calls(),
            final(self).context.todo_list@ == old(self).context.todo_list@,
            final(self).tool_box.entries_spec() == old(self).tool_box.entries_spec(),
            final(self).model == old(self).model,
            final(self).context.current_cwd == old(self).context.current_cwd,
            granted == Some(true) ==> (final(self).conv() == old(self).conv() && final(self).resolved == old(self).resolved && events@.len() == 0 && (match (
                &old(self).phase,
                &final(self).phase,
            ) {
                (
                    Phase::AwaitPermission { message: _, effect: e0, cont: c0 },
                    Phase::AwaitEffect { effect: e1, cont: c1 },
                ) => e0 == e1 && c0 == c1,
                _ => false,
            })),
            granted != Some(true) ==> (final(self).resolved == old(self).resolved + 1
                && events@.len() == 1 && (events@[0]@ matches EventModel::Message(m)
                && m.is_result_for(old(self).calls()[old(self).resolved as int].id) && m.error
                && m.content == crate::tools::declined_text_spec() && (final(self).phase
                is ToolStart ==> final(self).conv() == old(self).conv().push(m)) && (final(self).phase is AwaitBackend ==> final(self).conv() == hinted(old(self).conv().push(m))
                && batch_state(
                final(self).conv(),
                final(self).calls(),
                final(self).calls().len() as int,
            )))),
            granted != Some(true) ==> (final(self).phase is ToolStart || final(self).phase
                is AwaitBackend),
    {
        let approved = match granted {
            Some(true) => true,
            _ => false,
        };
        if approved {
            let mut taken = Phase::ToolStart;
            core::mem::swap(&mut self.phase, &mut taken);
            match taken {
                Phase::AwaitPermission { message: _, effect, cont } => {
                    self.phase = Phase::AwaitEffect { effect, cont };
                },
                _ => {
                    proof {
                        assert(false);
                    }
                },
            }
            Vec::new()
        } else {
            let m = crate::tools::declined_result(
                &crate::chat::clone_opt_string(&self.pending[self.resolved].id),
            );
            let mut events: Vec<AgentEvent> = Vec::new();
            self.record_result(m, &mut events);
            events
        }
    }

    /// Takes a performed effect's outcome and lets the tool go on: the
    /// result is recorded, or the tool asks for permission or another
    /// effect, as `continue_call` decides.
    pub fn provide_effect(&mut self, outcome: EffectOutcome) -> (events: Vec<AgentEvent>)
        requires
            old(self).wf(),
            old(self).phase is AwaitEffect,
        ensures
            final(self).wf(),
            final(self).running,
            final(self).calls() == old(self).calls(),
            final(self).context.todo_list@ == old(self).context.todo_list@,
            final(self).tool_box.entries_spec() == old(self).tool_box.entries_spec(),
            final(self).model == old(self).model,
            final(self).context.current_cwd == old(self).context.current_cwd,
            (final(self).phase is AwaitPermission || final(self).phase is AwaitEffect) ==> (
            final(self).conv() == old(self).conv() && final(self).resolved == old(self).resolved),
            final(self).phase is AwaitPermission ==> events@.len() == 1 && events@[0]
                matches AgentEvent::Permission(_),
            final(self).phase is AwaitEffect ==> events@.len() == 0,
            (final(self).phase is ToolStart || final(self).phase is AwaitBackend) ==> (final(self).resolved == old(self).resolved + 1 && events@.len() == 1 && (events@[0]@
                matches EventModel::Message(m) && m.is_result_for(
                old(self).calls()[old(self).resolved as int].id,
            ) && (!outcome.success ==> m.error && m.content == outcome.output@) && (final(self).phase is ToolStart ==> final(self).conv() == old(self).conv().push(m)) && (final(self).phase is AwaitBackend ==> final(self).conv() == hinted(old(self).conv().push(m))
                && batch_state(
                final(self).conv(),
                final(self).calls(),
                final(self).calls().len() as int,
            )))),
            final(self).phase is ToolStart ==> final(self).resolved < final(self).calls().len(),
            final(self).phase is AwaitBackend ==> final(self).resolved == final(self).calls().len(),
            // the tool goes on exactly as `continue_call` decides for the
            // held continuation and this outcome: a success is never
            // recorded as anything but the planned result or follow-on step
            (match old(self).phase {
                Phase::AwaitEffect { effect: _, cont } => exists|step: ToolStep|
                    {
                        &&& #[trigger] crate::tools::continue_post(
                            cont,
                            outcome,
                            old(self).calls()[old(self).resolved as int].id,
                            step,
                        )
                        &&& (match step {
                            ToolStep::Finished(m) => final(self).resolved == old(self).resolved
                                + 1 && events@.len() == 1 && events@[0]@ == EventModel::Message(
                                m@,
                            ),
                            ToolStep::NeedPermission { message, effect, cont } => (final(self).phase matches Phase::AwaitPermission {
                                message: pm,
                                effect: pe,
                                cont: pc,
                            } && pm@ == message@ && pe == effect && pc == cont) && events@.len()
                                == 1 && events@[0]@ == EventModel::Permission(message@),
                            ToolStep::NeedEffect { effect, cont } => (final(self).phase matches Phase::AwaitEffect { effect: pe, cont: pc } && pe
                                == effect && pc == cont) && events@.len() == 0,
                        })
                    },
                _ => true,
            }),
    {
        let mut taken = Phase::ToolStart;
        core::mem::swap(&mut self.phase, &mut taken);
        let cont = match taken {
            Phase::AwaitEffect { effect: _, cont } => cont,
            _ => unreached(),
        };
        let ghost gcont = cont;
        let ghost goutcome = outcome;
        let call_id = crate::chat::clone_opt_string(&self.pending[self.resolved].id);
        let ghost cid = old(self).calls()[old(self).resolved as int].id;
        proof {
            assert(crate::tools::id_model(&call_id) == cid);
        }
        let step = crate::tools::continue_call(cont, outcome, &call_id);
        let ghost gstep = step;
        proof {
            assert(crate::tools::continue_post(gcont, goutcome, cid, gstep));
        }
        match step {
            ToolStep::Finished(m) => {
                let ghost gm = m@;
                let mut events: Vec<AgentEvent> = Vec::new();
                self.record_result(m, &mut events);
                proof {
                    assert(events@[0]@ == EventModel::Message(gm));
                }
                events
            },
            ToolStep::NeedPermission { message, effect, cont } => {
                let event_message = message.clone();
                self.phase = Phase::AwaitPermission { message, effect, cont };
                let mut events: Vec<AgentEvent> = Vec::new();
                events.push(AgentEvent::Permission(PermissionRequest {
                    message: event_message,
                }));
                events
            },
            ToolStep::NeedEffect { effect, cont } => {
                self.phase = Phase::AwaitEffect { effect, cont };
                Vec::new()
            },
        }
    }
}

/// Law: a completed tool batch stands in the conversation as its batch
/// message followed by exactly one result per call, in call order, each
/// correlated to its call identifier.
pub proof fn lemma_batch_results(conv: Seq<MessageModel>, calls: Seq<CallModel>)
    requires
        batch_state(conv, calls, calls.len() as int),
    ensures
        conv.len() >= calls.len() + 1,
        is_batch_of(conv[conv.len() - calls.len() - 1], calls),
        forall|k: int|
            0 <= k < calls.len() ==> (#[trigger] conv[conv.len() - calls.len() + k]).is_result_for(
                calls[k].id,
            ),
{
}

} // verus!
