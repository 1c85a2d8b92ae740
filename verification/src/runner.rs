//! The runner: single-flight admission control around one agent.
//!
//! At most one run request is ever in flight. A start while one is
//! executing is rejected outright with `AlreadyRunning` and mutates
//! nothing; cancellation is a signal the embedding shell delivers to the
//! race point of the run loop.

use vstd::prelude::*;

use crate::agent::Agent;
use crate::chat::Message;
use crate::error::AiError;

verus! {

/// The project-context text captured at startup and woven into the
/// prompts of freshly created agents.
#[derive(Clone, Debug, Default)]
pub struct Blackboard {
    pub inner: String,
}

/// A command from the foreground to the background worker.
#[derive(Clone, Copy, Debug, PartialEq, Eq, Structural)]
pub enum AgentCmd {
    Run,
}

/// Owns one agent behind single-flight admission control.
#[derive(Debug)]
pub struct AgentRunner {
    pub agent: Agent,
    /// A run request is enqueued but not yet picked up by the worker.
    pub queued: bool,
}

impl AgentRunner {
    /// The runner's structural invariant.
    pub open spec fn wf(&self) -> bool {
        &&& self.agent.wf()
        &&& self.queued ==> !self.agent.running
    }

    /// Wraps a fresh agent.
    pub fn new(agent: Agent) -> (r: AgentRunner)
        requires
            agent.wf(),
            !agent.running,
        ensures
            r.wf(),
            r.agent == agent,
            !r.queued,
    {
        AgentRunner { agent, queued: false }
    }

    /// Whether a run is active or enqueued.
    pub fn is_running(&self) -> (r: bool)
        ensures
            r == (self.agent.running || self.queued),
    {
        self.agent.running || self.queued
    }

    /// Admits one run request: fails with `AlreadyRunning`, mutating
    /// nothing, while one is active or already enqueued.
    pub fn start_cycle(&mut self) -> (r: Result<AgentCmd, AiError>)
        requires
            old(self).wf(),
        ensures
            final(self).wf(),
            old(self).agent.running || old(self).queued ==> (r matches Err(e) && e
                == AiError::AlreadyRunning && final(self).agent == old(self).agent && final(self).queued == old(self).queued),
            !(old(self).agent.running || old(self).queued) ==> (r matches Ok(c) && c
                == AgentCmd::Run && final(self).queued && final(self).agent == old(self).agent),
    {
        if self.agent.running || self.queued {
            return Err(AiError::AlreadyRunning);
        }
        self.queued = true;
        Ok(AgentCmd::Run)
    }

    /// The worker takes the enqueued request and enters the run.
    pub fn take_run_request(&mut self) -> (r: Result<(), AiError>)
        requires
            old(self).wf(),
            old(self).queued,
        ensures
            final(self).wf(),
            !final(self).queued,
            r is Ok,
            final(self).agent.running,
            final(self).agent.phase is AwaitBackend,
            final(self).agent.conv() == crate::agent::hinted(old(self).agent.conv()),
            final(self).agent.context.todo_list@ == old(self).agent.context.todo_list@,
            final(self).agent.model == old(self).agent.model,
            final(self).agent.context.current_cwd == old(self).agent.context.current_cwd,
    {
        self.queued = false;
        let r = self.agent.begin_run();
        proof {
            assert(r is Ok);
        }
        r
    }

    /// Appends a message to history; legal only while no run is active.
    pub fn add_message(&mut self, msg: Message)
        requires
            old(self).wf(),
            !old(self).agent.running,
        ensures
            final(self).wf(),
            final(self).agent.conv() == old(self).agent.conv().push(msg@),
            final(self).queued == old(self).queued,
            final(self).agent.running == old(self).agent.running,
            final(self).agent.context.todo_list@ == old(self).agent.context.todo_list@,
            final(self).agent.model == old(self).agent.model,
            final(self).agent.context.current_cwd == old(self).agent.context.current_cwd,
            final(self).agent.phase == old(self).agent.phase,
            final(self).agent.tool_box.entries_spec() == old(self).agent.tool_box.entries_spec(),
    {
        self.agent.add_message(msg);
    }

    /// Clears history and reinstates the system prompt; legal only while
    /// no run is active.
    pub fn clear(&mut self, system_prompt: String)
        requires
            old(self).wf(),
            !old(self).agent.running,
        ensures
            final(self).wf(),
            final(self).agent.conv().len() == 1,
            final(self).agent.conv()[0].role == crate::chat::Role::System,
            final(self).agent.conv()[0].content == system_prompt@,
            final(self).queued == old(self).queued,
            final(self).agent.running == old(self).agent.running,
            final(self).agent.context.todo_list@ == old(self).agent.context.todo_list@,
            final(self).agent.model == old(self).agent.model,
            final(self).agent.context.current_cwd == old(self).agent.context.current_cwd,
            final(self).agent.phase == old(self).agent.phase,
            final(self).agent.tool_box.entries_spec() == old(self).agent.tool_box.entries_spec(),
    {
        self.agent.clear();
        self.agent.add_system_msg(system_prompt);
    }
}

/// Composes the system prompt: the base prompt, then the user's project
/// context when one was read.
pub fn build_system_prompt(base: &str, user_context: Option<&str>) -> (r: String)
    ensures
        (match user_context {
            Some(c) => r@ == base@ + user_context_block_spec(c@),
            None => r@ == base@,
        }),
{
    match user_context {
        Some(c) => {
            let block = crate::strutil::cat3(
                "# User Rules and Context\n\nHere is the user provided project context and ruleset. User context can overwrite any existing rule.\n\n<user_context>\n",
                c,
                "\n</user_context>\n",
            );
            crate::strutil::cat2(base, block.as_str())
        },
        None => {
            let mut s = String::new();
            s.append(base);
            proof {
                assert(s@ =~= base@);
            }
            s
        },
    }
}

/// The framed user-context block of the system prompt.
pub open spec fn user_context_block_spec(c: Seq<char>) -> Seq<char> {
    "# User Rules and Context\n\nHere is the user provided project context and ruleset. User context can overwrite any existing rule.\n\n<user_context>\n"@
        + c + "\n</user_context>\n"@
}

} // verus!
