//! The agent: a state machine that owns a thread and decides, for each event of
//! its loop, how the thread changes, what is reported, and whether the agent is
//! idle (waiting for a message) or busy (the model is to be called again).
//!
//! The loop itself, with the model, the channels and the host's tools, is run by
//! the host: it hands each event to the agent and carries out what comes back.

use vstd::prelude::*;

use crate::error::DreamerError;
use crate::prompt::Prompt;
use crate::protocol::{
    incomplete, kind_of, main_of, tagged, MessageKind, MessageView, ThreadMessage,
};
use crate::thread::{flatten, Thread, ThreadView};
use crate::tools::{invocation_name, parse_tool, MessageBox, ToolError, MESSAGE_BOX_TOOL};

verus! {

/// The system instruction of a dreamer whose builder was given none.
pub const DREAMER_SYSTEM_INSTRUCTION: &'static str = "You are Dreamer, an assistant that thinks before it acts. Answer with exactly one message that begins with a tag: [thought] followed by a thought (end it with ... if you have more to think), or [action] followed by a JSON object {\"name\": <tool name>, \"args\": <object>} to use a tool. The tool message_box reads the last message from the user. You receive [observation] messages with the results of your actions and [notification] messages about events; never write those yourself.";

/// The text of the notification that a message from the user has arrived.
pub const NOTIFICATION_USER_MESSAGE: &'static str = "Message from the user!";

/// What the agent reports to the host.
#[derive(Debug)]
pub enum Metrics {
    /// A message that was added to the thread.
    ThreadMessage(ThreadMessage),
}

impl View for Metrics {
    type V = MessageView;

    open spec fn view(&self) -> MessageView {
        match self {
            Metrics::ThreadMessage(m) => m@,
        }
    }
}

impl Clone for Metrics {
    fn clone(&self) -> (r: Self)
        ensures
            r@ == self@,
    {
        match self {
            Metrics::ThreadMessage(m) => Metrics::ThreadMessage(m.clone()),
        }
    }
}

/// The messages that a list of metrics reports, in order.
pub open spec fn reported(metrics: Seq<Metrics>) -> Seq<MessageView> {
    metrics.map_values(|m: Metrics| m@)
}

/// A tool of the host's that the agent asks to have run.
#[derive(Debug)]
pub struct ToolCall {
    /// The name of the tool.
    pub name: String,
    /// The arguments of the invocation.
    pub args: serde_json::Map<String, serde_json::Value>,
}

/// What the host is to do after the agent handled a response of the model: report
/// the metrics in order, then run the tool, if one is asked for, and hand its
/// result back.
#[derive(Debug)]
pub struct Reaction {
    /// The metrics to report, in order.
    pub metrics: Vec<Metrics>,
    /// The tool to run, if any.
    pub tool_call: Option<ToolCall>,
}

/// The name of the tool that a reaction asks for, if any.
pub open spec fn requested(r: &Reaction) -> Option<Seq<char>> {
    match r.tool_call {
        Some(c) => Some(c.name@),
        None => None,
    }
}

/// An agent as contracts see it.
pub struct DreamerView {
    /// Its thread.
    pub thread: ThreadView,
    /// The last message from the user, which the message box reads.
    pub inbox: Option<Seq<char>>,
    /// The names of the tools that the host runs for it.
    pub tools: Seq<Seq<char>>,
    /// Whether it waits for a message (idle) rather than for the model (busy).
    pub idle: bool,
}

/// The message of kind `k` built from `text`.
pub open spec fn message(k: MessageKind, text: Seq<char>) -> MessageView {
    MessageView { kind: k, content: tagged(k, text) }
}

/// The notification that a message from the user has arrived.
pub open spec fn user_notification() -> MessageView {
    message(MessageKind::Notification, NOTIFICATION_USER_MESSAGE@)
}

/// `s` with `m` appended to its thread's history.
pub open spec fn pushed(s: DreamerView, m: MessageView) -> DreamerView {
    DreamerView { thread: ThreadView { history: s.thread.history.push(m), ..s.thread }, ..s }
}

/// `s` made idle or busy.
pub open spec fn with_idle(s: DreamerView, idle: bool) -> DreamerView {
    DreamerView { idle, ..s }
}

/// The outcome of carrying out an invocation of the tool `name` (`None` for a
/// malformed invocation) from `before`, giving `after`, reporting `emitted` and
/// asking the host for the tool `call`. The message box is read here: its message
/// is observed and the agent stays busy, or, with no message, the agent goes idle.
/// A tool that the host runs is asked for and the agent stays busy. A malformed
/// invocation or an unknown tool makes the agent idle.
pub open spec fn dispatch_outcome(
    before: DreamerView,
    name: Option<Seq<char>>,
    after: DreamerView,
    emitted: Seq<MessageView>,
    call: Option<Seq<char>>,
) -> bool {
    match name {
        Some(n) => if n == MESSAGE_BOX_TOOL@ {
            match before.inbox {
                Some(m) => after == with_idle(
                    pushed(before, message(MessageKind::Observation, m)),
                    false,
                ) && emitted == seq![message(MessageKind::Observation, m)] && call is None,
                None => after == with_idle(before, true) && emitted.len() == 0 && call is None,
            }
        } else if before.tools.contains(n) {
            after == with_idle(before, false) && emitted.len() == 0 && call == Some(n)
        } else {
            after == with_idle(before, true) && emitted.len() == 0 && call is None
        },
        None => after == with_idle(before, true) && emitted.len() == 0 && call is None,
    }
}

/// The names of a list of tools.
pub open spec fn names(tools: Seq<String>) -> Seq<Seq<char>> {
    tools.map_values(|t: String| t@)
}

/// `Dreamer` is a general-purpose agent that alternates thoughts and actions,
/// driven by a text model, with messages from the user arriving in between.
#[derive(Debug)]
pub struct Dreamer {
    thread: Thread,
    message_box: MessageBox,
    tools: Vec<String>,
    idle: bool,
}

impl View for Dreamer {
    type V = DreamerView;

    closed spec fn view(&self) -> DreamerView {
        DreamerView {
            thread: self.thread@,
            inbox: self.message_box@,
            tools: names(self.tools@),
            idle: self.idle,
        }
    }
}

impl Dreamer {
    /// Creates an idle agent with a system instruction and the names of the tools
    /// that the host runs for it.
    pub fn new(system_instruction: &str, tools: Vec<String>) -> (r: Self)
        ensures
            r@ == (DreamerView {
                thread: ThreadView {
                    system: system_instruction@,
                    history: Seq::empty(),
                    context: None,
                },
                inbox: None,
                tools: names(tools@),
                idle: true,
            }),
    {
        Dreamer {
            thread: Thread::new(system_instruction),
            message_box: MessageBox::new(),
            tools,
            idle: true,
        }
    }

    /// Whether the agent waits for a message rather than for the model.
    pub fn is_idle(&self) -> (r: bool)
        ensures
            r == self@.idle,
    {
        self.idle
    }

    /// The agent's thread.
    pub fn thread(&self) -> (r: &Thread)
        ensures
            r@ == self@.thread,
    {
        &self.thread
    }

    /// The prompt to call the model with: the thread, flattened.
    pub fn prompt(&self) -> (r: Prompt)
        ensures
            r@ == flatten(self@.thread),
    {
        self.thread.to_prompt()
    }

    /// The channel of messages from the outside world has closed: returns whether
    /// the loop ends. It ends when the agent is idle; a busy agent goes on calling
    /// the model until its turn is over.
    pub fn handle_inbound_closed(&self) -> (r: bool)
        ensures
            r == self@.idle,
    {
        self.idle
    }

    /// Whether the host runs a tool of this name for the agent.
    pub fn has_tool(&self, name: &String) -> (r: bool)
        ensures
            r == self@.tools.contains(name@),
    {
        let mut i: usize = 0;
        while i < self.tools.len()
            invariant
                i <= self.tools@.len(),
                forall|j: int| 0 <= j < i ==> self.tools@[j]@ != name@,
            decreases self.tools@.len() - i,
        {
            if self.tools[i].eq(name) {
                assert(self@.tools[i as int] == name@);
                return true;
            }
            i = i + 1;
        }
        assert(!self@.tools.contains(name@)) by {
            if self@.tools.contains(name@) {
                let j = choose|j: int| 0 <= j < self@.tools.len() && self@.tools[j] == name@;
                assert(self.tools@[j]@ == name@);
            }
        }
        false
    }

    /// Makes the agent idle.
    fn make_idle(&mut self)
        ensures
            final(self)@ == with_idle(old(self)@, true),
    {
        self.idle = true;
    }

    /// Makes the agent busy.
    fn make_busy(&mut self)
        ensures
            final(self)@ == with_idle(old(self)@, false),
    {
        self.idle = false;
    }

    /// Appends a message to the thread.
    fn record(&mut self, message: ThreadMessage)
        ensures
            final(self)@ == pushed(old(self)@, message@),
    {
        self.thread.push_message(message);
    }

    /// A message from the user arrives: the message box keeps it, the thread gets a
    /// notification, which is reported, and the agent is busy.
    pub fn handle_incoming_message(&mut self, message: String) -> (r: Metrics)
        ensures
            r@ == user_notification(),
            final(self)@ == (DreamerView {
                inbox: Some(message@),
                idle: false,
                ..pushed(old(self)@, user_notification())
            }),
    {
        self.message_box.update_message(message);
        let notification = ThreadMessage::notification(NOTIFICATION_USER_MESSAGE);
        let report = Metrics::ThreadMessage(notification.clone());
        self.record(notification);
        self.make_busy();
        report
    }

    /// A tool of the host's has run: its output is observed and reported, and the
    /// agent stays busy; on failure nothing is reported and the agent goes idle.
    pub fn handle_tool_result(&mut self, result: Result<String, ToolError>) -> (r: Vec<Metrics>)
        ensures
            match result {
                Ok(t) => final(self)@ == with_idle(
                    pushed(old(self)@, message(MessageKind::Observation, t@)),
                    false,
                ) && reported(r@) == seq![message(MessageKind::Observation, t@)],
                Err(_) => final(self)@ == with_idle(old(self)@, true) && r@.len() == 0,
            },
    {
        let mut metrics: Vec<Metrics> = Vec::new();
        match result {
            Ok(output) => {
                let observation = ThreadMessage::observation(output.as_str());
                metrics.push(Metrics::ThreadMessage(observation.clone()));
                self.record(observation);
                self.make_busy();
                assert(reported(metrics@) =~= seq![message(MessageKind::Observation, output@)]);
            },
            Err(_) => {
                self.make_idle();
            },
        }
        metrics
    }

    /// Carries out a tool invocation read from an action. The message box is run
    /// here; another tool that the host runs is asked for; a malformed invocation or
    /// an unknown tool ends the busy episode.
    pub fn dispatch_invocation(
        &mut self,
        invocation: Result<(String, serde_json::Map<String, serde_json::Value>), ToolError>,
    ) -> (r: Reaction)
        ensures
            dispatch_outcome(
                old(self)@,
                match invocation {
                    Ok((name, _)) => Some(name@),
                    Err(_) => None,
                },
                final(self)@,
                reported(r.metrics@),
                requested(&r),
            ),
            r.tool_call is Some ==> invocation is Ok && r.tool_call->Some_0.args
                == invocation->Ok_0.1,
    {
        let (name, args) = match invocation {
            Ok(call) => call,
            Err(_) => {
                self.make_idle();
                let r = Reaction { metrics: Vec::new(), tool_call: None };
                assert(reported(r.metrics@) =~= Seq::<MessageView>::empty());
                return r;
            },
        };
        if name == MESSAGE_BOX_TOOL.to_owned() {
            match self.message_box.read() {
                Ok(text) => {
                    let metrics = self.handle_tool_result(Ok(text));
                    Reaction { metrics, tool_call: None }
                },
                Err(e) => {
                    let metrics = self.handle_tool_result(Err(e));
                    assert(reported(metrics@) =~= Seq::<MessageView>::empty());
                    Reaction { metrics, tool_call: None }
                },
            }
        } else if self.has_tool(&name) {
            self.make_busy();
            let r = Reaction { metrics: Vec::new(), tool_call: Some(ToolCall { name, args }) };
            assert(reported(r.metrics@) =~= Seq::<MessageView>::empty());
            r
        } else {
            self.make_idle();
            let r = Reaction { metrics: Vec::new(), tool_call: None };
            assert(reported(r.metrics@) =~= Seq::<MessageView>::empty());
            r
        }
    }

    /// Handles what the model answered. A thought is recorded and reported; the agent
    /// stays busy if the thought is incomplete and goes idle otherwise. An action is
    /// recorded and reported, then its invocation is carried out. A text without a
    /// tag, an observation or a notification is an error that leaves the agent as it
    /// was.
    pub fn handle_model_response(&mut self, response: &str) -> (r: Result<Reaction, DreamerError>)
        ensures
            match kind_of(response@) {
                None => final(self)@ == old(self)@ && match r {
                    Err(DreamerError::InvalidThreadMessage(t)) => t@ == response@,
                    _ => false,
                },
                Some(MessageKind::Thought) => r is Ok && r->Ok_0.tool_call is None
                    && reported(r->Ok_0.metrics@) == seq![
                    MessageView { kind: MessageKind::Thought, content: response@ },
                ] && final(self)@ == with_idle(
                    pushed(old(self)@, MessageView { kind: MessageKind::Thought, content: response@ }),
                    !incomplete(main_of(MessageKind::Thought, response@)),
                ),
                Some(MessageKind::Action) => r is Ok && reported(r->Ok_0.metrics@).len() >= 1
                    && reported(r->Ok_0.metrics@)[0] == (MessageView {
                    kind: MessageKind::Action,
                    content: response@,
                }) && dispatch_outcome(
                    pushed(old(self)@, MessageView { kind: MessageKind::Action, content: response@ }),
                    invocation_name(main_of(MessageKind::Action, response@)),
                    final(self)@,
                    reported(r->Ok_0.metrics@).skip(1),
                    requested(&r->Ok_0),
                ),
                Some(k) => final(self)@ == old(self)@ && match r {
                    Err(DreamerError::InvalidResponseMessage(m)) => m@ == (MessageView {
                        kind: k,
                        content: response@,
                    }),
                    _ => false,
                },
            },
    {
        let message = match ThreadMessage::classify(response) {
            Ok(m) => m,
            Err(e) => return Err(e),
        };
        match message {
            ThreadMessage::Thought(thought) => {
                let incomplete = thought.is_incomplete();
                let mut metrics: Vec<Metrics> = Vec::new();
                metrics.push(Metrics::ThreadMessage(ThreadMessage::Thought(thought.clone())));
                self.record(ThreadMessage::Thought(thought));
                if incomplete {
                    self.make_busy();
                } else {
                    self.make_idle();
                }
                assert(reported(metrics@) =~= seq![
                    MessageView { kind: MessageKind::Thought, content: response@ },
                ]);
                Ok(Reaction { metrics, tool_call: None })
            },
            ThreadMessage::Action(action) => {
                let report = Metrics::ThreadMessage(ThreadMessage::Action(action.clone()));
                let invocation = parse_tool(action.get_main_content());
                self.record(ThreadMessage::Action(action));
                let outcome = self.dispatch_invocation(invocation);
                let mut metrics: Vec<Metrics> = Vec::new();
                metrics.push(report);
                let mut rest = outcome.metrics;
                let ghost emitted = reported(rest@);
                metrics.append(&mut rest);
                assert(reported(metrics@).skip(1) =~= emitted);
                Ok(Reaction { metrics, tool_call: outcome.tool_call })
            },
            ThreadMessage::Observation(m) => Err(
                DreamerError::InvalidResponseMessage(ThreadMessage::Observation(m)),
            ),
            ThreadMessage::Notification(m) => Err(
                DreamerError::InvalidResponseMessage(ThreadMessage::Notification(m)),
            ),
        }
    }
}

} // verus!
