//! The conversation thread: a system instruction, an append-only history of
//! messages and an optional context slot, flattened into a prompt for the model.

use vstd::prelude::*;

use crate::context::ContextMessage;
use crate::prompt::{turn, Prompt, PromptMessage, Role, SystemMessage, Turn};
use crate::protocol::{MessageView, ThreadMessage};

verus! {

/// A thread as contracts see it.
pub struct ThreadView {
    /// The system instruction.
    pub system: Seq<char>,
    /// The messages in the order they were pushed.
    pub history: Seq<MessageView>,
    /// The full content of the context message, if one was set.
    pub context: Option<Seq<char>>,
}

/// The turns of a sequence of thread messages: one assistant turn each, whose text
/// is the message's full content, tag included.
pub open spec fn history_turns(history: Seq<MessageView>) -> Seq<Turn> {
    history.map_values(|m: MessageView| turn(Role::Assistant, m.content))
}

/// The prompt a thread flattens into: the system instruction first, then the
/// history in order, then the context last if there is one.
pub open spec fn flatten(t: ThreadView) -> Seq<Turn> {
    seq![turn(Role::System, t.system)] + history_turns(t.history) + match t.context {
        Some(c) => seq![turn(Role::Assistant, c)],
        None => Seq::<Turn>::empty(),
    }
}

/// A history of agent interactions.
#[derive(Debug)]
pub struct Thread {
    system: SystemMessage,
    history: Vec<ThreadMessage>,
    context: Option<ContextMessage>,
}

impl View for Thread {
    type V = ThreadView;

    closed spec fn view(&self) -> ThreadView {
        ThreadView {
            system: self.system.content@,
            history: self.history@.map_values(|m: ThreadMessage| m@),
            context: match self.context {
                Some(c) => Some(c@),
                None => None,
            },
        }
    }
}

impl Thread {
    /// Creates a thread with a system instruction, no history and no context.
    pub fn new(system_instruction: &str) -> (r: Self)
        ensures
            r@ == (ThreadView {
                system: system_instruction@,
                history: Seq::empty(),
                context: None,
            }),
    {
        let r = Thread {
            system: SystemMessage::new(system_instruction),
            history: Vec::new(),
            context: None,
        };
        assert(r@.history =~= Seq::<MessageView>::empty());
        r
    }

    /// Sets the context, replacing any earlier one.
    pub fn update_context(&mut self, message: ContextMessage)
        ensures
            final(self)@ == (ThreadView { context: Some(message@), ..old(self)@ }),
    {
        self.context = Some(message);
    }

    /// Appends a message to the history.
    pub fn push_message(&mut self, message: ThreadMessage)
        ensures
            final(self)@ == (ThreadView { history: old(self)@.history.push(message@), ..old(self)@ }),
    {
        self.history.push(message);
        assert(self@.history =~= old(self)@.history.push(message@));
    }

    /// The system instruction.
    pub fn system_instruction(&self) -> (r: &str)
        ensures
            r@ == self@.system,
    {
        self.system.content.as_str()
    }

    /// The number of messages in the history.
    pub fn history_len(&self) -> (r: usize)
        ensures
            r == self@.history.len(),
    {
        self.history.len()
    }

    /// The message at position `i` of the history.
    pub fn history_at(&self, i: usize) -> (r: &ThreadMessage)
        requires
            i < self@.history.len(),
        ensures
            r@ == self@.history[i as int],
    {
        &self.history[i]
    }

    /// The context message, if one was set.
    pub fn context(&self) -> (r: Option<&ContextMessage>)
        ensures
            match r {
                Some(c) => self@.context == Some(c@),
                None => self@.context is None,
            },
    {
        match &self.context {
            Some(c) => Some(c),
            None => None,
        }
    }

    /// Flattens the thread into a prompt, leaving the thread as it is.
    pub fn to_prompt(&self) -> (r: Prompt)
        ensures
            r@ == flatten(self@),
    {
        let mut prompt = Prompt::new();
        prompt.push(PromptMessage::system(self.system.content.as_str()));
        let mut i: usize = 0;
        while i < self.history.len()
            invariant
                i <= self.history@.len(),
                prompt@ == seq![turn(Role::System, self@.system)] + history_turns(
                    self@.history.take(i as int),
                ),
            decreases self.history@.len() - i,
        {
            prompt.push(PromptMessage::assistant(self.history[i].get_full_content()));
            assert(self@.history.take(i + 1) =~= self@.history.take(i as int).push(
                self@.history[i as int],
            ));
            assert(history_turns(self@.history.take(i + 1)) =~= history_turns(
                self@.history.take(i as int),
            ).push(turn(Role::Assistant, self@.history[i as int].content)));
            i = i + 1;
        }
        assert(self@.history.take(i as int) =~= self@.history);
        if let Some(c) = &self.context {
            prompt.push(PromptMessage::assistant(c.get_full_content()));
        }
        assert(prompt@ =~= flatten(self@));
        prompt
    }

    /// Flattens the thread into a prompt, consuming it.
    pub fn into_prompt(self) -> (r: Prompt)
        ensures
            r@ == flatten(self@),
    {
        self.to_prompt()
    }
}

impl Clone for Thread {
    fn clone(&self) -> (r: Self)
        ensures
            r@ == self@,
    {
        let mut history: Vec<ThreadMessage> = Vec::new();
        let mut i: usize = 0;
        while i < self.history.len()
            invariant
                i <= self.history@.len(),
                history@.len() == i,
                forall|j: int| 0 <= j < i ==> history@[j]@ == self.history@[j]@,
            decreases self.history@.len() - i,
        {
            history.push(self.history[i].clone());
            i = i + 1;
        }
        let context = match &self.context {
            Some(c) => Some(c.clone()),
            None => None,
        };
        let r = Thread { system: self.system.clone(), history, context };
        assert(r@.history =~= self@.history);
        r
    }
}

/// A thread with system instruction `s`, history `[m1, m2]` and context `c`
/// flattens into exactly four turns, in the order `s`, `m1`, `m2`, `c`; without a
/// context, into the first three.
pub proof fn lemma_flatten_two_messages(s: Seq<char>, m1: MessageView, m2: MessageView, c: Seq<char>)
    ensures
        flatten(ThreadView { system: s, history: seq![m1, m2], context: Some(c) }) == seq![
            turn(Role::System, s),
            turn(Role::Assistant, m1.content),
            turn(Role::Assistant, m2.content),
            turn(Role::Assistant, c),
        ],
        flatten(ThreadView { system: s, history: seq![m1, m2], context: None }) == seq![
            turn(Role::System, s),
            turn(Role::Assistant, m1.content),
            turn(Role::Assistant, m2.content),
        ],
{
    assert(flatten(ThreadView { system: s, history: seq![m1, m2], context: Some(c) }) =~= seq![
        turn(Role::System, s),
        turn(Role::Assistant, m1.content),
        turn(Role::Assistant, m2.content),
        turn(Role::Assistant, c),
    ]);
    assert(flatten(ThreadView { system: s, history: seq![m1, m2], context: None }) =~= seq![
        turn(Role::System, s),
        turn(Role::Assistant, m1.content),
        turn(Role::Assistant, m2.content),
    ]);
}

} // verus!
