//! Prompts: the provider-agnostic input to a text model, an ordered list of turns
//! each with a role and a text.

use vstd::prelude::*;

verus! {

/// The author of a turn of a prompt.
#[derive(Clone, Copy, Debug, PartialEq, Eq, Structural)]
pub enum Role {
    System,
    User,
    Assistant,
}

/// A turn as contracts see it: its role and its text.
pub struct Turn {
    pub role: Role,
    pub text: Seq<char>,
}

/// The turn of role `role` with text `text`.
pub open spec fn turn(role: Role, text: Seq<char>) -> Turn {
    Turn { role, text }
}

/// A system message: a message that sets the context for the conversation.
#[derive(Debug)]
pub struct SystemMessage {
    /// The content of the message.
    pub content: String,
}

impl SystemMessage {
    /// Creates a new system message.
    pub fn new(content: &str) -> (r: Self)
        ensures
            r.content@ == content@,
    {
        SystemMessage { content: content.to_owned() }
    }
}

impl Clone for SystemMessage {
    fn clone(&self) -> (r: Self)
        ensures
            r.content@ == self.content@,
    {
        SystemMessage { content: self.content.clone() }
    }
}

impl PartialEq for SystemMessage {
    fn eq(&self, other: &SystemMessage) -> (r: bool) {
        self.content == other.content
    }
}

impl vstd::std_specs::cmp::PartialEqSpecImpl for SystemMessage {
    open spec fn obeys_eq_spec() -> bool {
        true
    }

    open spec fn eq_spec(&self, other: &SystemMessage) -> bool {
        self.content@ == other.content@
    }
}

impl Eq for SystemMessage {

}

/// A user message: a message that the user sends to the assistant.
#[derive(Debug)]
pub struct UserMessage {
    /// The content of the message.
    pub content: String,
}

impl UserMessage {
    /// Creates a new user message.
    pub fn new(content: &str) -> (r: Self)
        ensures
            r.content@ == content@,
    {
        UserMessage { content: content.to_owned() }
    }
}

impl Clone for UserMessage {
    fn clone(&self) -> (r: Self)
        ensures
            r.content@ == self.content@,
    {
        UserMessage { content: self.content.clone() }
    }
}

impl PartialEq for UserMessage {
    fn eq(&self, other: &UserMessage) -> (r: bool) {
        self.content == other.content
    }
}

impl vstd::std_specs::cmp::PartialEqSpecImpl for UserMessage {
    open spec fn obeys_eq_spec() -> bool {
        true
    }

    open spec fn eq_spec(&self, other: &UserMessage) -> bool {
        self.content@ == other.content@
    }
}

impl Eq for UserMessage {

}

/// A assistant message: a message that the assistant sends to the user.
#[derive(Debug)]
pub struct AssistantMessage {
    /// The content of the message.
    pub content: String,
}

impl AssistantMessage {
    /// Creates a new assistant message.
    pub fn new(content: &str) -> (r: Self)
        ensures
            r.content@ == content@,
    {
        AssistantMessage { content: content.to_owned() }
    }
}

impl Clone for AssistantMessage {
    fn clone(&self) -> (r: Self)
        ensures
            r.content@ == self.content@,
    {
        AssistantMessage { content: self.content.clone() }
    }
}

impl PartialEq for AssistantMessage {
    fn eq(&self, other: &AssistantMessage) -> (r: bool) {
        self.content == other.content
    }
}

impl vstd::std_specs::cmp::PartialEqSpecImpl for AssistantMessage {
    open spec fn obeys_eq_spec() -> bool {
        true
    }

    open spec fn eq_spec(&self, other: &AssistantMessage) -> bool {
        self.content@ == other.content@
    }
}

impl Eq for AssistantMessage {

}

/// A single message of a prompt.
#[derive(Debug)]
pub enum PromptMessage {
    /// A message that sets the context for the conversation.
    System(SystemMessage),
    /// A message that assumes the role of the user.
    User(UserMessage),
    /// A message that assumes the role of the assistant.
    Assistant(AssistantMessage),
}

impl View for PromptMessage {
    type V = Turn;

    open spec fn view(&self) -> Turn {
        match self {
            PromptMessage::System(m) => turn(Role::System, m.content@),
            PromptMessage::User(m) => turn(Role::User, m.content@),
            PromptMessage::Assistant(m) => turn(Role::Assistant, m.content@),
        }
    }
}

impl PromptMessage {
    /// Creates a new system message.
    pub fn system(content: &str) -> (r: Self)
        ensures
            r@ == turn(Role::System, content@),
    {
        PromptMessage::System(SystemMessage::new(content))
    }

    /// Creates a new user message.
    pub fn user(content: &str) -> (r: Self)
        ensures
            r@ == turn(Role::User, content@),
    {
        PromptMessage::User(UserMessage::new(content))
    }

    /// Creates a new assistant message.
    pub fn assistant(content: &str) -> (r: Self)
        ensures
            r@ == turn(Role::Assistant, content@),
    {
        PromptMessage::Assistant(AssistantMessage::new(content))
    }

    /// The role of the message.
    pub fn role(&self) -> (r: Role)
        ensures
            r == self@.role,
    {
        match self {
            PromptMessage::System(_) => Role::System,
            PromptMessage::User(_) => Role::User,
            PromptMessage::Assistant(_) => Role::Assistant,
        }
    }

    /// The text of the message.
    pub fn content(&self) -> (r: &str)
        ensures
            r@ == self@.text,
    {
        match self {
            PromptMessage::System(m) => m.content.as_str(),
            PromptMessage::User(m) => m.content.as_str(),
            PromptMessage::Assistant(m) => m.content.as_str(),
        }
    }
}

impl Clone for PromptMessage {
    fn clone(&self) -> (r: Self)
        ensures
            r@ == self@,
    {
        match self {
            PromptMessage::System(m) => PromptMessage::System(m.clone()),
            PromptMessage::User(m) => PromptMessage::User(m.clone()),
            PromptMessage::Assistant(m) => PromptMessage::Assistant(m.clone()),
        }
    }
}

impl PartialEq for PromptMessage {
    fn eq(&self, other: &PromptMessage) -> (r: bool) {
        match (self, other) {
            (PromptMessage::System(a), PromptMessage::System(b)) => a.content == b.content,
            (PromptMessage::User(a), PromptMessage::User(b)) => a.content == b.content,
            (PromptMessage::Assistant(a), PromptMessage::Assistant(b)) => a.content == b.content,
            _ => false,
        }
    }
}

impl vstd::std_specs::cmp::PartialEqSpecImpl for PromptMessage {
    open spec fn obeys_eq_spec() -> bool {
        true
    }

    open spec fn eq_spec(&self, other: &PromptMessage) -> bool {
        self@ == other@
    }
}

impl Eq for PromptMessage {

}

/// The turns of a list of prompt messages.
pub open spec fn turns_of(messages: Seq<PromptMessage>) -> Seq<Turn> {
    messages.map_values(|m: PromptMessage| m@)
}

/// A prompt: the ordered messages that serve as input to a model.
#[derive(Debug)]
pub struct Prompt {
    messages: Vec<PromptMessage>,
}

impl View for Prompt {
    type V = Seq<Turn>;

    closed spec fn view(&self) -> Seq<Turn> {
        turns_of(self.messages@)
    }
}

impl Prompt {
    /// Creates an empty prompt.
    pub fn new() -> (r: Self)
        ensures
            r@ == Seq::<Turn>::empty(),
    {
        let r = Prompt { messages: Vec::new() };
        assert(r@ =~= Seq::<Turn>::empty());
        r
    }

    /// Adds a message at the end of the prompt.
    pub fn push(&mut self, message: PromptMessage)
        ensures
            final(self)@ == old(self)@.push(message@),
    {
        self.messages.push(message);
        assert(self@ =~= old(self)@.push(message@));
    }

    /// Removes the last message of the prompt and returns it, if there is one.
    pub fn pop(&mut self) -> (r: Option<PromptMessage>)
        ensures
            old(self)@.len() == 0 ==> r is None && final(self)@ == old(self)@,
            old(self)@.len() > 0 ==> r is Some && r->Some_0@ == old(self)@.last()
                && final(self)@ == old(self)@.drop_last(),
    {
        let r = self.messages.pop();
        assert(self@ =~= old(self)@.take(self@.len() as int));
        r
    }

    /// Adds a message at the end of the prompt.
    pub fn add_message(&mut self, message: PromptMessage)
        ensures
            final(self)@ == old(self)@.push(message@),
    {
        self.push(message);
    }

    /// The number of messages in the prompt.
    pub fn len(&self) -> (r: usize)
        ensures
            r == self@.len(),
    {
        self.messages.len()
    }

    /// Whether the prompt has no message.
    pub fn is_empty(&self) -> (r: bool)
        ensures
            r == (self@.len() == 0),
    {
        self.messages.len() == 0
    }

    /// The messages of the prompt, in order.
    pub fn messages(&self) -> (r: &Vec<PromptMessage>)
        ensures
            turns_of(r@) == self@,
    {
        &self.messages
    }

    /// Gives up the prompt for its messages, in order.
    pub fn into_messages(self) -> (r: Vec<PromptMessage>)
        ensures
            turns_of(r@) == self@,
    {
        self.messages
    }
}

impl Default for Prompt {
    fn default() -> (r: Self)
        ensures
            r@ == Seq::<Turn>::empty(),
    {
        Prompt::new()
    }
}

} // verus!
