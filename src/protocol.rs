//! The tagged message protocol: four kinds of message, each a text that begins
//! with its kind's tag. Parsing checks the tag; the main content is the text after
//! the tag and the white space that follows it.

use vstd::prelude::*;
use vstd::string::*;

use crate::error::DreamerError;
use crate::text::{ends_with, has_prefix, has_suffix, trim_start, trimmed_tail};

verus! {

/// The tag for thought messages.
pub const THOUGHT_TAG: &'static str = "[thought]";

/// The tag for action messages.
pub const ACTION_TAG: &'static str = "[action]";

/// The tag for observation messages.
pub const OBSERVATION_TAG: &'static str = "[observation]";

/// The tag for notification messages.
pub const NOTIFICATION_TAG: &'static str = "[notification]";

/// The suffix that marks a thought or an observation as incomplete.
pub const INCOMPLETE_SUFFIX: &'static str = "...";

/// The four kinds of message of the protocol.
#[derive(Clone, Copy, Debug, PartialEq, Eq, Structural)]
pub enum MessageKind {
    Thought,
    Action,
    Observation,
    Notification,
}

/// The tag that a message of kind `k` begins with.
pub open spec fn tag_of(k: MessageKind) -> Seq<char> {
    match k {
        MessageKind::Thought => THOUGHT_TAG@,
        MessageKind::Action => ACTION_TAG@,
        MessageKind::Observation => OBSERVATION_TAG@,
        MessageKind::Notification => NOTIFICATION_TAG@,
    }
}

/// The full content of a message of kind `k` built from `text`: the tag, a newline, the text.
pub open spec fn tagged(k: MessageKind, text: Seq<char>) -> Seq<char> {
    tag_of(k) + seq!['\n'] + text
}

/// The main content of a message of kind `k` whose full content is `content`.
pub open spec fn main_of(k: MessageKind, content: Seq<char>) -> Seq<char> {
    trim_start(content.skip(tag_of(k).len() as int))
}

/// Whether a main content marks its message as incomplete.
pub open spec fn incomplete(main: Seq<char>) -> bool {
    ends_with(main, INCOMPLETE_SUFFIX@)
}

/// The kind of message that a raw text is, by its tag, tried in the order thought,
/// action, observation, notification; `None` when it begins with none of them.
pub open spec fn kind_of(s: Seq<char>) -> Option<MessageKind> {
    if THOUGHT_TAG@.is_prefix_of(s) {
        Some(MessageKind::Thought)
    } else if ACTION_TAG@.is_prefix_of(s) {
        Some(MessageKind::Action)
    } else if OBSERVATION_TAG@.is_prefix_of(s) {
        Some(MessageKind::Observation)
    } else if NOTIFICATION_TAG@.is_prefix_of(s) {
        Some(MessageKind::Notification)
    } else {
        None
    }
}

/// Builds `tag`, a newline, then `text`.
pub(crate) fn tag_text(tag: &str, text: &str) -> (r: String)
    ensures
        r@ == tag@ + seq!['\n'] + text@,
{
    let mut s = tag.to_owned();
    s.append("\n");
    proof {
        reveal_strlit("\n");
    }
    s.append(text);
    s
}

/// A `ThoughtMessage` is produced by the agent to show its thought process. An
/// unfinished thought ends with `...`.
///
/// Its content always begins with `[thought]`.
#[derive(Debug)]
pub struct ThoughtMessage {
    content: String,
}

impl View for ThoughtMessage {
    type V = Seq<char>;

    closed spec fn view(&self) -> Seq<char> {
        self.content@
    }
}

impl ThoughtMessage {
    #[verifier::type_invariant]
    spec fn is_tagged(&self) -> bool {
        THOUGHT_TAG@.is_prefix_of(self.content@)
    }

    /// Creates a new thought message and tags it.
    pub fn new(text: &str) -> (r: Self)
        ensures
            r@ == tagged(MessageKind::Thought, text@),
    {
        let content = tag_text(THOUGHT_TAG, text);
        ThoughtMessage { content }
    }

    /// Reads a thought message from a text that begins with its tag.
    pub fn parse(s: &str) -> (r: Result<Self, DreamerError>)
        ensures
            r is Ok <==> THOUGHT_TAG@.is_prefix_of(s@),
            match r {
                Ok(m) => m@ == s@,
                Err(DreamerError::InvalidThoughtMessage(t)) => t@ == s@,
                Err(_) => false,
            },
    {
        if has_prefix(s, THOUGHT_TAG) {
            Ok(ThoughtMessage { content: s.to_owned() })
        } else {
            Err(DreamerError::InvalidThoughtMessage(s.to_owned()))
        }
    }

    /// Returns the full content of the thought.
    pub fn get_full_content(&self) -> (r: &str)
        ensures
            r@ == self@,
    {
        self.content.as_str()
    }

    /// Returns the main content of the thought: what follows the tag and the white space after it.
    pub fn get_main_content(&self) -> (r: &str)
        ensures
            r@ == main_of(MessageKind::Thought, self@),
    {
        proof {
            use_type_invariant(self);
        }
        trimmed_tail(self.content.as_str(), THOUGHT_TAG.unicode_len())
    }


    /// Returns true if the thought is incomplete: its main content ends with `...`.
    pub fn is_incomplete(&self) -> (r: bool)
        ensures
            r == incomplete(main_of(MessageKind::Thought, self@)),
    {
        has_suffix(self.get_main_content(), INCOMPLETE_SUFFIX)
    }

}

impl Clone for ThoughtMessage {
    fn clone(&self) -> (r: Self)
        ensures
            r@ == self@,
    {
        proof {
            use_type_invariant(self);
        }
        ThoughtMessage { content: self.content.clone() }
    }
}

impl std::str::FromStr for ThoughtMessage {
    type Err = DreamerError;

    fn from_str(s: &str) -> (r: Result<Self, DreamerError>)
        ensures
            r is Ok <==> THOUGHT_TAG@.is_prefix_of(s@),
            match r {
                Ok(m) => m@ == s@,
                Err(DreamerError::InvalidThoughtMessage(t)) => t@ == s@,
                Err(_) => false,
            },
    {
        Self::parse(s)
    }
}

/// An `ActionMessage` is produced by the agent to request a tool invocation.
///
/// Its content always begins with `[action]`.
#[derive(Debug)]
pub struct ActionMessage {
    content: String,
}

impl View for ActionMessage {
    type V = Seq<char>;

    closed spec fn view(&self) -> Seq<char> {
        self.content@
    }
}

impl ActionMessage {
    #[verifier::type_invariant]
    spec fn is_tagged(&self) -> bool {
        ACTION_TAG@.is_prefix_of(self.content@)
    }

    /// Creates a new action message and tags it.
    pub fn new(text: &str) -> (r: Self)
        ensures
            r@ == tagged(MessageKind::Action, text@),
    {
        let content = tag_text(ACTION_TAG, text);
        ActionMessage { content }
    }

    /// Reads a action message from a text that begins with its tag.
    pub fn parse(s: &str) -> (r: Result<Self, DreamerError>)
        ensures
            r is Ok <==> ACTION_TAG@.is_prefix_of(s@),
            match r {
                Ok(m) => m@ == s@,
                Err(DreamerError::InvalidActionMessage(t)) => t@ == s@,
                Err(_) => false,
            },
    {
        if has_prefix(s, ACTION_TAG) {
            Ok(ActionMessage { content: s.to_owned() })
        } else {
            Err(DreamerError::InvalidActionMessage(s.to_owned()))
        }
    }

    /// Returns the full content of the action.
    pub fn get_full_content(&self) -> (r: &str)
        ensures
            r@ == self@,
    {
        self.content.as_str()
    }

    /// Returns the main content of the action: what follows the tag and the white space after it.
    pub fn get_main_content(&self) -> (r: &str)
        ensures
            r@ == main_of(MessageKind::Action, self@),
    {
        proof {
            use_type_invariant(self);
        }
        trimmed_tail(self.content.as_str(), ACTION_TAG.unicode_len())
    }

}

impl Clone for ActionMessage {
    fn clone(&self) -> (r: Self)
        ensures
            r@ == self@,
    {
        proof {
            use_type_invariant(self);
        }
        ActionMessage { content: self.content.clone() }
    }
}

impl std::str::FromStr for ActionMessage {
    type Err = DreamerError;

    fn from_str(s: &str) -> (r: Result<Self, DreamerError>)
        ensures
            r is Ok <==> ACTION_TAG@.is_prefix_of(s@),
            match r {
                Ok(m) => m@ == s@,
                Err(DreamerError::InvalidActionMessage(t)) => t@ == s@,
                Err(_) => false,
            },
    {
        Self::parse(s)
    }
}

/// An `ObservationMessage` is produced by the system to report the result of an
/// action. It may end with `...` when incomplete.
///
/// Its content always begins with `[observation]`.
#[derive(Debug)]
pub struct ObservationMessage {
    content: String,
}

impl View for ObservationMessage {
    type V = Seq<char>;

    closed spec fn view(&self) -> Seq<char> {
        self.content@
    }
}

impl ObservationMessage {
    #[verifier::type_invariant]
    spec fn is_tagged(&self) -> bool {
        OBSERVATION_TAG@.is_prefix_of(self.content@)
    }

    /// Creates a new observation message and tags it.
    pub fn new(text: &str) -> (r: Self)
        ensures
            r@ == tagged(MessageKind::Observation, text@),
    {
        let content = tag_text(OBSERVATION_TAG, text);
        ObservationMessage { content }
    }

    /// Reads a observation message from a text that begins with its tag.
    pub fn parse(s: &str) -> (r: Result<Self, DreamerError>)
        ensures
            r is Ok <==> OBSERVATION_TAG@.is_prefix_of(s@),
            match r {
                Ok(m) => m@ == s@,
                Err(DreamerError::InvalidObservationMessage(t)) => t@ == s@,
                Err(_) => false,
            },
    {
        if has_prefix(s, OBSERVATION_TAG) {
            Ok(ObservationMessage { content: s.to_owned() })
        } else {
            Err(DreamerError::InvalidObservationMessage(s.to_owned()))
        }
    }

    /// Returns the full content of the observation.
    pub fn get_full_content(&self) -> (r: &str)
        ensures
            r@ == self@,
    {
        self.content.as_str()
    }

    /// Returns the main content of the observation: what follows the tag and the white space after it.
    pub fn get_main_content(&self) -> (r: &str)
        ensures
            r@ == main_of(MessageKind::Observation, self@),
    {
        proof {
            use_type_invariant(self);
        }
        trimmed_tail(self.content.as_str(), OBSERVATION_TAG.unicode_len())
    }


    /// Returns true if the observation is incomplete: its main content ends with `...`.
    pub fn is_incomplete(&self) -> (r: bool)
        ensures
            r == incomplete(main_of(MessageKind::Observation, self@)),
    {
        has_suffix(self.get_main_content(), INCOMPLETE_SUFFIX)
    }

}

impl Clone for ObservationMessage {
    fn clone(&self) -> (r: Self)
        ensures
            r@ == self@,
    {
        proof {
            use_type_invariant(self);
        }
        ObservationMessage { content: self.content.clone() }
    }
}

impl std::str::FromStr for ObservationMessage {
    type Err = DreamerError;

    fn from_str(s: &str) -> (r: Result<Self, DreamerError>)
        ensures
            r is Ok <==> OBSERVATION_TAG@.is_prefix_of(s@),
            match r {
                Ok(m) => m@ == s@,
                Err(DreamerError::InvalidObservationMessage(t)) => t@ == s@,
                Err(_) => false,
            },
    {
        Self::parse(s)
    }
}

/// A `NotificationMessage` is produced by the system to tell the agent about an
/// event.
///
/// Its content always begins with `[notification]`.
#[derive(Debug)]
pub struct NotificationMessage {
    content: String,
}

impl View for NotificationMessage {
    type V = Seq<char>;

    closed spec fn view(&self) -> Seq<char> {
        self.content@
    }
}

impl NotificationMessage {
    #[verifier::type_invariant]
    spec fn is_tagged(&self) -> bool {
        NOTIFICATION_TAG@.is_prefix_of(self.content@)
    }

    /// Creates a new notification message and tags it.
    pub fn new(text: &str) -> (r: Self)
        ensures
            r@ == tagged(MessageKind::Notification, text@),
    {
        let content = tag_text(NOTIFICATION_TAG, text);
        NotificationMessage { content }
    }

    /// Reads a notification message from a text that begins with its tag.
    pub fn parse(s: &str) -> (r: Result<Self, DreamerError>)
        ensures
            r is Ok <==> NOTIFICATION_TAG@.is_prefix_of(s@),
            match r {
                Ok(m) => m@ == s@,
                Err(DreamerError::InvalidNotificationMessage(t)) => t@ == s@,
                Err(_) => false,
            },
    {
        if has_prefix(s, NOTIFICATION_TAG) {
            Ok(NotificationMessage { content: s.to_owned() })
        } else {
            Err(DreamerError::InvalidNotificationMessage(s.to_owned()))
        }
    }

    /// Returns the full content of the notification.
    pub fn get_full_content(&self) -> (r: &str)
        ensures
            r@ == self@,
    {
        self.content.as_str()
    }

    /// Returns the main content of the notification: what follows the tag and the white space after it.
    pub fn get_main_content(&self) -> (r: &str)
        ensures
            r@ == main_of(MessageKind::Notification, self@),
    {
        proof {
            use_type_invariant(self);
        }
        trimmed_tail(self.content.as_str(), NOTIFICATION_TAG.unicode_len())
    }

}

impl Clone for NotificationMessage {
    fn clone(&self) -> (r: Self)
        ensures
            r@ == self@,
    {
        proof {
            use_type_invariant(self);
        }
        NotificationMessage { content: self.content.clone() }
    }
}

impl std::str::FromStr for NotificationMessage {
    type Err = DreamerError;

    fn from_str(s: &str) -> (r: Result<Self, DreamerError>)
        ensures
            r is Ok <==> NOTIFICATION_TAG@.is_prefix_of(s@),
            match r {
                Ok(m) => m@ == s@,
                Err(DreamerError::InvalidNotificationMessage(t)) => t@ == s@,
                Err(_) => false,
            },
    {
        Self::parse(s)
    }
}

/// A thread message as contracts see it: its kind and its full content.
pub struct MessageView {
    pub kind: MessageKind,
    pub content: Seq<char>,
}

/// A message in the thread.
#[derive(Debug)]
pub enum ThreadMessage {
    /// A thought message.
    Thought(ThoughtMessage),
    /// An action message.
    Action(ActionMessage),
    /// An observation message.
    Observation(ObservationMessage),
    /// A notification message.
    Notification(NotificationMessage),
}

impl View for ThreadMessage {
    type V = MessageView;

    open spec fn view(&self) -> MessageView {
        match self {
            ThreadMessage::Thought(m) => MessageView { kind: MessageKind::Thought, content: m@ },
            ThreadMessage::Action(m) => MessageView { kind: MessageKind::Action, content: m@ },
            ThreadMessage::Observation(m) => MessageView {
                kind: MessageKind::Observation,
                content: m@,
            },
            ThreadMessage::Notification(m) => MessageView {
                kind: MessageKind::Notification,
                content: m@,
            },
        }
    }
}

impl ThreadMessage {
    /// Creates a new thought message and tags it.
    pub fn thought(text: &str) -> (r: Self)
        ensures
            r is Thought,
            r@ == (MessageView { kind: MessageKind::Thought, content: tagged(MessageKind::Thought, text@) }),
    {
        ThreadMessage::Thought(ThoughtMessage::new(text))
    }

    /// Creates a new action message and tags it.
    pub fn action(text: &str) -> (r: Self)
        ensures
            r is Action,
            r@ == (MessageView { kind: MessageKind::Action, content: tagged(MessageKind::Action, text@) }),
    {
        ThreadMessage::Action(ActionMessage::new(text))
    }

    /// Creates a new observation message and tags it.
    pub fn observation(text: &str) -> (r: Self)
        ensures
            r is Observation,
            r@ == (MessageView { kind: MessageKind::Observation, content: tagged(MessageKind::Observation, text@) }),
    {
        ThreadMessage::Observation(ObservationMessage::new(text))
    }

    /// Creates a new notification message and tags it.
    pub fn notification(text: &str) -> (r: Self)
        ensures
            r is Notification,
            r@ == (MessageView { kind: MessageKind::Notification, content: tagged(MessageKind::Notification, text@) }),
    {
        ThreadMessage::Notification(NotificationMessage::new(text))
    }

    /// Classifies a raw text by its tag, tried in the order thought, action,
    /// observation, notification. The message holds the whole text.
    pub fn classify(raw: &str) -> (r: Result<Self, DreamerError>)
        ensures
            r is Ok <==> kind_of(raw@) is Some,
            match r {
                Ok(m) => m@ == (MessageView { kind: kind_of(raw@)->Some_0, content: raw@ }),
                Err(DreamerError::InvalidThreadMessage(t)) => t@ == raw@,
                Err(_) => false,
            },
    {
        if let Ok(m) = ThoughtMessage::parse(raw) {
            return Ok(ThreadMessage::Thought(m));
        }
        if let Ok(m) = ActionMessage::parse(raw) {
            return Ok(ThreadMessage::Action(m));
        }
        if let Ok(m) = ObservationMessage::parse(raw) {
            return Ok(ThreadMessage::Observation(m));
        }
        if let Ok(m) = NotificationMessage::parse(raw) {
            return Ok(ThreadMessage::Notification(m));
        }
        Err(DreamerError::InvalidThreadMessage(raw.to_owned()))
    }

    /// The kind of the message.
    pub fn kind(&self) -> (r: MessageKind)
        ensures
            r == self@.kind,
    {
        match self {
            ThreadMessage::Thought(_) => MessageKind::Thought,
            ThreadMessage::Action(_) => MessageKind::Action,
            ThreadMessage::Observation(_) => MessageKind::Observation,
            ThreadMessage::Notification(_) => MessageKind::Notification,
        }
    }

    /// Returns the full content of the message, tag included.
    pub fn get_full_content(&self) -> (r: &str)
        ensures
            r@ == self@.content,
    {
        match self {
            ThreadMessage::Thought(m) => m.get_full_content(),
            ThreadMessage::Action(m) => m.get_full_content(),
            ThreadMessage::Observation(m) => m.get_full_content(),
            ThreadMessage::Notification(m) => m.get_full_content(),
        }
    }

    /// Returns the main content of the message: what follows the tag and the white
    /// space after it.
    pub fn get_main_content(&self) -> (r: &str)
        ensures
            r@ == main_of(self@.kind, self@.content),
    {
        match self {
            ThreadMessage::Thought(m) => m.get_main_content(),
            ThreadMessage::Action(m) => m.get_main_content(),
            ThreadMessage::Observation(m) => m.get_main_content(),
            ThreadMessage::Notification(m) => m.get_main_content(),
        }
    }
}

impl Clone for ThreadMessage {
    fn clone(&self) -> (r: Self)
        ensures
            r@ == self@,
    {
        match self {
            ThreadMessage::Thought(m) => ThreadMessage::Thought(m.clone()),
            ThreadMessage::Action(m) => ThreadMessage::Action(m.clone()),
            ThreadMessage::Observation(m) => ThreadMessage::Observation(m.clone()),
            ThreadMessage::Notification(m) => ThreadMessage::Notification(m.clone()),
        }
    }
}

impl std::str::FromStr for ThreadMessage {
    type Err = DreamerError;

    fn from_str(s: &str) -> (r: Result<Self, DreamerError>)
        ensures
            r is Ok <==> kind_of(s@) is Some,
            match r {
                Ok(m) => m@ == (MessageView { kind: kind_of(s@)->Some_0, content: s@ }),
                Err(DreamerError::InvalidThreadMessage(t)) => t@ == s@,
                Err(_) => false,
            },
    {
        Self::classify(s)
    }
}

/// Building a message of any kind from a text and classifying its full content
/// gives back that kind, and the main content is the text without its leading
/// white space.
pub proof fn lemma_round_trip(k: MessageKind, text: Seq<char>)
    ensures
        kind_of(tagged(k, text)) == Some(k),
        main_of(k, tagged(k, text)) == trim_start(text),
{
    reveal_strlit("[thought]");
    reveal_strlit("[action]");
    reveal_strlit("[observation]");
    reveal_strlit("[notification]");
    let s = tagged(k, text);
    assert(tag_of(k).is_prefix_of(s)) by {
        assert(s.take(tag_of(k).len() as int) =~= tag_of(k));
    }
    if k != MessageKind::Thought {
        assert(s[1] != THOUGHT_TAG@[1] || s[2] != THOUGHT_TAG@[2]);
    }
    if k == MessageKind::Observation || k == MessageKind::Notification {
        assert(s[1] != ACTION_TAG@[1]);
    }
    if k == MessageKind::Notification {
        assert(s[1] != OBSERVATION_TAG@[1]);
    }
    let rest = s.skip(tag_of(k).len() as int);
    assert(rest =~= seq!['\n'] + text);
    assert(rest.drop_first() =~= text);
}

/// A text that begins with none of the four tags is no message; the empty text
/// is one such.
pub proof fn lemma_untagged_rejected(s: Seq<char>)
    ensures
        kind_of(s) is None <==> (forall|k: MessageKind| !tag_of(k).is_prefix_of(s)),
        kind_of(Seq::<char>::empty()) is None,
{
    reveal_strlit("[thought]");
    reveal_strlit("[action]");
    reveal_strlit("[observation]");
    reveal_strlit("[notification]");
    if kind_of(s) is None {
        assert forall|k: MessageKind| !tag_of(k).is_prefix_of(s) by {
            match k {
                MessageKind::Thought => {},
                MessageKind::Action => {},
                MessageKind::Observation => {},
                MessageKind::Notification => {},
            }
        }
    } else {
        let k = kind_of(s)->Some_0;
        assert(tag_of(k).is_prefix_of(s));
    }
}

} // verus!
