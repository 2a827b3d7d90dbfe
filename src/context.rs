//! The context message: a transient message that a thread holds in a single slot.

use vstd::prelude::*;
use vstd::string::*;

use crate::error::DreamerError;
use crate::protocol::tag_text;
use crate::text::{has_prefix, trim_start, trimmed_tail};

verus! {

/// The tag for context messages.
pub const CONTEXT_TAG: &'static str = "[context]";

/// A message containing context. Its content always begins with `[context]`.
#[derive(Debug)]
pub struct ContextMessage {
    content: String,
}

impl View for ContextMessage {
    type V = Seq<char>;

    closed spec fn view(&self) -> Seq<char> {
        self.content@
    }
}

impl ContextMessage {
    #[verifier::type_invariant]
    spec fn is_tagged(&self) -> bool {
        CONTEXT_TAG@.is_prefix_of(self.content@)
    }

    /// Creates a new context message and tags it.
    pub fn new(text: &str) -> (r: Self)
        ensures
            r@ == CONTEXT_TAG@ + seq!['\n'] + text@,
    {
        let content = tag_text(CONTEXT_TAG, text);
        ContextMessage { content }
    }

    /// Reads a context message from a text whose first non-blank characters are
    /// the tag. The message keeps the text from the tag on.
    pub fn parse(s: &str) -> (r: Result<Self, DreamerError>)
        ensures
            r is Ok <==> CONTEXT_TAG@.is_prefix_of(trim_start(s@)),
            match r {
                Ok(m) => m@ == trim_start(s@),
                Err(DreamerError::InvalidContextMessage(t)) => t@ == trim_start(s@),
                Err(_) => false,
            },
    {
        assert(s@.skip(0) =~= s@);
        let s = trimmed_tail(s, 0);
        if has_prefix(s, CONTEXT_TAG) {
            Ok(ContextMessage { content: s.to_owned() })
        } else {
            Err(DreamerError::InvalidContextMessage(s.to_owned()))
        }
    }

    /// Returns the full content of the context.
    pub fn get_full_content(&self) -> (r: &str)
        ensures
            r@ == self@,
    {
        self.content.as_str()
    }

    /// Returns the main content of the context: what follows the tag and the white
    /// space after it.
    pub fn get_main_content(&self) -> (r: &str)
        ensures
            r@ == trim_start(self@.skip(CONTEXT_TAG@.len() as int)),
    {
        proof {
            use_type_invariant(self);
        }
        trimmed_tail(self.content.as_str(), CONTEXT_TAG.unicode_len())
    }
}

impl Clone for ContextMessage {
    fn clone(&self) -> (r: Self)
        ensures
            r@ == self@,
    {
        proof {
            use_type_invariant(self);
        }
        ContextMessage { content: self.content.clone() }
    }
}

impl std::str::FromStr for ContextMessage {
    type Err = DreamerError;

    fn from_str(s: &str) -> (r: Result<Self, DreamerError>)
        ensures
            r is Ok <==> CONTEXT_TAG@.is_prefix_of(trim_start(s@)),
            match r {
                Ok(m) => m@ == trim_start(s@),
                Err(DreamerError::InvalidContextMessage(t)) => t@ == trim_start(s@),
                Err(_) => false,
            },
    {
        Self::parse(s)
    }
}

} // verus!
