//! The builder of a `Dreamer`.

use vstd::prelude::*;

use crate::agent::{names, Dreamer, DreamerView, DREAMER_SYSTEM_INSTRUCTION};
use crate::thread::ThreadView;

verus! {

/// A builder as contracts see it: the names of the tools and the system
/// instruction, if one was given.
pub struct DreamerBuilderView {
    pub tools: Seq<Seq<char>>,
    pub system_instruction: Option<Seq<char>>,
}

/// The builder for a `Dreamer`.
#[derive(Debug)]
pub struct DreamerBuilder {
    tools: Vec<String>,
    system_instruction: Option<String>,
}

impl View for DreamerBuilder {
    type V = DreamerBuilderView;

    closed spec fn view(&self) -> DreamerBuilderView {
        DreamerBuilderView {
            tools: names(self.tools@),
            system_instruction: match self.system_instruction {
                Some(s) => Some(s@),
                None => None,
            },
        }
    }
}

impl DreamerBuilder {
    /// A builder with no tools and no system instruction.
    pub fn new() -> (r: Self)
        ensures
            r@ == (DreamerBuilderView { tools: Seq::empty(), system_instruction: None }),
    {
        let r = DreamerBuilder { tools: Vec::new(), system_instruction: None };
        assert(r@.tools =~= Seq::<Seq<char>>::empty());
        r
    }

    /// Sets the names of the tools that the host runs for the dreamer.
    pub fn tools(self, tools: Vec<String>) -> (r: Self)
        ensures
            r@ == (DreamerBuilderView { tools: names(tools@), ..self@ }),
    {
        DreamerBuilder { tools, ..self }
    }

    /// Sets the system instruction of the dreamer.
    pub fn system_instruction(self, system_instruction: String) -> (r: Self)
        ensures
            r@ == (DreamerBuilderView { system_instruction: Some(system_instruction@), ..self@ }),
    {
        DreamerBuilder { system_instruction: Some(system_instruction), ..self }
    }

    /// Builds an idle dreamer with the tools and the system instruction given, or
    /// the default instruction when none was.
    pub fn build(self) -> (r: Dreamer)
        ensures
            r@ == (DreamerView {
                thread: ThreadView {
                    system: match self@.system_instruction {
                        Some(s) => s,
                        None => DREAMER_SYSTEM_INSTRUCTION@,
                    },
                    history: Seq::empty(),
                    context: None,
                },
                inbox: None,
                tools: self@.tools,
                idle: true,
            }),
    {
        match self.system_instruction {
            Some(s) => Dreamer::new(s.as_str(), self.tools),
            None => Dreamer::new(DREAMER_SYSTEM_INSTRUCTION, self.tools),
        }
    }
}

impl Default for DreamerBuilder {
    fn default() -> (r: Self)
        ensures
            r@ == (DreamerBuilderView { tools: Seq::empty(), system_instruction: None }),
    {
        DreamerBuilder::new()
    }
}

impl Dreamer {
    /// Creates a builder for a dreamer.
    pub fn builder() -> (r: DreamerBuilder)
        ensures
            r@ == (DreamerBuilderView { tools: Seq::empty(), system_instruction: None }),
    {
        DreamerBuilder::new()
    }
}

} // verus!
