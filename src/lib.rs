//! A conversational agent runtime: the tagged message protocol, the conversation
//! thread, and the decisions of the agent loop.

pub mod agent;
pub mod builder;
pub mod channels;
pub mod context;
pub mod env;
pub mod error;
pub mod json;
pub mod prompt;
pub mod protocol;
pub mod text;
pub mod thread;
pub mod tools;
