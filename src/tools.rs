//! Tools: named side effects that the agent requests through action messages, the
//! built-in message box, and the reading of a tool invocation.

use vstd::prelude::*;

use crate::json::{
    json_accepts, json_object_at, json_object_field, json_str_at, json_str_field, parse_json,
};

verus! {

/// The name of the built-in tool that reads the last message from the user.
pub const MESSAGE_BOX_TOOL: &'static str = "message_box";

/// What the message box answers when no message from the user has arrived.
pub const MESSAGE_NOT_SET: &'static str = "Message is not set";

/// An error that can stand for any error, by its message.
#[derive(Debug)]
pub struct AnyError {
    message: String,
}

impl View for AnyError {
    type V = Seq<char>;

    closed spec fn view(&self) -> Seq<char> {
        self.message@
    }
}

impl AnyError {
    /// The message of the error.
    pub fn message(&self) -> (r: &str)
        ensures
            r@ == self@,
    {
        self.message.as_str()
    }
}

/// Error type for tool operations.
#[derive(Debug)]
pub enum ToolError {
    /// The tool failed to execute.
    ExecutionFailed(String),
    /// The tool invocation is not JSON.
    ParseFailed(serde_json::Error),
    /// The tool invocation is JSON, but not an object with a string `name` and an
    /// object `args`.
    MalformedInvocation(String),
    /// Custom error.
    Custom(AnyError),
}

impl ToolError {
    /// Creates a custom error with a message.
    pub fn custom(message: &str) -> (r: ToolError)
        ensures
            match r {
                ToolError::Custom(e) => e@ == message@,
                _ => false,
            },
    {
        ToolError::Custom(AnyError { message: message.to_owned() })
    }
}

/// A tool that an agent can use.
pub trait Tool {
    /// Returns the name of the tool.
    fn name(&self) -> String;

    /// Returns the description of the tool.
    fn description(&self) -> String;

    /// Executes the tool.
    fn execute(&self, input: serde_json::Map<String, serde_json::Value>) -> Result<String, ToolError>;
}

/// The tool that reads the last message from the user.
#[derive(Debug)]
pub struct MessageBox {
    message: Option<String>,
}

impl View for MessageBox {
    type V = Option<Seq<char>>;

    closed spec fn view(&self) -> Option<Seq<char>> {
        match self.message {
            Some(m) => Some(m@),
            None => None,
        }
    }
}

impl MessageBox {
    /// A message box that holds no message yet.
    pub fn new() -> (r: Self)
        ensures
            r@ is None,
    {
        MessageBox { message: None }
    }

    /// Replaces the message.
    pub fn update_message(&mut self, message: String)
        ensures
            final(self)@ == Some(message@),
    {
        self.message = Some(message);
    }

    /// Reads the message: the last one given, or an error when there is none.
    pub fn read(&self) -> (r: Result<String, ToolError>)
        ensures
            match self@ {
                Some(m) => r is Ok && r->Ok_0@ == m,
                None => match r {
                    Err(ToolError::Custom(e)) => e@ == MESSAGE_NOT_SET@,
                    _ => false,
                },
            },
    {
        match &self.message {
            Some(m) => Ok(m.clone()),
            None => Err(ToolError::custom(MESSAGE_NOT_SET)),
        }
    }
}

impl Default for MessageBox {
    fn default() -> (r: Self)
        ensures
            r@ is None,
    {
        MessageBox::new()
    }
}

impl Tool for MessageBox {
    fn name(&self) -> (r: String)
        ensures
            r@ == MESSAGE_BOX_TOOL@,
    {
        MESSAGE_BOX_TOOL.to_owned()
    }

    fn description(&self) -> String {
        "This tool is used to read the user message".to_owned()
    }

    fn execute(&self, _input: serde_json::Map<String, serde_json::Value>) -> (r: Result<String, ToolError>)
        ensures
            match self@ {
                Some(m) => r is Ok && r->Ok_0@ == m,
                None => match r {
                    Err(ToolError::Custom(e)) => e@ == MESSAGE_NOT_SET@,
                    _ => false,
                },
            },
    {
        self.read()
    }
}

/// The JSON pointer to the name of the tool in an invocation.
pub const NAME_POINTER: &'static str = "/name";

/// The JSON pointer to the arguments in an invocation.
pub const ARGS_POINTER: &'static str = "/args";

/// The name of the tool that an invocation text asks for: `Some` exactly when the
/// text is JSON with a string at `/name` and an object at `/args`.
pub open spec fn invocation_name(text: Seq<char>) -> Option<Seq<char>> {
    if json_accepts(text) && json_str_at(text, NAME_POINTER@) is Some && json_object_at(
        text,
        ARGS_POINTER@,
    ) {
        json_str_at(text, NAME_POINTER@)
    } else {
        None
    }
}

/// Builds a tool invocation from the fields read out of its JSON: both must be
/// there, else the invocation is malformed.
pub fn invocation_from_fields(
    name: Option<String>,
    args: Option<serde_json::Map<String, serde_json::Value>>,
) -> (r: Result<(String, serde_json::Map<String, serde_json::Value>), ToolError>)
    ensures
        r is Ok <==> name is Some && args is Some,
        r is Ok ==> r->Ok_0.0@ == name->Some_0@ && r->Ok_0.1 == args->Some_0,
        r is Err ==> r->Err_0 is MalformedInvocation,
{
    match (name, args) {
        (Some(n), Some(a)) => Ok((n, a)),
        (None, _) => Err(ToolError::MalformedInvocation("missing tool name".to_owned())),
        (_, None) => Err(ToolError::MalformedInvocation("missing tool arguments".to_owned())),
    }
}

/// Reads a tool invocation, a JSON object `{"name": <string>, "args": <object>}`,
/// into the tool's name and arguments.
pub fn parse_tool(tool: &str) -> (r: Result<(String, serde_json::Map<String, serde_json::Value>), ToolError>)
    ensures
        r is Ok <==> invocation_name(tool@) is Some,
        r is Ok ==> r->Ok_0.0@ == invocation_name(tool@)->Some_0,
        !json_accepts(tool@) ==> r is Err && r->Err_0 is ParseFailed,
        json_accepts(tool@) && r is Err ==> r->Err_0 is MalformedInvocation,
{
    if let Err(e) = parse_json(tool) {
        return Err(ToolError::ParseFailed(e));
    }
    let name = json_str_field(tool, NAME_POINTER);
    let args = json_object_field(tool, ARGS_POINTER);
    invocation_from_fields(name, args)
}

} // verus!
