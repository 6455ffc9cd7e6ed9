//! The error types this library returns.

use vstd::prelude::*;

use crate::value_objects::RateLimit;

verus! {

/// Something went wrong while a tool was resolved or executed.
#[derive(Debug, Clone)]
pub enum ToolError {
    /// The model asked for a tool name that wasn't registered on the request.
    NotFound { name: String },
    /// More than one tool with the same name was registered on the request.
    MultipleFound { name: String },
    /// The arguments the model sent didn't match what the tool expected.
    InvalidArguments { name: String, message: String },
    /// The tool's own code returned an error while running.
    Runtime { name: String, message: String },
}

/// The text of a [`ToolError::NotFound`] for `name`.
pub open spec fn not_found_text(name: Seq<char>) -> Seq<char> {
    "tool '"@ + name + "' not found"@
}

/// The text of a [`ToolError::MultipleFound`] for `name`.
pub open spec fn multiple_found_text(name: Seq<char>) -> Seq<char> {
    "multiple tools named '"@ + name + "' are registered"@
}

/// The text a tool error is shown as.
pub open spec fn tool_error_text(e: ToolError) -> Seq<char> {
    match e {
        ToolError::NotFound { name } => not_found_text(name@),
        ToolError::MultipleFound { name } => multiple_found_text(name@),
        ToolError::InvalidArguments { name, message } => "invalid arguments for tool '"@ + name@
            + "': "@ + message@,
        ToolError::Runtime { name, message } => "tool '"@ + name@ + "' failed: "@ + message@,
    }
}

/// `a`, then `b`, then `c`, as one string.
fn join3(a: &str, b: &str, c: &str) -> (r: String)
    ensures
        r@ == a@ + b@ + c@,
{
    let mut s = a.to_string();
    proof {
        vstd::string::to_string_from_display_ensures_for_str(a, s);
    }
    s.append(b);
    s.append(c);
    s
}

impl ToolError {
    /// The plain-language text of this error, as sent back to a model.
    pub fn to_message(&self) -> (r: String)
        ensures
            r@ == tool_error_text(*self),
    {
        match self {
            ToolError::NotFound { name } => join3("tool '", name.as_str(), "' not found"),
            ToolError::MultipleFound { name } => join3(
                "multiple tools named '",
                name.as_str(),
                "' are registered",
            ),
            ToolError::InvalidArguments { name, message } => {
                let mut s = join3("invalid arguments for tool '", name.as_str(), "': ");
                s.append(message.as_str());
                s
            },
            ToolError::Runtime { name, message } => {
                let mut s = join3("tool '", name.as_str(), "' failed: ");
                s.append(message.as_str());
                s
            },
        }
    }
}

/// The single error type returned by every fallible operation of this library.
#[derive(Debug)]
pub enum Error {
    /// The provider rejected the request for exceeding a rate limit.
    /// `retry_after` is the wait the provider asked for, in seconds.
    RateLimited { provider: String, retry_after: Option<u64>, limits: Vec<RateLimit> },
    /// The provider is temporarily unable to handle requests.
    Overloaded { provider: String },
    /// The request was rejected for being too large.
    RequestTooLarge { provider: String, details: String },
    /// A chunk of a streamed response couldn't be parsed.
    StreamDecode { provider: String, message: String },
    /// A structured-output response didn't hold the data asked for.
    StructuredDecode { provider: String, message: String },
    /// A response body couldn't be read as the shape expected.
    Decode { provider: String, message: String },
    /// The provider doesn't support the capability asked for.
    Unsupported { provider: String, capability: &'static str },
    /// No provider is registered under this name.
    UnknownProvider(String),
    /// The provider returned an error response of another kind.
    Provider { provider: String, status: u16, kind: Option<String>, message: String },
    /// A provider is missing configuration it needs.
    Config(String),
    /// A tool call failed outside of the tool loop's own handling.
    Tool(ToolError),
    /// An MCP server could not be reached or answered with an error.
    Mcp { message: String },
}

impl Error {
    /// Builds an [`Error::Unsupported`] for the given provider and capability.
    pub fn unsupported(provider: &str, capability: &'static str) -> (r: Error)
        ensures
            r matches Error::Unsupported { provider: p, capability: c } && p@ == provider@ && c
                == capability,
    {
        let p = provider.to_string();
        proof {
            vstd::string::to_string_from_display_ensures_for_str(provider, p);
        }
        Error::Unsupported { provider: p, capability }
    }
}

} // verus!
