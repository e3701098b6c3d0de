//! The MCP surface of the server: tools, resources and prompts.

pub mod insights;
pub mod prompts;
pub mod resources;
pub mod tools;

use vstd::prelude::*;
use crate::text::owned;

verus! {

/// A request the server refuses as invalid, with the message it answers.
#[derive(Debug)]
pub struct InvalidRequest {
    pub message: String,
}

impl InvalidRequest {
    /// A refusal whose message is `text`.
    pub fn new(text: &str) -> (r: Self)
        ensures
            r.message@ == text@,
    {
        InvalidRequest { message: owned(text) }
    }

    /// A refusal whose message is `prefix`, then `subject`, then a closing quote.
    pub fn quoted(prefix: &str, subject: &str) -> (r: Self)
        ensures
            r.message@ == prefix@ + subject@ + "'"@,
    {
        let mut m = owned(prefix);
        m.append(subject);
        m.append("'");
        InvalidRequest { message: m }
    }
}

/// The server's name, as announced in the handshake.
pub const SERVER_NAME: &'static str = "stash-mcp";

/// The usage instructions announced in the handshake.
pub const SERVER_INSTRUCTIONS: &'static str = "MCP server for StashApp. Use the tools to query performers, scenes, studios and tags. Use the resources to browse collections. Use the prompts as starting points for analysis tasks.";

/// What the server announces of itself in the handshake, but for its version.
#[derive(Debug)]
pub struct ServerDescription {
    pub name: String,
    pub instructions: Option<String>,
    /// Whether the server offers tools.
    pub tools: bool,
    /// Whether the server offers resources.
    pub resources: bool,
    /// Whether the server offers prompts.
    pub prompts: bool,
}

/// The server's self-description: its name, its instructions, and that it
/// offers tools, resources and prompts.
pub fn server_description() -> (r: ServerDescription)
    ensures
        r.name@ == SERVER_NAME@,
        r.instructions matches Some(text) && text@ == SERVER_INSTRUCTIONS@,
        r.tools && r.resources && r.prompts,
{
    ServerDescription {
        name: owned(SERVER_NAME),
        instructions: Some(owned(SERVER_INSTRUCTIONS)),
        tools: true,
        resources: true,
        prompts: true,
    }
}

} // verus!
