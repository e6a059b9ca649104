//! What a rendering engine that fetches pages over HTTP shows for each way a fetch can end.
//! The fetch itself is done by whoever owns the connection.
use vstd::prelude::*;

verus! {

/// The name under which the engine registers.
pub const HTTP_ENGINE_NAME: &'static str = "HTTP Engine";

/// How the engine introduces itself to servers.
pub const USER_AGENT: &'static str = "Neodymium/0.1";

/// How long a fetch may take, in seconds.
pub const TIMEOUT_SECONDS: u64 = 10;

/// How a fetch ended.
#[derive(Clone, Debug, PartialEq, Eq)]
pub enum Fetched {
    /// The server answered and this is the body of its answer.
    Body(String),
    /// The server answered but the body could not be read; the text says why.
    UnreadableBody(String),
    /// The server could not be reached; the text says why.
    Unreachable(String),
}

/// The text on display for each way a fetch can end.
pub open spec fn page_text_of(fetched: Fetched) -> Seq<char> {
    match fetched {
        Fetched::Body(text) => text@,
        Fetched::UnreadableBody(reason) => "Error reading body: "@ + reason@,
        Fetched::Unreachable(reason) => "Error connecting: "@ + reason@,
    }
}

/// The text that the engine returns for a fetch: the body as it came, or a line that names
/// the failure. A failure is reported in the text, never raised.
pub fn page_text(fetched: Fetched) -> (text: String)
    ensures
        text@ == page_text_of(fetched),
{
    match fetched {
        Fetched::Body(text) => text,
        Fetched::UnreadableBody(reason) => {
            let mut text = "Error reading body: ".to_owned();
            text.append(reason.as_str());
            text
        },
        Fetched::Unreachable(reason) => {
            let mut text = "Error connecting: ".to_owned();
            text.append(reason.as_str());
            text
        },
    }
}

} // verus!
