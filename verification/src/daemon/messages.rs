//! Request and response messages, with the mathematical view of each.

use vstd::prelude::*;

verus! {

/// What a `CompletionRequest` stands for in contracts.
pub struct RequestView {
    pub buffer: Seq<char>,
    pub cursor: nat,
    pub version: nat,
}

/// What a `Suggestion` stands for in contracts.
pub struct SuggestionView {
    pub text: Seq<char>,
    pub description: Seq<char>,
}

/// The protocol version a request carries when it names none.
pub open spec fn spec_default_version() -> nat {
    1
}

/// The protocol version assumed for a request that omits the field.
pub fn default_version() -> (version: u8)
    ensures
        version == spec_default_version(),
{
    1
}

/// Request from a shell client: the command buffer and the cursor position.
///
/// The cursor is not checked against the buffer's length; a position past the
/// end is left to whoever computes the suggestions.
#[derive(Debug, PartialEq, Eq)]
pub struct CompletionRequest {
    /// Current command buffer text.
    pub buffer: String,
    /// Cursor position in the buffer.
    pub cursor: usize,
    /// Protocol version.
    pub version: u8,
}

impl View for CompletionRequest {
    type V = RequestView;

    open spec fn view(&self) -> RequestView {
        RequestView {
            buffer: self.buffer@,
            cursor: self.cursor as nat,
            version: self.version as nat,
        }
    }
}

impl CompletionRequest {
    /// A request at the default protocol version.
    pub fn new(buffer: &str, cursor: usize) -> (request: CompletionRequest)
        ensures
            request@ == (RequestView {
                buffer: buffer@,
                cursor: cursor as nat,
                version: spec_default_version(),
            }),
    {
        CompletionRequest { buffer: buffer.to_owned(), cursor, version: default_version() }
    }
}

/// One completion candidate: the text to insert and what it does.
#[derive(Debug, PartialEq, Eq)]
pub struct Suggestion {
    /// Text to insert.
    pub text: String,
    /// Description of the completion; may be empty.
    pub description: String,
}

impl View for Suggestion {
    type V = SuggestionView;

    open spec fn view(&self) -> SuggestionView {
        SuggestionView { text: self.text@, description: self.description@ }
    }
}

impl Clone for Suggestion {
    fn clone(&self) -> (copy: Suggestion)
        ensures
            copy == *self,
    {
        Suggestion { text: self.text.clone(), description: self.description.clone() }
    }
}

impl Suggestion {
    /// A suggestion with the given text and description.
    pub fn new(text: &str, description: &str) -> (suggestion: Suggestion)
        ensures
            suggestion@ == (SuggestionView { text: text@, description: description@ }),
    {
        Suggestion { text: text.to_owned(), description: description.to_owned() }
    }
}

/// The views of a sequence of suggestions, in order.
pub open spec fn suggestion_views(suggestions: Seq<Suggestion>) -> Seq<SuggestionView> {
    suggestions.map_values(|s: Suggestion| s@)
}

/// Successful answer to a request: the candidates in display order.
#[derive(Debug, PartialEq, Eq)]
pub struct CompletionResponse {
    /// The suggestions, best first.
    pub suggestions: Vec<Suggestion>,
}

impl View for CompletionResponse {
    type V = Seq<SuggestionView>;

    open spec fn view(&self) -> Seq<SuggestionView> {
        suggestion_views(self.suggestions@)
    }
}

/// Answer to a request that could not be served.
#[derive(Debug, PartialEq, Eq)]
pub struct ErrorResponse {
    /// Error message.
    pub error: String,
}

impl View for ErrorResponse {
    type V = Seq<char>;

    open spec fn view(&self) -> Seq<char> {
        self.error@
    }
}

} // verus!
