//! One session: one request in, one line out.
//!
//! A session reads a single line and leaves the decoding of it to its
//! caller. What the line decoded to, or why it did not decode, is all a
//! session needs in order to decide its answer, and that answer is always
//! exactly one line: a list of suggestions or an error, never both.

use crate::daemon::messages::{
    suggestion_views, CompletionRequest, CompletionResponse, ErrorResponse, RequestView,
    Suggestion, SuggestionView,
};
use crate::daemon::wire::{
    encode_error, encode_response, error_json, frame, framed, lemma_error_unbroken,
    lemma_framed_single_line, lemma_response_unbroken, response_json, single_line,
};
use vstd::prelude::*;

verus! {

/// What a session answers.
#[derive(Debug, PartialEq, Eq)]
pub enum Reply {
    /// The suggestions for the request.
    Completion(CompletionResponse),
    /// Why the request was not served.
    Error(ErrorResponse),
}

/// What a `Reply` stands for in contracts.
pub enum ReplyView {
    Completion(Seq<SuggestionView>),
    Error(Seq<char>),
}

impl View for Reply {
    type V = ReplyView;

    open spec fn view(&self) -> ReplyView {
        match self {
            Reply::Completion(response) => ReplyView::Completion(response@),
            Reply::Error(failure) => ReplyView::Error(failure@),
        }
    }
}

/// The error message for a request line that did not decode, given the
/// decoder's account of what was wrong with it.
pub open spec fn decode_failure(detail: Seq<char>) -> Seq<char> {
    "Invalid JSON: "@ + detail
}

/// What the built-in provider suggests for a request: nothing, whatever the
/// buffer and the cursor are.
pub open spec fn provided(request: RequestView) -> Seq<SuggestionView> {
    Seq::empty()
}

/// What a session answers to a request line, given how the line decoded.
pub open spec fn reply_to(decoded: Result<CompletionRequest, String>) -> ReplyView {
    match decoded {
        Ok(request) => ReplyView::Completion(provided(request@)),
        Err(detail) => ReplyView::Error(decode_failure(detail@)),
    }
}

/// The JSON object of a reply.
pub open spec fn reply_json(reply: ReplyView) -> Seq<char> {
    match reply {
        ReplyView::Completion(suggestions) => response_json(suggestions),
        ReplyView::Error(error) => error_json(error),
    }
}

/// A reply is a list of suggestions or an error, and its line tells which:
/// no line is the wire form of both.
pub proof fn lemma_reply_kinds_differ(suggestions: Seq<SuggestionView>, error: Seq<char>)
    ensures
        response_json(suggestions) != error_json(error),
{
    reveal_strlit("{\"suggestions\":[");
    reveal_strlit("{\"error\":");
    assert(response_json(suggestions)[2] == 's');
    assert(error_json(error)[2] == 'e');
}

/// The suggestions of the built-in provider for `request`.
pub fn generate_suggestions(request: &CompletionRequest) -> (suggestions: Vec<Suggestion>)
    ensures
        suggestion_views(suggestions@) == provided(request@),
{
    let _ = request;
    let suggestions: Vec<Suggestion> = Vec::new();
    assert(suggestion_views(suggestions@) =~= provided(request@));
    suggestions
}

/// The answer that carries `suggestions`, in the order given.
pub fn answer(suggestions: Vec<Suggestion>) -> (response: CompletionResponse)
    ensures
        response.suggestions == suggestions,
        response@ == suggestion_views(suggestions@),
{
    CompletionResponse { suggestions }
}

/// The answer to a request line that did not decode; `detail` is the
/// decoder's message.
pub fn reject(detail: &str) -> (failure: ErrorResponse)
    ensures
        failure@ == decode_failure(detail@),
        failure@.len() > 0,
{
    proof {
        reveal_strlit("Invalid JSON: ");
    }
    let mut error = "Invalid JSON: ".to_owned();
    error.append(detail);
    ErrorResponse { error }
}

/// Decides the answer to one request line from what the line decoded to: the
/// provider's suggestions for a request, an error for anything else.
pub fn handle_request(decoded: Result<CompletionRequest, String>) -> (reply: Reply)
    ensures
        reply@ == reply_to(decoded),
{
    match decoded {
        Ok(request) => Reply::Completion(answer(generate_suggestions(&request))),
        Err(detail) => Reply::Error(reject(detail.as_str())),
    }
}

/// The line that carries `reply` to the client.
pub fn reply_line(reply: &Reply) -> (line: String)
    ensures
        line@ == framed(reply_json(reply@)),
        single_line(line@),
{
    let message = match reply {
        Reply::Completion(response) => {
            proof {
                lemma_response_unbroken(response@);
            }
            encode_response(response)
        },
        Reply::Error(failure) => {
            proof {
                lemma_error_unbroken(failure@);
            }
            encode_error(failure)
        },
    };
    proof {
        lemma_framed_single_line(message@);
    }
    frame(message)
}

/// Everything a session sends for one request line: exactly one line, which
/// holds the suggestions where the line decoded and the error where it did
/// not.
pub fn handle_connection(decoded: Result<CompletionRequest, String>) -> (sent: String)
    ensures
        sent@ == framed(reply_json(reply_to(decoded))),
        single_line(sent@),
{
    let reply = handle_request(decoded);
    reply_line(&reply)
}

} // verus!
