//! One completion attempt, from the client's side: the line to send, and
//! what to do with the answer.

use crate::daemon::messages::{
    spec_default_version, CompletionRequest, CompletionResponse, RequestView,
};
use crate::daemon::wire::{
    encode_request, frame, framed, lemma_framed_single_line, lemma_request_unbroken,
    request_json, single_line,
};
use crate::tui::selection::{CompletionUI, Outcome, UiView};
use vstd::prelude::*;

verus! {

/// Why a completion attempt failed. Either failure ends the attempt; there
/// is nothing to retry, each attempt being one exchange of its own.
#[derive(Clone, Copy, Debug, PartialEq, Eq)]
pub enum ClientError {
    /// No daemon answers at the socket.
    Connection,
    /// The daemon's answer is not a list of suggestions.
    ProtocolDecode,
}

impl ClientError {
    /// What the user is told.
    pub open spec fn text(self) -> Seq<char> {
        match self {
            ClientError::Connection => "Failed to connect to daemon. Is it running?"@,
            ClientError::ProtocolDecode => "Failed to parse daemon response"@,
        }
    }

    /// The message for the user.
    pub fn message(&self) -> (message: String)
        ensures
            message@ == self.text(),
    {
        match self {
            ClientError::Connection => "Failed to connect to daemon. Is it running?".to_owned(),
            ClientError::ProtocolDecode => "Failed to parse daemon response".to_owned(),
        }
    }
}

/// The request for `buffer` with the cursor at `cursor`, at the default
/// protocol version.
pub open spec fn request_for(buffer: Seq<char>, cursor: nat) -> RequestView {
    RequestView { buffer, cursor, version: spec_default_version() }
}

/// The one line a client sends to ask for completions of `buffer` at
/// `cursor`.
pub fn request_line(buffer: &str, cursor: usize) -> (line: String)
    ensures
        line@ == framed(request_json(request_for(buffer@, cursor as nat))),
        single_line(line@),
{
    let request = CompletionRequest::new(buffer, cursor);
    proof {
        lemma_request_unbroken(request@);
        lemma_framed_single_line(request_json(request@));
    }
    frame(encode_request(&request))
}

/// The selection list for an answer: none for an answer without
/// suggestions, which is not shown at all; otherwise a list over the
/// suggestions in the order received, with the first one highlighted.
pub fn present(response: CompletionResponse) -> (shown: Option<CompletionUI>)
    ensures
        response.suggestions@.len() == 0 ==> shown is None,
        response.suggestions@.len() > 0 ==> shown is Some && shown->Some_0@ == (UiView {
            suggestions: response.suggestions@,
            selected: 0,
        }),
{
    if response.suggestions.len() == 0 {
        None
    } else {
        Some(CompletionUI::new(response.suggestions))
    }
}

/// What the client prints once the selection list is closed: the text of
/// the chosen suggestion, and nothing where nothing was chosen.
pub open spec fn printed(outcome: Outcome) -> Option<Seq<char>> {
    match outcome {
        Outcome::Chosen(suggestion) => Some(suggestion.text@),
        _ => None,
    }
}

/// The text to print for `outcome`, if any.
pub fn output(outcome: &Outcome) -> (text: Option<String>)
    ensures
        match text {
            Some(chosen) => printed(*outcome) == Some(chosen@),
            None => printed(*outcome) is None,
        },
{
    match outcome {
        Outcome::Chosen(suggestion) => Some(suggestion.text.clone()),
        _ => None,
    }
}

} // verus!
