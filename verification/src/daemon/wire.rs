//! The wire form of the messages: one JSON object per message, on a line of
//! its own.
//!
//! A request is `{"buffer":…,"cursor":…,"version":…}`, a successful answer
//! `{"suggestions":[{"text":…,"description":…},…]}`, a failure `{"error":…}`.
//! Strings are written as JSON string literals, numbers in decimal, and
//! nothing is put between the tokens, so a message never holds a line feed
//! and the one that ends its line is the only one on it.

use crate::daemon::messages::{
    CompletionRequest, CompletionResponse, ErrorResponse, RequestView, Suggestion,
    SuggestionView,
};
use vstd::prelude::*;

verus! {

/// The hexadecimal digit, in lower case, for a value below 16.
pub open spec fn hex_digit(value: int) -> char
    recommends
        0 <= value < 16,
{
    seq!['0', '1', '2', '3', '4', '5', '6', '7', '8', '9', 'a', 'b', 'c', 'd', 'e', 'f'][value]
}

/// How one character stands inside a JSON string literal: the quote and the
/// backslash behind a backslash, the control characters below U+0020 by their
/// short escape or as `\u00XX`, every other character as itself.
pub open spec fn escape(c: char) -> Seq<char> {
    if c == '"' {
        seq!['\\', '"']
    } else if c == '\\' {
        seq!['\\', '\\']
    } else if c == '\u{8}' {
        seq!['\\', 'b']
    } else if c == '\t' {
        seq!['\\', 't']
    } else if c == '\n' {
        seq!['\\', 'n']
    } else if c == '\u{c}' {
        seq!['\\', 'f']
    } else if c == '\r' {
        seq!['\\', 'r']
    } else if (c as int) < 0x20 {
        seq!['\\', 'u', '0', '0', hex_digit((c as int) / 16), hex_digit((c as int) % 16)]
    } else {
        seq![c]
    }
}

/// The characters of `text`, each escaped, in order.
pub open spec fn escaped(text: Seq<char>) -> Seq<char>
    decreases text.len(),
{
    if text.len() == 0 {
        Seq::empty()
    } else {
        escaped(text.drop_last()) + escape(text.last())
    }
}

/// `text` as a JSON string literal: escaped, between double quotes.
pub open spec fn quoted(text: Seq<char>) -> Seq<char> {
    seq!['"'] + escaped(text) + seq!['"']
}

/// The decimal digit for a value below 10.
pub open spec fn digit(value: int) -> char
    recommends
        0 <= value < 10,
{
    seq!['0', '1', '2', '3', '4', '5', '6', '7', '8', '9'][value]
}

/// `n` in decimal, without sign or leading zeros.
pub open spec fn decimal(n: nat) -> Seq<char>
    decreases n,
{
    if n < 10 {
        seq![digit(n as int)]
    } else {
        decimal(n / 10) + seq![digit((n % 10) as int)]
    }
}

/// The JSON object of a request.
pub open spec fn request_json(request: RequestView) -> Seq<char> {
    "{\"buffer\":"@ + quoted(request.buffer) + ",\"cursor\":"@ + decimal(request.cursor)
        + ",\"version\":"@ + decimal(request.version) + "}"@
}

/// The JSON object of one suggestion.
pub open spec fn suggestion_json(suggestion: SuggestionView) -> Seq<char> {
    "{\"text\":"@ + quoted(suggestion.text) + ",\"description\":"@ + quoted(
        suggestion.description,
    ) + "}"@
}

/// The JSON objects of `suggestions`, in order, with a comma between
/// neighbours.
pub open spec fn suggestions_json(suggestions: Seq<SuggestionView>) -> Seq<char>
    decreases suggestions.len(),
{
    if suggestions.len() == 0 {
        Seq::empty()
    } else if suggestions.len() == 1 {
        suggestion_json(suggestions.last())
    } else {
        suggestions_json(suggestions.drop_last()) + ","@ + suggestion_json(suggestions.last())
    }
}

/// The JSON object of a successful answer.
pub open spec fn response_json(suggestions: Seq<SuggestionView>) -> Seq<char> {
    "{\"suggestions\":["@ + suggestions_json(suggestions) + "]}"@
}

/// The JSON object of a failure.
pub open spec fn error_json(error: Seq<char>) -> Seq<char> {
    "{\"error\":"@ + quoted(error) + "}"@
}

/// A message on its line: the message, then one line feed.
pub open spec fn framed(message: Seq<char>) -> Seq<char> {
    message + "\n"@
}

/// No line feed occurs in `text`.
pub open spec fn unbroken(text: Seq<char>) -> bool {
    forall|i: int| 0 <= i < text.len() ==> text[i] != '\n'
}

/// `text` is exactly one line: it ends in a line feed and holds no other.
pub open spec fn single_line(text: Seq<char>) -> bool {
    &&& text.len() > 0
    &&& text.last() == '\n'
    &&& unbroken(text.drop_last())
}

/// `text` as a JSON string literal.
///
/// Calls `serde_json::to_string` on the string slice. The contract states
/// what serde_json's serializer writes for a string: a double quote, each
/// character as `escape` gives it, a double quote. The serializer writes into
/// a vector in memory and a string has no other way to fail there, so the
/// call's `Ok` is taken for granted.
#[verifier::external_body]
fn json_string(text: &str) -> (literal: String)
    ensures
        literal@ == quoted(text@),
{
    serde_json::to_string(text).unwrap_or_default()
}

/// The digit `value` as text.
fn digit_text(value: u64) -> (text: &'static str)
    requires
        value < 10,
    ensures
        text@ == seq![digit(value as int)],
{
    proof {
        reveal_strlit("0");
        reveal_strlit("1");
        reveal_strlit("2");
        reveal_strlit("3");
        reveal_strlit("4");
        reveal_strlit("5");
        reveal_strlit("6");
        reveal_strlit("7");
        reveal_strlit("8");
        reveal_strlit("9");
    }
    let text = match value {
        0 => "0",
        1 => "1",
        2 => "2",
        3 => "3",
        4 => "4",
        5 => "5",
        6 => "6",
        7 => "7",
        8 => "8",
        _ => "9",
    };
    assert(text@ =~= seq![digit(value as int)]);
    text
}

/// `n` in decimal.
pub fn decimal_string(n: u64) -> (text: String)
    ensures
        text@ == decimal(n as nat),
    decreases n,
{
    if n < 10 {
        digit_text(n).to_owned()
    } else {
        let mut text = decimal_string(n / 10);
        text.append(digit_text(n % 10));
        text
    }
}

/// The JSON object of `request`.
pub fn encode_request(request: &CompletionRequest) -> (json: String)
    ensures
        json@ == request_json(request@),
{
    let mut json = "{\"buffer\":".to_owned();
    json.append(json_string(request.buffer.as_str()).as_str());
    json.append(",\"cursor\":");
    json.append(decimal_string(request.cursor as u64).as_str());
    json.append(",\"version\":");
    json.append(decimal_string(request.version as u64).as_str());
    json.append("}");
    json
}

/// The JSON object of `suggestion`.
pub fn encode_suggestion(suggestion: &Suggestion) -> (json: String)
    ensures
        json@ == suggestion_json(suggestion@),
{
    let mut json = "{\"text\":".to_owned();
    json.append(json_string(suggestion.text.as_str()).as_str());
    json.append(",\"description\":");
    json.append(json_string(suggestion.description.as_str()).as_str());
    json.append("}");
    json
}

/// The JSON object of `response`: its suggestions in their order.
pub fn encode_response(response: &CompletionResponse) -> (json: String)
    ensures
        json@ == response_json(response@),
{
    let ghost views = response@;
    let mut json = "{\"suggestions\":[".to_owned();
    let mut list = String::new();
    let mut at: usize = 0;
    assert(views.take(0) == Seq::<SuggestionView>::empty());
    while at < response.suggestions.len()
        invariant
            at <= response.suggestions.len(),
            views == response@,
            list@ == suggestions_json(views.take(at as int)),
        decreases response.suggestions.len() - at,
    {
        let ghost grown = views.take(at + 1);
        assert(grown.drop_last() == views.take(at as int));
        assert(grown.last() == response.suggestions[at as int]@);
        if at > 0 {
            list.append(",");
        }
        list.append(encode_suggestion(&response.suggestions[at]).as_str());
        at = at + 1;
    }
    assert(views.take(at as int) == views);
    json.append(list.as_str());
    json.append("]}");
    json
}

/// The JSON object of `failure`.
pub fn encode_error(failure: &ErrorResponse) -> (json: String)
    ensures
        json@ == error_json(failure@),
{
    let mut json = "{\"error\":".to_owned();
    json.append(json_string(failure.error.as_str()).as_str());
    json.append("}");
    json
}

/// Ends `message` with the line feed that makes it a line.
pub fn frame(message: String) -> (line: String)
    ensures
        line@ == framed(message@),
{
    let mut line = message;
    line.append("\n");
    line
}

/// No escaped character is or holds a line feed.
pub proof fn lemma_escape_unbroken(c: char)
    ensures
        unbroken(escape(c)),
{
}

/// A string literal holds no line feed, whatever text it stands for.
pub proof fn lemma_quoted_unbroken(text: Seq<char>)
    ensures
        unbroken(escaped(text)),
        unbroken(quoted(text)),
    decreases text.len(),
{
    if text.len() > 0 {
        lemma_quoted_unbroken(text.drop_last());
        lemma_escape_unbroken(text.last());
    }
}

/// A number in decimal holds no line feed.
pub proof fn lemma_decimal_unbroken(n: nat)
    ensures
        unbroken(decimal(n)),
    decreases n,
{
    if n >= 10 {
        lemma_decimal_unbroken(n / 10);
    }
}

/// A request's JSON object holds no line feed.
pub proof fn lemma_request_unbroken(request: RequestView)
    ensures
        unbroken(request_json(request)),
{
    reveal_strlit("{\"buffer\":");
    reveal_strlit(",\"cursor\":");
    reveal_strlit(",\"version\":");
    reveal_strlit("}");
    lemma_quoted_unbroken(request.buffer);
    lemma_decimal_unbroken(request.cursor);
    lemma_decimal_unbroken(request.version);
}

/// A suggestion's JSON object holds no line feed.
pub proof fn lemma_suggestion_unbroken(suggestion: SuggestionView)
    ensures
        unbroken(suggestion_json(suggestion)),
{
    reveal_strlit("{\"text\":");
    reveal_strlit(",\"description\":");
    reveal_strlit("}");
    lemma_quoted_unbroken(suggestion.text);
    lemma_quoted_unbroken(suggestion.description);
}

/// A successful answer's JSON object holds no line feed.
pub proof fn lemma_response_unbroken(suggestions: Seq<SuggestionView>)
    ensures
        unbroken(suggestions_json(suggestions)),
        unbroken(response_json(suggestions)),
    decreases suggestions.len(),
{
    reveal_strlit("{\"suggestions\":[");
    reveal_strlit("]}");
    reveal_strlit(",");
    if suggestions.len() > 0 {
        lemma_suggestion_unbroken(suggestions.last());
        lemma_response_unbroken(suggestions.drop_last());
    }
}

/// A failure's JSON object holds no line feed.
pub proof fn lemma_error_unbroken(error: Seq<char>)
    ensures
        unbroken(error_json(error)),
{
    reveal_strlit("{\"error\":");
    reveal_strlit("}");
    lemma_quoted_unbroken(error);
}

/// A message without a line feed, framed, is exactly one line.
pub proof fn lemma_framed_single_line(message: Seq<char>)
    requires
        unbroken(message),
    ensures
        single_line(framed(message)),
{
    reveal_strlit("\n");
    assert(framed(message).drop_last() == message);
}

} // verus!
