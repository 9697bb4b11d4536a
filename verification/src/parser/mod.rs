//! Completions from the command buffer itself: splitting the buffer into
//! words, and looking completions up for it.

pub mod words;

pub use words::tokenize;

use vstd::prelude::*;

verus! {

/// Why a buffer could not be parsed.
#[derive(Debug, PartialEq, Eq)]
pub struct ParseError {
    /// What was wrong with the buffer.
    pub message: String,
}

/// The completions for a command buffer with the cursor at a given position.
///
/// No command grammar is loaded, so no completion is known: the list is
/// empty for every buffer and every cursor, a cursor past the end of the
/// buffer included, and no buffer is refused.
pub fn parse_buffer(_buffer: &str, _cursor: usize) -> (outcome: Result<Vec<String>, ParseError>)
    ensures
        outcome matches Ok(completions) && completions@.len() == 0,
{
    Ok(Vec::new())
}

} // verus!
