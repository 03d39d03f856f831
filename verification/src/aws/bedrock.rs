//! Reading the text out of an answer of the model backend.

use vstd::prelude::*;
use vstd::string::*;

verus! {

/// One block of a message's content, as far as the service reads it.
#[derive(Debug)]
pub enum ReplyBlock {
    /// A block of text.
    Text(String),
    /// A block of any other kind.
    Other,
}

/// An answer of the model backend, as far as the service reads it.
#[derive(Debug)]
pub enum ConverseReply {
    /// The answer has no output.
    Empty,
    /// The output is something else than a message.
    NotMessage,
    /// The output is a message with these blocks of content.
    Message(Vec<ReplyBlock>),
}

/// Why an answer holds no text to hand out.
#[derive(Clone, Copy, Debug, PartialEq, Eq, Structural)]
pub enum ReplyError {
    /// The answer has no output.
    NoOutput,
    /// The output is not a message.
    NotMessage,
    /// The message has no content.
    NoContent,
    /// The first block of the message is not text.
    NotText,
}

impl ReplyError {
    /// The error as a sentence.
    pub open spec fn text(self) -> Seq<char> {
        match self {
            ReplyError::NoOutput => "Error no output"@,
            ReplyError::NotMessage => "Error output not as message"@,
            ReplyError::NoContent => "Error no content in first message"@,
            ReplyError::NotText => "Error content is not text"@,
        }
    }

    /// The error as a sentence.
    pub fn message(&self) -> (text: String)
        ensures
            text@ == self.text(),
    {
        match self {
            ReplyError::NoOutput => "Error no output".to_owned(),
            ReplyError::NotMessage => "Error output not as message".to_owned(),
            ReplyError::NoContent => "Error no content in first message".to_owned(),
            ReplyError::NotText => "Error content is not text".to_owned(),
        }
    }
}

/// The text of an answer: that of the first block of the message, where the
/// answer has a message whose first block is text.
pub open spec fn reply_text(reply: ConverseReply) -> Result<Seq<char>, ReplyError> {
    match reply {
        ConverseReply::Empty => Err(ReplyError::NoOutput),
        ConverseReply::NotMessage => Err(ReplyError::NotMessage),
        ConverseReply::Message(blocks) => if blocks@.len() == 0 {
            Err(ReplyError::NoContent)
        } else {
            match blocks@[0] {
                ReplyBlock::Text(text) => Ok(text@),
                ReplyBlock::Other => Err(ReplyError::NotText),
            }
        },
    }
}

/// Takes the text out of an answer: the first block of its message. Blocks
/// after the first are not looked at.
pub fn get_converse_output_text(reply: &ConverseReply) -> (text: Result<String, ReplyError>)
    ensures
        match text {
            Ok(found) => reply_text(*reply) == Ok::<Seq<char>, ReplyError>(found@),
            Err(error) => reply_text(*reply) == Err::<Seq<char>, ReplyError>(error),
        },
{
    match reply {
        ConverseReply::Empty => Err(ReplyError::NoOutput),
        ConverseReply::NotMessage => Err(ReplyError::NotMessage),
        ConverseReply::Message(blocks) => {
            if blocks.len() == 0 {
                return Err(ReplyError::NoContent);
            }
            match &blocks[0] {
                ReplyBlock::Text(text) => Ok(text.clone()),
                ReplyBlock::Other => Err(ReplyError::NotText),
            }
        },
    }
}

} // verus!
