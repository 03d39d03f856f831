//! Puts the text of a conversation together.

use vstd::prelude::*;
use vstd::string::*;
use crate::error::AppError;

verus! {

/// `aws_sdk_bedrockruntime::types::Message`: a role and a list of content
/// blocks.
#[verifier::external_type_specification]
#[verifier::external_body]
pub struct ExMessage(aws_sdk_bedrockruntime::types::Message);

/// `aws_sdk_bedrockruntime::error::BuildError`, carried through as an opaque
/// value.
#[verifier::external_type_specification]
#[verifier::external_body]
pub struct ExBuildError(aws_sdk_bedrockruntime::error::BuildError);

/// The texts of the text blocks of a message's content, in their order.
pub uninterp spec fn message_texts(message: aws_sdk_bedrockruntime::types::Message) -> Seq<Seq<char>>;

/// Whether a message's role is that of the user.
pub uninterp spec fn message_from_user(message: aws_sdk_bedrockruntime::types::Message) -> bool;

/// Calls `Message::builder`, then `role`, `content` and `build` of the
/// message builder of `aws_sdk_bedrockruntime`. `build` fails only where the
/// role or the content was not set; here both are, so it gives a message of
/// the user whose one block is the text.
#[verifier::external_body]
fn user_text_message(content: String) -> (built: Result<
    aws_sdk_bedrockruntime::types::Message,
    aws_sdk_bedrockruntime::error::BuildError,
>)
    ensures
        built.is_ok(),
        built matches Ok(message) ==> message_from_user(message),
        built matches Ok(message) ==> message_texts(message) == seq![content@],
{
    aws_sdk_bedrockruntime::types::Message::builder().role(
        aws_sdk_bedrockruntime::types::ConversationRole::User,
    ).content(aws_sdk_bedrockruntime::types::ContentBlock::Text(content)).build()
}

/// Collects a system prompt and the turns of a conversation.
#[derive(Debug)]
pub struct ConversationBuilder {
    system_prompt: Option<String>,
    conversation_history: Vec<String>,
}

/// The mathematical content of a [`ConversationBuilder`]: the system prompt,
/// if one was set, and the turns so far, each with its speaker's label.
pub struct ConversationView {
    pub system_prompt: Option<Seq<char>>,
    pub history: Seq<Seq<char>>,
}

/// The turns one after another, each followed by an empty line.
pub open spec fn joined(history: Seq<Seq<char>>) -> Seq<char>
    decreases history.len(),
{
    if history.len() == 0 {
        Seq::empty()
    } else {
        joined(history.drop_last()) + history.last() + "\n\n"@
    }
}

impl ConversationView {
    /// What the text begins with: the system prompt under its label, followed
    /// by an empty line, or nothing.
    pub open spec fn preamble(self) -> Seq<char> {
        match self.system_prompt {
            Some(prompt) => "System: "@ + prompt + "\n\n"@,
            None => Seq::empty(),
        }
    }

    /// The whole text of the conversation.
    pub open spec fn content(self) -> Seq<char> {
        self.preamble() + joined(self.history)
    }
}

impl View for ConversationBuilder {
    type V = ConversationView;

    closed spec fn view(&self) -> ConversationView {
        ConversationView {
            system_prompt: match self.system_prompt {
                Some(prompt) => Some(prompt@),
                None => None,
            },
            history: self.conversation_history@.map_values(|turn: String| turn@),
        }
    }
}

impl ConversationBuilder {
    /// A conversation without a system prompt and without turns.
    pub fn new() -> (builder: Self)
        ensures
            builder@ == (ConversationView { system_prompt: None, history: Seq::empty() }),
    {
        let builder = ConversationBuilder { system_prompt: None, conversation_history: Vec::new() };
        assert(builder@.history =~= Seq::empty());
        builder
    }

    /// Sets the system prompt.
    pub fn with_system_prompt(self, prompt: &str) -> (builder: Self)
        ensures
            builder@ == (ConversationView { system_prompt: Some(prompt@), ..self@ }),
    {
        ConversationBuilder {
            system_prompt: Some(prompt.to_owned()),
            conversation_history: self.conversation_history,
        }
    }

    /// Adds what the user says as the next turn.
    pub fn add_user_message(self, message: &str) -> (builder: Self)
        ensures
            builder@ == (ConversationView {
                history: self@.history.push("User: "@ + message@),
                ..self@
            }),
    {
        let mut turn = "User: ".to_owned();
        turn.append(message);
        let mut history = self.conversation_history;
        history.push(turn);
        let builder = ConversationBuilder {
            system_prompt: self.system_prompt,
            conversation_history: history,
        };
        assert(builder@.history =~= self@.history.push("User: "@ + message@));
        builder
    }

    /// Adds what the assistant says as the next turn.
    pub fn add_assistant_message(self, message: &str) -> (builder: Self)
        ensures
            builder@ == (ConversationView {
                history: self@.history.push("Assistant: "@ + message@),
                ..self@
            }),
    {
        let mut turn = "Assistant: ".to_owned();
        turn.append(message);
        let mut history = self.conversation_history;
        history.push(turn);
        let builder = ConversationBuilder {
            system_prompt: self.system_prompt,
            conversation_history: history,
        };
        assert(builder@.history =~= self@.history.push("Assistant: "@ + message@));
        builder
    }

    /// The text of the conversation: the system prompt if there is one, then
    /// the turns in their order.
    pub fn content(&self) -> (content: String)
        ensures
            content@ == self@.content(),
    {
        let mut content = String::new();
        match &self.system_prompt {
            Some(system) => {
                content.append("System: ");
                content.append(system.as_str());
                content.append("\n\n");
            },
            None => {},
        }
        assert(content@ =~= self@.preamble());
        let mut i: usize = 0;
        assert(self@.history.take(0) =~= Seq::empty());
        while i < self.conversation_history.len()
            invariant
                i <= self.conversation_history.len(),
                content@ == self@.preamble() + joined(self@.history.take(i as int)),
            decreases self.conversation_history.len() - i,
        {
            proof {
                let next = self@.history.take(i + 1);
                assert(next.drop_last() =~= self@.history.take(i as int));
                assert(next.last() == self.conversation_history@[i as int]@);
            }
            content.append(self.conversation_history[i].as_str());
            content.append("\n\n");
            assert(content@ =~= self@.preamble() + joined(self@.history.take(i + 1)));
            i += 1;
        }
        assert(self@.history.take(i as int) =~= self@.history);
        content
    }

    /// The conversation as one message of the user, whose one block of
    /// content is the text of the conversation.
    pub fn build(self) -> (built: Result<aws_sdk_bedrockruntime::types::Message, AppError>)
        ensures
            built matches Ok(message) && message_from_user(message) && message_texts(message)
                == seq![self@.content()],
    {
        match user_text_message(self.content()) {
            Ok(message) => Ok(message),
            Err(_) => Err(AppError::MessageParse("Failed to build message".to_owned())),
        }
    }
}

} // verus!
