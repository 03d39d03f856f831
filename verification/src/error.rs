//! The errors that the service reports.

use vstd::prelude::*;
use vstd::string::*;

verus! {

/// What went wrong, with the details as text.
#[derive(Debug)]
pub enum AppError {
    /// A call to the model backend failed.
    Bedrock(String),
    /// A call to the identity service of the cloud account failed.
    Sts(String),
    /// A message for the model could not be put together.
    MessageParse(String),
    /// The server failed.
    Server(String),
}

impl AppError {
    /// What the error's message begins with.
    pub open spec fn heading(self) -> Seq<char> {
        match self {
            AppError::Bedrock(_) => "AWS Bedrock error: "@,
            AppError::Sts(_) => "AWS STS error: "@,
            AppError::MessageParse(_) => "Message parsing error: "@,
            AppError::Server(_) => "Server error: "@,
        }
    }

    /// The details that the error carries.
    pub open spec fn details(self) -> Seq<char> {
        match self {
            AppError::Bedrock(details) => details@,
            AppError::Sts(details) => details@,
            AppError::MessageParse(details) => details@,
            AppError::Server(details) => details@,
        }
    }

    /// The error as a sentence: its heading, then its details.
    pub fn message(&self) -> (text: String)
        ensures
            text@ == self.heading() + self.details(),
    {
        match self {
            AppError::Bedrock(details) => {
                let mut text = "AWS Bedrock error: ".to_owned();
                text.append(details.as_str());
                text
            },
            AppError::Sts(details) => {
                let mut text = "AWS STS error: ".to_owned();
                text.append(details.as_str());
                text
            },
            AppError::MessageParse(details) => {
                let mut text = "Message parsing error: ".to_owned();
                text.append(details.as_str());
                text
            },
            AppError::Server(details) => {
                let mut text = "Server error: ".to_owned();
                text.append(details.as_str());
                text
            },
        }
    }
}

} // verus!
