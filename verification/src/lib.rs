//! The backend of a language-lesson service.
//!
//! Its core is the bearer-token guard in [`server`]: a cache of the identity
//! provider's signing keys with its refresh policy, and the steps that admit
//! or reject a request. Around it stand the data model of the service's
//! answers with its builders, the texts of a lesson, and the reading of the
//! model backend's answers.
//!
//! Times and fetched documents are handed in by the caller. The clock is read
//! in two places only: for the greeting of the present hour, and inside the
//! `jsonwebtoken` crate when it checks a token.

pub mod aws;
pub mod cognito;
pub mod conversation;
pub mod error;
pub mod language;
pub mod lesson;
pub mod server;

pub use conversation::builder::ConversationBuilder;
pub use error::AppError;
pub use language::Language;
