//! What the service reads of the model backend's answers.

pub mod bedrock;
