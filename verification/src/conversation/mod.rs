//! Conversations with the model.

pub mod builder;
