//! Drafting commit messages and pull-request descriptions with a chat model:
//! the conversation engine, the severity-ranked findings it extracts,
//! and the decisions of the interactive command flows.

pub mod severity;
pub mod text;
pub mod json;
pub mod improvements;
pub mod conversation;
pub mod cli;
pub mod config;
pub mod commands;
