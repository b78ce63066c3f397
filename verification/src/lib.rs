//! Core of a command-line assistant that turns a natural-language query into
//! a single shell command through a hosted chat-completion provider, and that
//! also drives a multi-turn interactive chat mode.
//!
//! The library owns the deterministic parts of the pipeline: the shell and
//! operating-system identity model, prompt construction, the structured
//! response-parsing contract between the model and the tool, the one-shot
//! suggestion request, and the conversation state of a chat session. Transport
//! to the completion endpoint, terminal rendering and command execution are
//! left to the surrounding binary.

pub mod chat;
pub mod cli;
pub mod parser;
pub mod prompt;
pub mod shell;
pub mod suggest;
pub mod text;
