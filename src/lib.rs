//! Core of a continuous-integration orchestrator: an in-memory registry of
//! named nodes and the interpreter for the line-oriented commands that edit it.

pub mod nodes;
pub mod tokens;
pub mod cli;
pub mod laws;
