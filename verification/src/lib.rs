//! A small command shell engine: parsing shell text into a syntax tree,
//! resolving arguments against a variable store, and planning the process,
//! pipe and redirection work that a pipeline needs.

pub mod ast;
pub mod command;
pub mod error;
pub mod evaluator;
pub mod grammar;
pub mod grammar_facts;
pub mod history;
pub mod lexeme;
pub mod memory;
pub mod orchestrator;
pub mod parse;
pub mod redirect;
pub mod rsh;
pub mod semantics;
pub mod signals;
pub mod text;
