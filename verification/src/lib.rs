//! Core of a conversational agent that mediates between chat users and an
//! LLM completion backend.
//!
//! The library holds the verified logic: bounded per-user conversation
//! memory, the keyed conversation store, the multi-round tool-calling turn
//! engine, the tool catalogue and dispatcher, and the extraction of model
//! replies from backend responses.  All network and platform plumbing lives
//! outside the library and talks to it through plain values.

pub mod agent;
pub mod ai_client;
pub mod chat;
pub mod completion;
pub mod config;
pub mod context;
pub mod engine;
pub mod error;
pub mod handler;
pub mod json;
pub mod memory;
pub mod message;
pub mod prompts;
pub mod store;
pub mod text;
pub mod tools;
pub mod user;
