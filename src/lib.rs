//! A coding-assistant agent core: the closed tool catalogue, the typed
//! tool-call codec, the conversation history, the line-addressed file patch
//! engine, the tool dispatcher and the per-project generation guard.

pub mod text;
pub mod registry;
pub mod codec;
pub mod llm;
pub mod history;
pub mod patch;
pub mod project;
pub mod dispatch;
pub mod session;
pub mod config;
