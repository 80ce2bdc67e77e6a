//! Turns a source-hosting account into portfolio cards: evidence gathering
//! under character budgets, inference-endpoint resolution, prompt
//! composition, batched analysis with its failure policy, and the merge of
//! analyses onto repository metadata.

pub mod base64;
pub mod batch;
pub mod catalog;
pub mod classify;
pub mod collector;
pub mod endpoint;
pub mod evidence;
pub mod merge;
pub mod model;
pub mod prompt;
pub mod reply;
pub mod settings;
pub mod text;
