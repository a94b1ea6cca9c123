//! Two-way reconciliation of a local collection of prompt records with a
//! remote Feishu table: the data mapping, the merge plan and the protocol
//! decisions, each with a machine-checked contract.
//!
//! Nothing here sends or stores anything. The caller sends the requests that
//! the library asks for and hands back the texts that come in answer.

pub mod text;
pub mod json;
pub mod timestamp;
pub mod error;
pub mod record;
pub mod codec;
pub mod codec_laws;
pub mod planner;
pub mod plan_laws;
pub mod url;
pub mod config;
pub mod envelope;
pub mod token;
pub mod reader;
pub mod reader_laws;
pub mod writer;
pub mod sync;
pub mod menu;
