//! Content model, body resolver and creator reconciliation for a
//! subscription-content archiver.

pub mod config;
pub mod creator;
pub mod fanbox;
pub mod text;
