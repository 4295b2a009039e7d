//! A permission-gated snippet tool server: the data model, tag encoding,
//! permission checks, statement planning for the snippet table, the tool
//! router's decisions and the single-instance server lifecycle.

pub mod models;
pub mod tags;
pub mod permissions;
pub mod requests;
pub mod statement;
pub mod router;
pub mod reply;
pub mod lifecycle;
