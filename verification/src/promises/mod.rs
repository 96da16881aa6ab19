//! What the operations promise of their results, each said of the calls themselves: of the
//! arguments of one call and what it returned, or of how several calls relate.

pub mod cli;
pub mod client;
pub mod errors;
pub mod form;
pub mod login;
pub mod media;
pub mod path;
pub mod proxy;
pub mod server;
pub mod silk;
pub mod text;
