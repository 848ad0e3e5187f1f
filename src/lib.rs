//! Launch command for the `tjs` language server.
//!
//! The editor asks an extension, by identifier, how to start a language
//! server. This library answers that question: for the one identifier it
//! knows it builds a fixed command descriptor, and for every other identifier
//! it reports an error that names the identifier.

pub mod command;
pub mod resolver;

pub use command::{CommandDescriptor, UnknownServerError};
pub use resolver::TjsTypecheckerExtension;
