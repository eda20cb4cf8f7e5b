//! A line-delimited JSON-RPC transport over standard input and output, with
//! its message model, classifier, session flag and subscriber fan-out
//! verified, and the analysis that its request handler performs on the
//! package manager's output.
pub mod json;
pub mod message;
pub mod classify;
pub mod codec;
pub mod broadcast;
pub mod transport;
pub mod text;
pub mod inspector;
