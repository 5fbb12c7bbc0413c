//! The request dispatcher of a small calculator service that speaks
//! JSON-RPC 2.0 in the conventions of the Model Context Protocol.
//!
//! The library decides everything about a request: which method it names,
//! whether its parameters have the right shape, which tool runs, and what the
//! reply looks like. Arithmetic on doubles and their decimal rendering are
//! left to the host: it is handed a [`server::Task`], gives back text, and
//! [`server::McpServer::complete`] writes the reply.

pub mod json;
pub mod message;
pub mod catalog;
pub mod params;
pub mod content;
pub mod server;
pub mod endpoints;
pub mod laws;
