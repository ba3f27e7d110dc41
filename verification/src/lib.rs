//! Verified core of the Livy web resolver: product request types, labels,
//! error mapping, OAuth session bookkeeping, provenance records and MCP
//! tool metadata.

pub mod auth;
pub mod codec;
pub mod encode;
pub mod env;
pub mod errors;
pub mod fetch;
pub mod json;
pub mod mcp;
pub mod provenance;
pub mod snapshot;
pub mod table;
pub mod text;
pub mod types;

