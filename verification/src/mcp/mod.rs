//! The tools that an MCP client calls.

pub mod tools;
