//! Vega: an agent that offers its tools, and uses the tools of others, over
//! the Model Context Protocol. The protocol is the core of the library;
//! around it stand the tools' own rules and the agent's configuration.

pub mod agent_instructions;
pub mod agents;
pub mod context;
pub mod embeddings;
pub mod iacp;
pub mod keyed;
pub mod logging;
pub mod mcp;
pub mod providers;
pub mod streaming;
pub mod text;
pub mod tools;
pub mod tui;
pub mod web;
