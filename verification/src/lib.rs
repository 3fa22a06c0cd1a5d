//! Request planning, response handling and reporting for a YouTrack MCP
//! server: the decisions of each tool, verified; performing HTTP, reading
//! the environment and speaking MCP are left to the caller.

pub mod text;
pub mod json;
pub mod dates;
pub mod error;
pub mod config;
pub mod model;
pub mod report;
pub mod youtrack;
pub mod b64;
pub mod boards;
pub mod flow;
pub mod work;
pub mod server;
