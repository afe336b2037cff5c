//! Request brokering between an MCP front end and a Roblox Studio plugin,
//! together with the Creator Store search pipeline that ranks and reports assets.

pub mod text;
pub mod encoding;
pub mod tools;
pub mod state;
pub mod catalog;
pub mod search;
pub mod ranking;
pub mod report;
