//! Game-statistics bot: the records it serves, how it ranks and selects
//! them, the addresses it asks the statistics service at, and the decisions
//! of its backend and of its command handling.
pub mod ranking;
pub mod json_format;
pub mod stats_api;
pub mod backend;
pub mod utilities;
pub mod commands;
