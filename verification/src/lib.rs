//! Command bridge for driving a desktop application's webviews from an
//! external automation client.
//!
//! The crate is organised leaves-first: the response envelope and error
//! taxonomy, the string utilities they render with, the structured `Value`
//! payload model, the window registry model, the correlation bridge state
//! machine, one module per command kind, and finally the dispatcher that
//! routes a command name to its handler.

pub mod strutil;
pub mod error;
pub mod value;
pub mod envelope;
pub mod registry;
pub mod bridge;
pub mod plan;
pub mod fields;
pub mod console_logs;
pub mod error_tracker;
pub mod network_inspector;
pub mod storage_inspector;
pub mod script;
pub mod devtools_bridge;
pub mod state_dump;
pub mod performance;
pub mod health_check;
pub mod hot_reload;
pub mod screenshot;
pub mod dispatch;
