//! Session registry and command router for an editing backend: owns the
//! mapping from session ids to documents, routes edit commands, guards the
//! cross-session kill ring and hands documents scoped contexts.

pub mod session_id;
pub mod external;
pub mod tabs;
pub mod laws;
