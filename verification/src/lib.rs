//! Coordination of isolated agent sessions: a session data model, a
//! name-keyed session store, parent/child relationship maintenance, and the
//! cascade / gather tree-synchronization algorithms.
//!
//! The store and every algorithm over it are verified; external collaborators
//! (the workspace-management executable, the clock, identifier generation)
//! enter only through narrow trusted items.

pub mod activity;
pub mod ai_tool;
pub mod cli;
pub mod collaboration;
pub mod completions;
pub mod config;
pub mod context;
pub mod error;
pub mod external;
pub mod models;
pub mod orchestration;
pub mod pr;
pub mod profiles;
pub mod session;
pub mod shepherd;
pub mod templates;
pub mod text;
pub mod tutorial;
pub mod utilities;
