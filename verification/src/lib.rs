//! Studio core for long-form fiction projects: the rules that decide which
//! human gate opens, what a typed answer means, and which step runs next.

pub mod agent;
pub mod audit_decisions;
pub mod audit_offers;
pub mod cascade;
pub mod chain;
pub mod chapter_offers;
pub mod confirm;
pub mod content;
pub mod decision_council;
pub mod dotenv;
pub mod features;
pub mod gates;
pub mod impact;
pub mod intent;
pub mod issues;
pub mod json;
pub mod laws;
pub mod merging;
pub mod offers;
pub mod open_gate;
pub mod ops_journal;
pub mod order;
pub mod parallel;
pub mod parse_ops;
pub mod picks;
pub mod plot_write;
pub mod preview;
pub mod progress;
pub mod prompts;
pub mod protocol;
pub mod reconcile;
pub mod runtime;
pub mod server;
pub mod session;
pub mod stage_picks;
pub mod steer;
pub mod studio_prompt;
pub mod text;
pub mod thread_state;
pub mod threads;
pub mod tool_loop;
pub mod turn;
pub mod volume;
pub mod writing;
