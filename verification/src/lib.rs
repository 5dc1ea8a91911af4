//! The core of a workflow engine: run policies, the operator's queue and
//! ledger, parallel branches, and the nodes that drive terminal sessions.
pub mod config;
pub mod contract;
pub mod hash;
pub mod json;
pub mod jsonl;
pub mod node;
pub mod nodes;
pub mod operator;
pub mod parallel;
pub mod patterns;
pub mod policy;
pub mod progress;
pub mod string_map;
pub mod text;
pub mod time;
