//! Council consultation pipeline: a single-flight gate, deterministic
//! aggregation and labeling of member responses, prompt and message
//! construction, fan-out planning and evaluation, and the three-stage
//! orchestration state machine.

pub mod aggregate;
pub mod config;
pub mod docs;
pub mod errors;
pub mod fanout;
pub mod gate;
pub mod health;
pub mod pipeline;
pub mod prompts;
pub mod routes;
pub mod schema;
pub mod text;
