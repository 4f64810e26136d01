//! Rules for the event stream of a Codex backend and for the egress address of a proxy in front
//! of it: what an event means, when a failure is worth another attempt, what a rate-limit
//! snapshot says, and how the egress probe is built and read.

pub mod text;
pub mod json;
pub mod failure;
pub mod reasoning;
pub mod stream;
pub mod clock;
pub mod quota;
pub mod sse;
pub mod outcome;
pub mod web;
pub mod egress;
pub mod laws;
pub mod failure_laws;
pub mod stream_laws;
pub mod quota_laws;
pub mod text_laws;
pub mod json_laws;
pub mod egress_laws;
pub mod sse_laws;
pub mod outcome_laws;
