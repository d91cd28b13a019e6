//! Usage and spend tracking across AI-provider accounts: canonical metrics,
//! provider payload normalisation, a metrics store, usage snapshots, and the
//! budget / alert evaluator, each stated and proved with Verus.

pub mod model;
pub mod time;
pub mod metrics;
pub mod anthropic;
pub mod openai;
pub mod usage;
pub mod openrouter;
pub mod store;
pub mod row;
pub mod alerts;
pub mod scheduler;
