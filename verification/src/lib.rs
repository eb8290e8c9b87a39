pub mod api;
pub mod bulk;
pub mod classifier;
pub mod input;
pub mod orchestrator;
pub mod output;
pub mod pool;
pub mod store;
pub mod telemetry;
pub mod text;
