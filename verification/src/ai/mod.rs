pub mod orchestrator;
pub mod providers;
pub mod task;
