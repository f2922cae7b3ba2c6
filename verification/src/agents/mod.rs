pub mod registry;
pub mod state;
pub mod orchestrator;
pub mod prompts;
pub mod spawn;
pub mod watcher;
