//! Host-side logic of a hot-reloadable plugin host: the capability table that
//! hands out handles across the sandbox boundary, the change flag raised by the
//! file watcher, the reload state machine, the per-frame plan, and the integer
//! parts of the game module's rules.
pub mod capability;
pub mod frame;
pub mod game;
pub mod reload;
pub mod score;
pub mod watcher;
