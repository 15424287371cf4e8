//! Task execution engine for an automated multi-step checkout flow.
//!
//! The crate models the per-task step/sub-step state machine, the
//! classification of transport failures (timeouts, connection errors,
//! anti-bot "ban" fingerprints), the bounded ban-retry policy, and the
//! proxy/account assignment policy.  Network I/O itself is performed by
//! the surrounding application; the engine decides, one exchange at a
//! time, which call to make next and how each outcome advances the task.

pub mod activation;
pub mod assign;
pub mod date;
pub mod lookup;
pub mod digits;
pub mod engine;
pub mod forms;
pub mod misc;
pub mod models;
pub mod notify;
pub mod registry;
pub mod retry;
pub mod task;
pub mod transport;
pub mod validator;
