//! Event emission and outcome normalization for tool invocations.
//!
//! A [`events::ToolEmitter`] describes one in-flight invocation of a shell
//! command, a patch application or an interactive exec session. Its
//! dispatcher turns each lifecycle stage into the ordered list of steps a
//! runner performs (events to send, diff-tracker calls to make), and `finish`
//! derives the model-facing result and the closing event from the same data.
pub mod events;
pub mod guarantees;
pub mod protocol;
