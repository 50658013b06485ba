//! Picking a commit message: a keyboard-driven selection loop over a list of
//! suggested messages, the text sent to the suggestion service, the clean-up
//! of what it returns, and the commit commands run for the final choice.
pub mod plan;
pub mod selector;
pub mod suggest;
