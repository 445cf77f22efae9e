//! Pointer tracking: the snapshot of pointer position, buttons and last clicked
//! element size, the rules by which each probe sample updates it, and the shared
//! cell through which a sampling loop publishes it to readers.

pub mod buttons;
pub mod inspect;
pub mod laws;
pub mod state;
pub mod tracker;
