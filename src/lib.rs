//! The countdown engine of a focus timer: one session at a time, counted
//! down in whole seconds against a monotonic clock that the host reads once
//! per frame and hands in as milliseconds.

mod laws;
mod model;
mod timer;

pub use laws::{
    lemma_advance_idempotent, lemma_advance_in_steps, lemma_advance_never_increases,
    lemma_advance_sequence_never_increases, lemma_expiry_is_final, lemma_pause_time_excluded,
    lemma_stop_resets,
};
pub use model::{
    advanced_through, elapsed_whole_seconds, StatusTag, TimerModel, TimerState,
    DEFAULT_MINUTES, MAX_MINUTES, MIN_MINUTES, MS_PER_SECOND, SECONDS_PER_MINUTE,
};
pub use timer::{SessionTimer, TimerError};
