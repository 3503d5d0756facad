//! Control logic of two audio effect cores: a multi-stage analog-modelled
//! filter with click-free parameter changes, and a feedback delay line.
//!
//! Sample arithmetic is left to the numeric layer that uses this crate: the
//! types here are generic over the sample and coefficient representation, and
//! what is verified is the bookkeeping around the arithmetic (which history is
//! kept, when it is reset, when a crossfade is due, where the delay line reads
//! and writes).
pub mod analog_filter;
pub mod delay;
pub mod filter_type;

pub use analog_filter::{AnalogFilter, FStage, FilterView, HISTORY_LEN, MAX_FILTER_STAGES};
pub use delay::{msec_to_n_samples, Delay, DelayView};
pub use filter_type::FilterType;
