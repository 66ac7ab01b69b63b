//! Single-voice tone generator core: a note-lifecycle state machine with a
//! fixed attack/decay envelope, a phase-accumulator oscillator, a per-sample
//! renderer that broadcasts one mono signal to every output channel, and the
//! parameter surface shared with a control thread. All quantities are
//! fixed-point integers: time in nanoseconds, amplitudes as fractions of
//! [`envelope::AMP_ONE`], oscillator phase as a fraction of
//! [`oscillator::PHASE_ONE`], and frequency in millihertz.

pub mod engine;
pub mod envelope;
pub mod oscillator;
pub mod params;
pub mod text;
pub mod voice;
