//! Core of a Doppler-radar speed instrument: binary-to-BCD conversion,
//! exact frequency and speed arithmetic, the two frequency-detection
//! backends, the mode-control state machine, and the guarded container
//! through which interrupt handlers and the main loop share the backends.

pub mod backends;
pub mod bcd;
pub mod exclusive;
pub mod frequency;
pub mod speed;
pub mod system;
