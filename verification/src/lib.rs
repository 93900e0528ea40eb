//! Real-time bridge between an audio engine's per-block callback and an
//! audio plugin's batch processing contract.
//!
//! The crate verifies the host-side core: the plugin activation state
//! machine, buffer marshalling between engine and plugin formats, timed
//! event translation, and block-size reconfiguration. Engine I/O and the
//! actual plugin calls live outside the library and hand it plain values.

pub mod buffers;
pub mod events;
pub mod process;
pub mod startup;
pub mod state;
