//! The integer and state-machine core of the RanchSamples instruments.
//!
//! The instruments' signal processing is floating-point; this library holds
//! the decisions that sit around it: waveform and filter-mode selection, the
//! envelope stage machine, seeded generators, key quantisation, voice and
//! grain allocation, ring-buffer indexing, the modulation-matrix bookkeeping
//! and the parameter-id tables.

pub mod characters;
pub mod envelope;
pub mod modes;
pub mod modmatrix;
pub mod noise;
pub mod params;
pub mod pitch;
pub mod pool;
pub mod ring;
pub mod trigger;
pub mod voice;
