//! A small waveform algebra for software sound synthesis.
//!
//! The one value type, [`Signal`], carries an audio sample or an oscillator
//! phase and offers a closed set of pure, composable shaping operations:
//! oscillators over a sawtooth phase, gain, gating, clipping and phase
//! shifting.  A host streaming loop composes them once per output sample and
//! ends the chain with [`Signal::to_mono`], the one clamping bridge into the
//! unit range of an audio channel.
//!
//! Values are fixed point - counts of [`units::SCALE`]ths of full scale - so
//! every operation has an exact, machine-checked contract over the integers.

pub mod sig;
pub mod units;
pub mod wave;

pub use sig::Mono;
pub use sig::Signal;
