//! An isomorphic musical keyboard core: a 2-D lattice of physical keys, a
//! basis vector that turns lattice displacements into pitch offsets, a fixed
//! catalogue of layout presets, and a translator from key events to MIDI-style
//! messages.

pub mod keys;
pub mod notes;
pub mod points;
pub mod presets;
pub mod translator;
