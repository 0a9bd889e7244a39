//! Presets of an audio effects chain: named snapshots of the parameters of
//! every effect, taken from a settings store, kept in files and brought back
//! into the store, where only the keys that differ are written.

pub mod presets;
pub mod settings;
pub mod text;
