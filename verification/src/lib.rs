//! A symbolic music-theory library: spelled pitch classes (notes with
//! sharps and flats), letter-correct interval resolution, diatonic keys,
//! chords as interval-slot patterns, and named chord progressions.

pub mod chord;
pub mod interval;
pub mod key;
pub mod note;
pub mod progression;
