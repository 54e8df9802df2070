//! Verified core of a PNG-tuber video source: vowel classification, the
//! pixel font of the timing overlay, animated image timelines, audio
//! sample windows and the choice of which image layers are drawn.

pub mod vowel;
pub mod chars;
pub mod profiling;
pub mod canvas;
pub mod image_asset;
pub mod source;
pub mod audio;
pub mod float_bits;
