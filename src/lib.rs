//! Conversion of Chinese text between Simplified and Traditional script.
//!
//! The library maps a configuration tag to a conversion profile, builds a
//! converter for that profile on top of `ferrous_opencc`, and runs it on the
//! text. The choice of profile, the error handling and the laws relating the
//! tags to the profiles are proved here; the dictionary conversion itself is
//! the outside engine's.

mod profile;

pub use profile::{select_profile, ConversionProfile};
mod engine;

pub use engine::{converted, engine_builds, ConvertError, Converter};
mod convert;

pub use convert::convert_text;
