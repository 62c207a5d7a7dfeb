//! A boundary between callers that speak in NUL-terminated byte strings and a
//! TeX/TikZ-to-SVG renderer.
//!
//! A conversion decodes the caller's bytes as UTF-8, hands the text to the
//! renderer, and encodes what came back as an owned NUL-terminated string:
//! the SVG text itself, or `"ERROR: "` followed by the renderer's error text.
//! No string is returned when the input is not UTF-8, or when the text to
//! return holds a NUL byte, which a NUL-terminated string cannot carry.

pub mod ctext;
pub mod reply;
pub mod convert;

pub use ctext::{encode_c_string, CText};
pub use convert::{free_string, tikz_to_svg};
pub use reply::encode_outcome;
