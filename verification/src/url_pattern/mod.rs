//! Path templates: their grammar, the compiler from text to matcher, and the
//! matcher itself.

pub mod capture;
pub mod encode;
pub mod error;
pub mod ident;
pub mod laws;
pub mod pattern;
pub mod segment;
pub mod parsed;

pub use capture::{PathCapture, SegmentPatternValue};
pub use error::InvalidUrlPattern;
pub use ident::Ident;
pub use pattern::UrlPattern;
pub use segment::SegmentPattern;
