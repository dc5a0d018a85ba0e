//! Query a parsed TOML document with a dot-separated path.
//!
//! A document is a [`Value`]: a tree of strings, integers, floats, booleans,
//! datetimes, arrays and string-keyed tables. [`extract_pattern`] walks
//! nested table lookups along a path such as `package.name` and returns a
//! reference to the sub-value it reaches, or an error naming the pattern
//! that failed. Parsing and re-serialization sit at the edges, behind a
//! small set of trusted calls into the `toml` and `serde_json` crates.

pub mod convert;
pub mod error;
pub mod extract;
pub mod laws;
pub mod value;

pub use convert::json_text_to_toml_text;
pub use convert::load_toml_from_str;
pub use convert::render_output;
pub use convert::OutputType;
pub use error::ToError;
pub use extract::extract_pattern;
pub use value::Value;
