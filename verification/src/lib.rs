//! Citation metadata core: decoding a generic document tree into a typed
//! citation model and validating format-level rules, with the behaviour of
//! every function stated in its contract.

pub mod author;
pub mod dates;
pub mod decode;
pub mod enum_match;
pub mod errors;
pub mod fields;
pub mod laws;
pub mod model;
pub mod node;
pub mod strutil;
pub mod validate;
