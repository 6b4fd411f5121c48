//! A small, verified parser for machine-readable version-control status
//! output.
//!
//! Each status line has the form `<2-char code><space><path>`: the first two
//! characters are a change code from a fixed set, the third character is a
//! single separating space, and everything after it is the path, taken
//! verbatim (further leading spaces belong to the path). The fixed set of
//! codes is `" D"`, `" M"`, `"??"`, `" A"`, `"MM"` and `"AM"`; any other code,
//! and any line too short to carry one, is a malformed status line and aborts
//! the whole parse.

pub mod color;
pub mod kind;
pub mod parse;
