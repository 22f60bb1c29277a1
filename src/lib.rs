//! Small pure functions that a host runtime calls by name: a greeting, integer
//! addition, the sum of a list and the reversal of a text.
//!
//! Integer arithmetic wraps around at the bounds of `i64`: `add` and `sum_list`
//! return the exact sum reduced into that range, so neither ever fails.

pub mod arith;
pub mod text;

pub use arith::{add, sum_list};
pub use text::{hello, reverse_string};
