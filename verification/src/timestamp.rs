//! Instants, as the library stores them.

use vstd::prelude::*;

verus! {

/// An instant in UTC: whole seconds since the Unix epoch, and the
/// nanoseconds past that second.
#[derive(Clone, Copy, Debug, PartialEq, Eq, Structural)]
pub struct Timestamp {
    pub secs: i64,
    pub nanos: u32,
}

} // verus!
