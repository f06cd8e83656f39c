//! The two subcommands the tool understands. The binary parses the command
//! line into these records; the library says what each one does.

use vstd::prelude::*;

verus! {

/// The request to list the monitors and the input sources each one offers.
pub struct List {}

/// The request to switch one monitor to a named input source.
pub struct Switch {
    /// The input source to change to.
    pub input: String,
    /// The monitor to change inputs on.
    pub monitor: String,
}

} // verus!
