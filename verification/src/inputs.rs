//! The static table from human-readable input-source labels to the VCP values
//! that select them, and the VCP feature code the table belongs to.

use vstd::prelude::*;
use vstd::string::*;

verus! {

/// The VCP feature code for input-source selection.
pub const INPUT_SELECT: u8 = 0x60;

/// The static label-to-code table, as a mathematical function: the VCP value
/// that a label selects, or `None` for a label the table does not know.
pub open spec fn spec_input_code(label: Seq<char>) -> Option<u16> {
    if label == "DVI 1"@ {
        Some(0x03u16)
    } else if label == "DVI 2"@ {
        Some(0x04u16)
    } else if label == "DisplayPort 1"@ {
        Some(0x0fu16)
    } else if label == "DisplayPort 2"@ {
        Some(0x10u16)
    } else if label == "HDMI 1"@ {
        Some(0x11u16)
    } else if label == "HDMI 2"@ {
        Some(0x12u16)
    } else {
        None
    }
}

/// Looks a label up in the static input-code table.
pub fn input_code(label: &String) -> (r: Option<u16>)
    ensures
        r == spec_input_code(label@),
{
    if *label == "DVI 1".to_owned() {
        Some(0x03)
    } else if *label == "DVI 2".to_owned() {
        Some(0x04)
    } else if *label == "DisplayPort 1".to_owned() {
        Some(0x0f)
    } else if *label == "DisplayPort 2".to_owned() {
        Some(0x10)
    } else if *label == "HDMI 1".to_owned() {
        Some(0x11)
    } else if *label == "HDMI 2".to_owned() {
        Some(0x12)
    } else {
        None
    }
}

} // verus!
