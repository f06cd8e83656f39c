//! Enumerating computer monitors and switching their active video input over
//! DDC/CI (Display Data Channel / Command Interface).
//!
//! The library holds the decision logic of the tool: the static table from
//! input-source labels to VCP (Virtual Control Panel) codes, the construction
//! of monitor records from what each display reports, the lines the list
//! operation prints, and the plan of set-feature commands the switch operation
//! issues. The hardware itself — display enumeration and the DDC/CI bus
//! transactions — is driven by the thin binary around the library, which hands
//! in plain per-display reports and carries the planned commands out.

pub mod commands;
pub mod inputs;
pub mod monitors;
pub mod switching;
