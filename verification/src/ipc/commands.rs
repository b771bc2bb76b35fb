//! Names of the commands the front end sends.

use vstd::prelude::*;

verus! {

pub const START_VIBE: &'static str = "StartVibe";
pub const HANDLE_SELECTION: &'static str = "HandleSelection";
pub const CANCEL: &'static str = "Cancel";
pub const OPEN_CONFIG: &'static str = "OpenConfig";
pub const RETRY: &'static str = "Retry";
pub const SELECT_MODE: &'static str = "SelectMode";
pub const CONFIRM: &'static str = "Confirm";

} // verus!
