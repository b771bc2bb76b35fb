//! Names of the events sent to the front end.

use vstd::prelude::*;

verus! {

pub const ENGINE_READY: &'static str = "EngineReady";
pub const LOG_LINE: &'static str = "LogLine";
pub const PROGRESS_UPDATE: &'static str = "ProgressUpdate";
pub const USER_PROMPT: &'static str = "UserPrompt";
pub const FINISHED: &'static str = "Finished";
pub const ERROR: &'static str = "Error";
pub const MODE_LIST: &'static str = "ModeList";
pub const CONFIG_LOADED: &'static str = "ConfigLoaded";

} // verus!
