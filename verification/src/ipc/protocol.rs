//! Message kinds and payloads. Messages are newline-delimited JSON with a
//! common envelope; the envelope and its JSON form live outside.

use vstd::prelude::*;
use crate::text::{owned, views};
use crate::tui::types::{InteractiveMode, all_modes, mode_description, mode_id, mode_label};

verus! {

/// The protocol version both sides check.
pub const PROTOCOL_VERSION: &'static str = "1.0.0";

/// Which way a message goes.
#[derive(Debug, Clone, Copy, PartialEq, Eq, Structural)]
pub enum Direction {
    RustToGo,
    GoToRust,
}

/// Whether a message is an event or a command.
#[derive(Debug, Clone, Copy, PartialEq, Eq, Structural)]
pub enum MessageType {
    Event,
    Command,
}

/// The engine is ready.
#[derive(Debug, Clone)]
pub struct EngineReadyPayload {
    pub version: String,
    pub work_dir: String,
}

/// A log message.
#[derive(Debug, Clone)]
pub struct LogLinePayload {
    pub level: String,
    pub message: String,
    pub timestamp: Option<String>,
}

/// A question for the user.
#[derive(Debug, Clone)]
pub struct UserPromptPayload {
    pub prompt_id: String,
    pub prompt_type: String,
    pub message: String,
    pub options: Option<Vec<String>>,
    pub default: Option<String>,
    pub allow_cancel: Option<bool>,
}

/// Work finished.
#[derive(Debug, Clone)]
pub struct FinishedPayload {
    pub success: bool,
    pub message: Option<String>,
}

/// An error report.
#[derive(Debug, Clone)]
pub struct ErrorPayload {
    pub code: Option<String>,
    pub message: String,
    pub fatal: Option<bool>,
}

/// The modes on offer.
#[derive(Debug, Clone)]
pub struct ModeListPayload {
    pub modes: Vec<ModeInfo>,
}

/// One mode on offer.
#[derive(Debug, Clone)]
pub struct ModeInfo {
    pub id: String,
    pub label: String,
    pub description: String,
}

/// Whether a configuration was found.
#[derive(Debug, Clone)]
pub struct ConfigLoadedPayload {
    pub has_existing_config: bool,
    pub config_path: Option<String>,
}

/// The mode the user chose.
#[derive(Debug, Clone)]
pub struct SelectModePayload {
    pub mode_id: String,
}

/// The answer to a question.
#[derive(Debug, Clone)]
pub struct HandleSelectionPayload {
    pub prompt_id: String,
    pub value: String,
    pub index: Option<usize>,
}

/// A yes/no answer.
#[derive(Debug, Clone)]
pub struct ConfirmPayload {
    pub prompt_id: String,
    pub confirmed: bool,
}

/// A request to cancel.
#[derive(Debug, Clone)]
pub struct CancelPayload {
    pub reason: Option<String>,
}

/// A request to start the development loop.
#[derive(Debug, Clone)]
pub struct StartVibePayload {
    pub limit: Option<usize>,
    pub single_model: Option<bool>,
    pub parallel: Option<usize>,
}

/// A mode as offered: identifier, label, description.
pub open spec fn mode_info_view(m: ModeInfo) -> (Seq<char>, Seq<char>, Seq<char>) {
    (m.id@, m.label@, m.description@)
}

/// The description of a mode as offered.
pub fn mode_info(m: InteractiveMode) -> (i: ModeInfo)
    ensures
        mode_info_view(i) == (mode_id(m), mode_label(m), mode_description(m)),
{
    ModeInfo { id: owned(m.id()), label: owned(m.label()), description: owned(m.description()) }
}

/// The modes on offer, in order.
pub fn mode_list() -> (p: ModeListPayload)
    ensures
        p.modes@.map_values(|m: ModeInfo| mode_info_view(m)) == all_modes().map_values(
            |m: InteractiveMode| (mode_id(m), mode_label(m), mode_description(m)),
        ),
{
    let all = InteractiveMode::all();
    let mut modes: Vec<ModeInfo> = Vec::new();
    let mut i: usize = 0;
    while i < all.len()
        invariant
            i <= all@.len(),
            all@ == all_modes(),
            modes@.map_values(|m: ModeInfo| mode_info_view(m)) == all@.subrange(0, i as int).map_values(
                |m: InteractiveMode| (mode_id(m), mode_label(m), mode_description(m)),
            ),
        decreases all.len() - i,
    {
        let ghost prev = modes@;
        let ghost m = all@[i as int];
        let info = mode_info(all[i]);
        modes.push(info);
        assert(all@.subrange(0, i + 1) =~= all@.subrange(0, i as int).push(m));
        assert(modes@.map_values(|m: ModeInfo| mode_info_view(m)) =~= prev.map_values(|m: ModeInfo| mode_info_view(m)).push(mode_info_view(info)));
        i = i + 1;
        assert(modes@.map_values(|m: ModeInfo| mode_info_view(m)) =~= all@.subrange(0, i as int).map_values(
            |m: InteractiveMode| (mode_id(m), mode_label(m), mode_description(m)),
        ));
    }
    assert(all@.subrange(0, all@.len() as int) =~= all@);
    ModeListPayload { modes }
}

/// The mode an identifier names, if any.
pub fn mode_by_id(id: &str) -> (r: Option<InteractiveMode>)
    ensures
        r matches Some(m) ==> mode_id(m) == id@,
        r is None ==> forall|i: int| 0 <= i < all_modes().len() ==> mode_id(#[trigger] all_modes()[i]) != id@,
{
    let all = InteractiveMode::all();
    let mut i: usize = 0;
    while i < all.len()
        invariant
            i <= all@.len(),
            all@ == all_modes(),
            forall|k: int| 0 <= k < i ==> mode_id(#[trigger] all_modes()[k]) != id@,
        decreases all.len() - i,
    {
        let m = all[i];
        if crate::template_xml::chars_eq(
            crate::text::to_chars(m.id()).as_slice(),
            crate::text::to_chars(id).as_slice(),
        ) {
            return Some(m);
        }
        i = i + 1;
    }
    None
}

/// The payload telling whether a configuration was found.
pub fn config_loaded(has_existing: bool, path: Option<&str>) -> (p: ConfigLoadedPayload)
    ensures
        p.has_existing_config == has_existing,
        match (p.config_path, path) {
            (Some(a), Some(b)) => a@ == b@,
            (None, None) => true,
            _ => false,
        },
{
    ConfigLoadedPayload {
        has_existing_config: has_existing,
        config_path: match path {
            Some(p) => Some(owned(p)),
            None => None,
        },
    }
}

} // verus!
