//! Symbols for status indicators.

use vstd::prelude::*;

verus! {

pub const SUCCESS: &'static str = "✔";
pub const ERROR: &'static str = "✖";
pub const WARNING: &'static str = "⚠";
pub const PENDING: &'static str = "○";
pub const RUNNING: &'static str = "●";
pub const ARROW: &'static str = "→";
pub const CHEVRON: &'static str = "❯";
pub const BULLET: &'static str = "•";
pub const INFO: &'static str = "ℹ";
pub const SPARKLE: &'static str = "✨";
pub const LOCK: &'static str = "🔒";
pub const CLOCK: &'static str = "🕒";

} // verus!
