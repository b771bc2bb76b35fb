//! The project modes the setup screen offers, and its result.

use vstd::prelude::*;

verus! {

/// How a project's specification is made.
#[derive(Clone, Copy, PartialEq, Eq, Default, Debug, Structural)]
pub enum InteractiveMode {
    #[default]
    Generated,
    Manual,
    FromSpecFile,
    Default,
}

/// The modes in the order they are offered.
pub open spec fn all_modes() -> Seq<InteractiveMode> {
    seq![InteractiveMode::Generated, InteractiveMode::Manual, InteractiveMode::FromSpecFile, InteractiveMode::Default]
}

/// A mode's identifier (used over IPC).
pub open spec fn mode_id(m: InteractiveMode) -> Seq<char> {
    match m {
        InteractiveMode::Generated => "generated"@,
        InteractiveMode::Manual => "manual"@,
        InteractiveMode::FromSpecFile => "from_spec_file"@,
        InteractiveMode::Default => "default"@,
    }
}

/// A mode's label.
pub open spec fn mode_label(m: InteractiveMode) -> Seq<char> {
    match m {
        InteractiveMode::Generated => "🤖 AI Generated - Let AI research and create a full spec"@,
        InteractiveMode::Manual => "📝 Manual - Fill out project details step by step"@,
        InteractiveMode::FromSpecFile => "📁 From File - Use an existing spec file"@,
        InteractiveMode::Default => "⚡ Default - Use built-in specification"@,
    }
}

/// A mode's description.
pub open spec fn mode_description(m: InteractiveMode) -> Seq<char> {
    match m {
        InteractiveMode::Generated => "AI will analyze your project idea and generate a comprehensive specification"@,
        InteractiveMode::Manual => "Walk through a form to define project name, features, and tech stack"@,
        InteractiveMode::FromSpecFile => "Load an existing spec file from disk"@,
        InteractiveMode::Default => "Use a minimal built-in template to get started quickly"@,
    }
}

impl InteractiveMode {
    /// All modes, in the order they are offered.
    pub fn all() -> (v: Vec<InteractiveMode>)
        ensures
            v@ == all_modes(),
    {
        let mut v: Vec<InteractiveMode> = Vec::new();
        v.push(InteractiveMode::Generated);
        v.push(InteractiveMode::Manual);
        v.push(InteractiveMode::FromSpecFile);
        v.push(InteractiveMode::Default);
        assert(v@ =~= all_modes());
        v
    }

    /// The mode's identifier.
    pub fn id(&self) -> (s: &'static str)
        ensures
            s@ == mode_id(*self),
    {
        match self {
            InteractiveMode::Generated => "generated",
            InteractiveMode::Manual => "manual",
            InteractiveMode::FromSpecFile => "from_spec_file",
            InteractiveMode::Default => "default",
        }
    }

    /// The mode's label.
    pub fn label(&self) -> (s: &'static str)
        ensures
            s@ == mode_label(*self),
    {
        match self {
            InteractiveMode::Generated => "🤖 AI Generated - Let AI research and create a full spec",
            InteractiveMode::Manual => "📝 Manual - Fill out project details step by step",
            InteractiveMode::FromSpecFile => "📁 From File - Use an existing spec file",
            InteractiveMode::Default => "⚡ Default - Use built-in specification",
        }
    }

    /// The mode's description.
    pub fn description(&self) -> (s: &'static str)
        ensures
            s@ == mode_description(*self),
    {
        match self {
            InteractiveMode::Generated => "AI will analyze your project idea and generate a comprehensive specification",
            InteractiveMode::Manual => "Walk through a form to define project name, features, and tech stack",
            InteractiveMode::FromSpecFile => "Load an existing spec file from disk",
            InteractiveMode::Default => "Use a minimal built-in template to get started quickly",
        }
    }
}

/// What the setup screen chose.
#[derive(Debug, Clone, Copy)]
pub struct SetupResult {
    pub mode: Option<InteractiveMode>,
    pub should_configure: bool,
    pub reconfigure: bool,
}

/// What happens after a spec has been reviewed.
#[derive(Debug, Clone, Copy, PartialEq, Eq, Structural)]
pub enum SpecAction {
    Accept,
    Edit,
    SaveToFile,
    Refine,
    Regenerate,
    Cancel,
}

} // verus!
