//! The setup screen: first the setup choice (or, with an existing
//! configuration, whether to reconfigure), then the project mode.

use vstd::prelude::*;
use super::keys::{Key, is_down, is_left, is_quit, is_right, is_up, key_down, key_left, key_quit, key_right, key_up};
use super::types::{InteractiveMode, SetupResult, all_modes};

verus! {

/// Where the setup screen stands.
#[derive(Debug, Clone, Copy, PartialEq, Eq, Structural)]
pub enum Phase {
    SetupChoice,
    ModeSelection,
    Done,
}

/// The setup screen's state.
#[derive(Debug, Clone, Copy)]
pub struct SetupState {
    pub phase: Phase,
    pub selected_mode: usize,
    pub setup_choice: usize,
    pub show_reconfigure: bool,
    pub reconfigure_selected: bool,
    pub should_exit: bool,
}

/// How many modes are offered.
pub open spec fn mode_count() -> usize {
    4
}

/// The state when the screen opens.
pub open spec fn setup_init(has_existing_config: bool) -> SetupState {
    SetupState {
        phase: Phase::SetupChoice,
        selected_mode: 0,
        setup_choice: 0,
        show_reconfigure: has_existing_config,
        reconfigure_selected: false,
        should_exit: false,
    }
}

/// The state after a key, in the setup choice with an existing
/// configuration: left/right toggle, `y`/`n` choose and go on, Enter goes
/// on, Escape or `q` leaves.
pub open spec fn reconfigure_next(s: SetupState, k: Key) -> SetupState {
    if is_left(k) || is_right(k) {
        SetupState { reconfigure_selected: !s.reconfigure_selected, ..s }
    } else if k == Key::Char('y') || k == Key::Char('Y') {
        SetupState { reconfigure_selected: true, phase: Phase::ModeSelection, ..s }
    } else if k == Key::Char('n') || k == Key::Char('N') {
        SetupState { reconfigure_selected: false, phase: Phase::ModeSelection, ..s }
    } else if k == Key::Enter {
        SetupState { phase: Phase::ModeSelection, ..s }
    } else if is_quit(k) {
        SetupState { should_exit: true, ..s }
    } else {
        s
    }
}

/// The state after a key, in the setup choice without a configuration:
/// up/down move between the two choices, Enter goes on, Escape or `q`
/// leaves.
pub open spec fn choice_next(s: SetupState, k: Key) -> SetupState {
    if is_up(k) {
        if s.setup_choice > 0 { SetupState { setup_choice: (s.setup_choice - 1) as usize, ..s } } else { s }
    } else if is_down(k) {
        if s.setup_choice < 1 { SetupState { setup_choice: (s.setup_choice + 1) as usize, ..s } } else { s }
    } else if k == Key::Enter {
        SetupState { phase: Phase::ModeSelection, ..s }
    } else if is_quit(k) {
        SetupState { should_exit: true, ..s }
    } else {
        s
    }
}

/// The state after a key, in the mode selection: up/down move among the
/// modes, Enter chooses, Escape or `q` leaves.
pub open spec fn mode_next(s: SetupState, k: Key) -> SetupState {
    if is_up(k) {
        if s.selected_mode > 0 { SetupState { selected_mode: (s.selected_mode - 1) as usize, ..s } } else { s }
    } else if is_down(k) {
        if s.selected_mode < mode_count() - 1 {
            SetupState { selected_mode: (s.selected_mode + 1) as usize, ..s }
        } else {
            s
        }
    } else if k == Key::Enter {
        SetupState { phase: Phase::Done, ..s }
    } else if is_quit(k) {
        SetupState { should_exit: true, ..s }
    } else {
        s
    }
}

/// The state after a key.
pub open spec fn setup_next(s: SetupState, k: Key) -> SetupState {
    match s.phase {
        Phase::SetupChoice => if s.show_reconfigure { reconfigure_next(s, k) } else { choice_next(s, k) },
        Phase::ModeSelection => mode_next(s, k),
        Phase::Done => s,
    }
}

/// The state's selections are within range.
pub open spec fn setup_well_formed(s: SetupState) -> bool {
    s.selected_mode < mode_count() && s.setup_choice <= 1
}

/// The choice the screen ends with: the mode chosen, configuring first
/// (only without an existing configuration), reconfiguring (only with one);
/// no mode when it was left without a choice.
pub open spec fn setup_outcome(s: SetupState, has_existing_config: bool) -> (Option<InteractiveMode>, bool, bool) {
    if s.phase == Phase::Done {
        (
            Some(all_modes()[s.selected_mode as int]),
            !has_existing_config && s.setup_choice == 1,
            has_existing_config && s.reconfigure_selected,
        )
    } else {
        (None, false, false)
    }
}

impl SetupState {
    /// The state when the screen opens.
    pub fn new(has_existing_config: bool) -> (s: Self)
        ensures
            s == setup_init(has_existing_config),
    {
        SetupState {
            phase: Phase::SetupChoice,
            selected_mode: 0,
            setup_choice: 0,
            show_reconfigure: has_existing_config,
            reconfigure_selected: false,
            should_exit: false,
        }
    }

    /// Whether the screen closes: it was left or a mode was chosen.
    pub fn finished(&self) -> (b: bool)
        ensures
            b == (self.should_exit || self.phase == Phase::Done),
    {
        self.should_exit || self.phase == Phase::Done
    }

    /// Reacts to a key.
    pub fn on_key(&mut self, k: Key)
        requires
            setup_well_formed(*old(self)),
        ensures
            *final(self) == setup_next(*old(self), k),
            setup_well_formed(*final(self)),
    {
        match self.phase {
            Phase::SetupChoice => {
                if self.show_reconfigure {
                    if key_left(k) || key_right(k) {
                        self.reconfigure_selected = !self.reconfigure_selected;
                    } else if k == Key::Char('y') || k == Key::Char('Y') {
                        self.reconfigure_selected = true;
                        self.phase = Phase::ModeSelection;
                    } else if k == Key::Char('n') || k == Key::Char('N') {
                        self.reconfigure_selected = false;
                        self.phase = Phase::ModeSelection;
                    } else if k == Key::Enter {
                        self.phase = Phase::ModeSelection;
                    } else if key_quit(k) {
                        self.should_exit = true;
                    }
                } else {
                    if key_up(k) {
                        if self.setup_choice > 0 {
                            self.setup_choice = self.setup_choice - 1;
                        }
                    } else if key_down(k) {
                        if self.setup_choice < 1 {
                            self.setup_choice = self.setup_choice + 1;
                        }
                    } else if k == Key::Enter {
                        self.phase = Phase::ModeSelection;
                    } else if key_quit(k) {
                        self.should_exit = true;
                    }
                }
            },
            Phase::ModeSelection => {
                if key_up(k) {
                    if self.selected_mode > 0 {
                        self.selected_mode = self.selected_mode - 1;
                    }
                } else if key_down(k) {
                    if self.selected_mode < 3 {
                        self.selected_mode = self.selected_mode + 1;
                    }
                } else if k == Key::Enter {
                    self.phase = Phase::Done;
                } else if key_quit(k) {
                    self.should_exit = true;
                }
            },
            Phase::Done => {},
        }
    }

    /// The result the screen gives once it closes.
    pub fn result(&self, has_existing_config: bool) -> (r: SetupResult)
        requires
            setup_well_formed(*self),
        ensures
            (r.mode, r.should_configure, r.reconfigure) == setup_outcome(*self, has_existing_config),
    {
        if self.phase == Phase::Done {
            let modes = InteractiveMode::all();
            SetupResult {
                mode: Some(modes[self.selected_mode]),
                should_configure: !has_existing_config && self.setup_choice == 1,
                reconfigure: has_existing_config && self.reconfigure_selected,
            }
        } else {
            SetupResult { mode: None, should_configure: false, reconfigure: false }
        }
    }
}

/// What the program does once the setup screen has closed.
#[derive(Debug, Clone, Copy, PartialEq, Eq, Structural)]
pub enum SetupNext {
    /// No mode was chosen: print "Cancelled." and stop.
    Cancel,
    /// Run a mode, first running the configuration editor when asked to,
    /// otherwise loading the saved configuration.
    Run { mode: InteractiveMode, configure: bool },
}

/// The step that a setup result leads to.
pub open spec fn next_spec(r: SetupResult) -> SetupNext {
    match r.mode {
        None => SetupNext::Cancel,
        Some(m) => SetupNext::Run { mode: m, configure: r.reconfigure || r.should_configure },
    }
}

/// What to do after the setup screen: cancel without a mode, otherwise run
/// the mode, configuring first when the user chose to configure or to
/// reconfigure.
pub fn next_after_setup(result: SetupResult) -> (n: SetupNext)
    ensures
        n == next_spec(result),
{
    match result.mode {
        None => SetupNext::Cancel,
        Some(m) => SetupNext::Run { mode: m, configure: result.reconfigure || result.should_configure },
    }
}

/// Every key keeps the setup screen's selections within range, and once a
/// mode is chosen no key changes the state.
pub proof fn lemma_setup_keys_keep_bounds(s: SetupState, k: Key)
    requires
        setup_well_formed(s),
    ensures
        setup_well_formed(setup_next(s, k)),
        s.phase == Phase::Done ==> setup_next(s, k) == s,
{
}

} // verus!
