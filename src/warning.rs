use vstd::prelude::*;
use vstd::string::*;
use crate::clock::seconds_since;
use crate::text::{decimal, decimal_string};

verus! {

/// Shortest time the warning stays on screen, in seconds.
pub const MIN_DISPLAY_SECS: u64 = 5;

/// Where the consent screen stands.
#[derive(Debug, Clone, Copy, PartialEq, Eq, Structural)]
pub enum WarningState {
    /// The warning is shown and waits for a choice.
    ShowingWarning,
    /// The user chose the reduced-intensity mode.
    SafetyModeSelected,
    /// The user acknowledged the risks and continues.
    ContinueSelected,
    /// The user chose to leave.
    ExitSelected,
    /// The warning was dismissed.
    Dismissed,
}

/// A key as the consent screen sees it.
#[derive(Debug, Clone, Copy, PartialEq, Eq, Structural)]
pub enum WarningKey {
    ArrowLeft,
    ArrowRight,
    /// A key that produced one character.
    Character(char),
    Enter,
    Escape,
    Other,
}

/// The choice that confirming option `selected` makes: 0 continues, 1 picks
/// the safety mode, anything else exits.
pub open spec fn chosen_state(selected: usize) -> WarningState {
    if selected == 0 {
        WarningState::ContinueSelected
    } else if selected == 1 {
        WarningState::SafetyModeSelected
    } else {
        WarningState::ExitSelected
    }
}

/// The highlighted option after a pressed `key`.
pub open spec fn selection_after(selected: usize, key: WarningKey) -> usize {
    match key {
        WarningKey::ArrowLeft => if selected > 0 {
            (selected - 1) as usize
        } else {
            selected
        },
        WarningKey::ArrowRight => if selected < 2 {
            (selected + 1) as usize
        } else {
            selected
        },
        WarningKey::Character(c) => if c == '1' {
            0
        } else if c == '2' {
            1
        } else if c == '3' {
            2
        } else {
            selected
        },
        WarningKey::Escape => 2,
        _ => selected,
    }
}

/// A pressed `key` confirms the highlighted option.
pub open spec fn key_confirms(key: WarningKey) -> bool {
    match key {
        WarningKey::Character(c) => c == '1' || c == '2' || c == '3',
        WarningKey::Enter => true,
        WarningKey::Escape => true,
        _ => false,
    }
}

pub open spec fn selection_line(selected: usize) -> Seq<char> {
    if selected == 0 {
        "→ [1] Continue  [ ] Safety Mode  [ ] Exit"@
    } else if selected == 1 {
        "[ ] Continue  → [2] Safety Mode  [ ] Exit"@
    } else {
        "[ ] Continue  [ ] Safety Mode  → [3] Exit"@
    }
}

pub open spec fn warning_head() -> Seq<char> {
    "\n⚠️  PHOTOSENSITIVE EPILEPSY WARNING ⚠️\n\nAruu Audio Visualizer contains flashing lights and visual effects that may\ntrigger seizures in individuals with photosensitive epilepsy.\n\n🚨 DO NOT USE if you or anyone in your family has a history of seizures or epilepsy.\n\nStop using immediately if you experience:\n• Dizziness, nausea, or disorientation\n• Altered vision or muscle twitching\n• Loss of awareness or convulsions\n\nSafety recommendations:\n• Use in a well-lit room at least 2 feet from screen\n• Take breaks every 30 minutes\n• Enable Safety Mode for reduced visual intensity\n\n"@
}

pub open spec fn warning_controls() -> Seq<char> {
    "\n\nControls: Arrow Keys / 1-2-3 / Enter to select / ESC to exit\nTime displayed: "@
}

pub open spec fn warning_tail() -> Seq<char> {
    "s (minimum 5s required)\n"@
}

/// The warning text with option `selected` highlighted, after
/// `elapsed_secs` seconds on screen.
pub open spec fn warning_text_of(selected: usize, elapsed_secs: u64) -> Seq<char> {
    warning_head() + selection_line(selected) + warning_controls() + decimal(
        elapsed_secs as nat,
    ) + warning_tail()
}

/// The photosensitivity warning that must be answered before visuals start.
pub struct EpilepsyWarning {
    state: WarningState,
    start_time: std::time::Instant,
    /// The highlighted option: 0 continue, 1 safety mode, 2 exit.
    pub selected_option: usize,
}

/// The observable state of an [`EpilepsyWarning`].
pub struct WarningView {
    pub state: WarningState,
    pub selected: usize,
}

impl View for EpilepsyWarning {
    type V = WarningView;

    closed spec fn view(&self) -> WarningView {
        WarningView { state: self.state, selected: self.selected_option }
    }
}

impl EpilepsyWarning {

    /// Shows the warning, with the safety mode highlighted.
    pub fn new() -> (r: EpilepsyWarning)
        ensures
            r@.state == WarningState::ShowingWarning,
            r@.selected == 1,
    {
        EpilepsyWarning {
            state: WarningState::ShowingWarning,
            start_time: std::time::Instant::now(),
            selected_option: 1,
        }
    }

    /// Handles a key while the warning is shown: arrows move the highlight,
    /// 1 to 3 pick and confirm an option, Enter confirms the highlighted one
    /// and Escape confirms exit. Returns whether the key was consumed, which
    /// is the case for every key while the warning is shown.
    pub fn handle_input(&mut self, key: WarningKey, pressed: bool) -> (r: bool)
        ensures
            r == (old(self)@.state == WarningState::ShowingWarning),
            (r && pressed) ==> final(self)@.selected == selection_after(
                old(self)@.selected,
                key,
            ),
            (r && pressed) ==> final(self)@.state == if key_confirms(key) {
                chosen_state(selection_after(old(self)@.selected, key))
            } else {
                WarningState::ShowingWarning
            },
            !(r && pressed) ==> final(self)@.selected == old(self)@.selected
                && final(self)@.state == old(self)@.state,
    {
        if self.state != WarningState::ShowingWarning {
            return false;
        }
        if !pressed {
            return true;
        }
        match key {
            WarningKey::ArrowLeft => {
                if self.selected_option > 0 {
                    self.selected_option = self.selected_option - 1;
                }
            },
            WarningKey::ArrowRight => {
                if self.selected_option < 2 {
                    self.selected_option = self.selected_option + 1;
                }
            },
            WarningKey::Character(c) => {
                if c == '1' {
                    self.selected_option = 0;
                    self.confirm_selection();
                } else if c == '2' {
                    self.selected_option = 1;
                    self.confirm_selection();
                } else if c == '3' {
                    self.selected_option = 2;
                    self.confirm_selection();
                }
            },
            WarningKey::Enter => {
                self.confirm_selection();
            },
            WarningKey::Escape => {
                self.selected_option = 2;
                self.confirm_selection();
            },
            WarningKey::Other => {},
        }
        true
    }

    /// Confirms the highlighted option.
    pub fn confirm_selection(&mut self)
        ensures
            final(self)@.state == chosen_state(old(self)@.selected),
            final(self)@.selected == old(self)@.selected,
    {
        self.state = if self.selected_option == 0 {
            WarningState::ContinueSelected
        } else if self.selected_option == 1 {
            WarningState::SafetyModeSelected
        } else {
            WarningState::ExitSelected
        };
    }

    pub fn get_state(&self) -> (r: WarningState)
        ensures
            r == self@.state,
    {
        self.state
    }

    /// The warning is still waiting for a choice.
    pub fn should_display(&self) -> (r: bool)
        ensures
            r == (self@.state == WarningState::ShowingWarning),
    {
        self.state == WarningState::ShowingWarning
    }

    pub fn should_exit(&self) -> (r: bool)
        ensures
            r == (self@.state == WarningState::ExitSelected),
    {
        self.state == WarningState::ExitSelected
    }

    pub fn wants_safety_mode(&self) -> (r: bool)
        ensures
            r == (self@.state == WarningState::SafetyModeSelected),
    {
        self.state == WarningState::SafetyModeSelected
    }

    pub fn dismiss(&mut self)
        ensures
            final(self)@.state == WarningState::Dismissed,
            final(self)@.selected == old(self)@.selected,
    {
        self.state = WarningState::Dismissed;
    }

    /// The warning text as it reads after `elapsed_secs` seconds on screen.
    pub fn warning_text(&self, elapsed_secs: u64) -> (r: String)
        ensures
            r@ == warning_text_of(self@.selected, elapsed_secs),
    {
        let line = if self.selected_option == 0 {
            "→ [1] Continue  [ ] Safety Mode  [ ] Exit"
        } else if self.selected_option == 1 {
            "[ ] Continue  → [2] Safety Mode  [ ] Exit"
        } else {
            "[ ] Continue  [ ] Safety Mode  → [3] Exit"
        };
        let mut text = String::from_str(
            "\n⚠️  PHOTOSENSITIVE EPILEPSY WARNING ⚠️\n\nAruu Audio Visualizer contains flashing lights and visual effects that may\ntrigger seizures in individuals with photosensitive epilepsy.\n\n🚨 DO NOT USE if you or anyone in your family has a history of seizures or epilepsy.\n\nStop using immediately if you experience:\n• Dizziness, nausea, or disorientation\n• Altered vision or muscle twitching\n• Loss of awareness or convulsions\n\nSafety recommendations:\n• Use in a well-lit room at least 2 feet from screen\n• Take breaks every 30 minutes\n• Enable Safety Mode for reduced visual intensity\n\n",
        );
        text.append(line);
        text.append(
            "\n\nControls: Arrow Keys / 1-2-3 / Enter to select / ESC to exit\nTime displayed: ",
        );
        let secs = decimal_string(elapsed_secs);
        text.append(secs.as_str());
        text.append("s (minimum 5s required)\n");
        text
    }

    /// The warning text as it reads now.
    pub fn get_warning_text(&self) -> (r: String)
        ensures
            exists|secs: u64| r@ == warning_text_of(self@.selected, secs),
    {
        let secs = seconds_since(&self.start_time);
        self.warning_text(secs)
    }

    /// Whether `elapsed_secs` seconds on screen meet the minimum display time.
    pub fn minimum_time_reached(elapsed_secs: u64) -> (r: bool)
        ensures
            r == (elapsed_secs >= MIN_DISPLAY_SECS),
    {
        elapsed_secs >= MIN_DISPLAY_SECS
    }

    /// Whether the warning has been on screen for the minimum display time,
    /// by the clock.
    pub fn minimum_time_elapsed(&self) -> bool {
        Self::minimum_time_reached(seconds_since(&self.start_time))
    }
}

impl Default for EpilepsyWarning {
    fn default() -> (r: EpilepsyWarning)
        ensures
            r@.state == WarningState::ShowingWarning,
            r@.selected == 1,
    {
        EpilepsyWarning::new()
    }
}

} // verus!
