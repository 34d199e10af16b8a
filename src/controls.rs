use vstd::prelude::*;
use vstd::string::*;
use crate::quality::QualityLevel;
use crate::safety::{
    elapsed_ms, level_label, level_multipliers, emergency_multipliers, stop_banner,
    SafetyEngine, SafetyLevel, SafetyMultipliers, SafetyState,
};
use crate::shaders::{all_shader_types, ShaderType};
use crate::warning::{EpilepsyWarning, WarningKey, WarningState, WarningView};

verus! {

/// Longest gap between two Escape presses that still counts as a double
/// press, in milliseconds.
pub const DOUBLE_PRESS_MS: u64 = 2000;

/// A key as the controls see it.
#[derive(Debug, Clone, Copy, PartialEq, Eq, Structural)]
pub enum ControlKey {
    /// A digit key of the main row, 0 to 9.
    Digit(u8),
    Space,
    Tab,
    KeyA,
    KeyQ,
    KeyW,
    KeyE,
    KeyR,
    KeyT,
    KeyY,
    KeyP,
    KeyH,
    F1,
    Escape,
    KeyS,
    KeyZ,
    KeyX,
    Other,
}

/// What the host must do after a handled key.
#[derive(Debug, Clone, Copy, PartialEq, Eq, Structural)]
pub enum UiAction {
    /// Nothing beyond the state change.
    Nothing,
    /// Switch to this shader at once.
    SetShader(ShaderType),
    /// Render at this quality.
    SetQuality(QualityLevel),
}

/// The next level when the user cycles safety levels; the cycle skips the
/// disabled level, and leaves it for the most restrictive one.
pub open spec fn cycled_level(l: SafetyLevel) -> SafetyLevel {
    match l {
        SafetyLevel::UltraSafe => SafetyLevel::Safe,
        SafetyLevel::Safe => SafetyLevel::Moderate,
        SafetyLevel::Moderate => SafetyLevel::Standard,
        SafetyLevel::Standard => SafetyLevel::UltraSafe,
        SafetyLevel::Disabled => SafetyLevel::UltraSafe,
    }
}

/// `lines` joined by line breaks.
pub open spec fn join_lines(lines: Seq<Seq<char>>) -> Seq<char>
    decreases lines.len(),
{
    if lines.len() == 0 {
        Seq::empty()
    } else if lines.len() == 1 {
        lines[0]
    } else {
        join_lines(lines.drop_last()) + "\n"@ + lines.last()
    }
}

/// Each warning as a display line.
pub open spec fn warning_lines(warnings: Seq<Seq<char>>) -> Seq<Seq<char>> {
    warnings.map_values(|w: Seq<char>| "⚠️  "@ + w)
}

/// The lines of the safety status panel for engine state `s`.
pub open spec fn status_lines(s: SafetyState) -> Seq<Seq<char>> {
    let head = seq![
        "🛡️  SAFETY STATUS"@,
        "===================="@,
        if s.stopped {
            stop_banner()
        } else {
            level_label(s.level)
        },
    ];
    let stop = if s.stopped {
        seq![stop_banner(), "Press X to resume"@]
    } else {
        seq![]
    };
    let warn = if s.warnings.len() > 0 {
        seq!["⚠️  High visual activity detected"@]
    } else {
        seq![]
    };
    head + stop + warn + warning_lines(s.warnings)
}

/// The observable state of a [`UserInterface`].
pub struct UiView {
    pub auto_shader: bool,
    pub quality_override: Option<QualityLevel>,
    pub show_performance: bool,
    pub shader_index: usize,
    pub available: Seq<ShaderType>,
    pub show_help: bool,
    pub safety: SafetyState,
    pub warning: WarningView,
    pub level: SafetyLevel,
    pub show_safety_status: bool,
    pub esc_presses: u32,
    pub last_esc_ms: Option<u64>,
    pub exit: bool,
}

impl UiView {
    pub open spec fn wf(self) -> bool {
        &&& self.available == all_shader_types()
        &&& self.shader_index < 8
        &&& self.safety.wf()
    }

    pub open spec fn with_shader(self, i: usize) -> (UiView, Option<UiAction>) {
        (
            UiView { auto_shader: false, shader_index: i, ..self },
            Some(UiAction::SetShader(self.available[i as int])),
        )
    }

    pub open spec fn with_quality(self, q: Option<QualityLevel>) -> (UiView, Option<UiAction>) {
        (
            UiView { quality_override: q, ..self },
            Some(
                match q {
                    Some(level) => UiAction::SetQuality(level),
                    None => UiAction::Nothing,
                },
            ),
        )
    }

    pub open spec fn escape_is_double(self, now_ms: u64) -> bool {
        match self.last_esc_ms {
            Some(t) => elapsed_ms(now_ms, t) <= DOUBLE_PRESS_MS,
            None => false,
        }
    }

    /// The state after an Escape press at `now_ms`: a second press soon
    /// after the first asks to exit; otherwise the press stops all effects.
    pub open spec fn after_escape(self, now_ms: u64) -> UiView {
        if self.escape_is_double(now_ms) {
            let n = if self.esc_presses >= 2 {
                2
            } else {
                (self.esc_presses + 1) as u32
            };
            UiView { esc_presses: n, exit: self.exit || n >= 2, last_esc_ms: Some(now_ms), ..self }
        } else {
            UiView {
                esc_presses: 1,
                safety: self.safety.stopped_now(),
                last_esc_ms: Some(now_ms),
                ..self
            }
        }
    }

    pub open spec fn after_cycle_level(self) -> UiView {
        let l = cycled_level(self.level);
        UiView { level: l, safety: SafetyState { level: l, ..self.safety }, ..self }
    }

    pub open spec fn after_resume(self) -> UiView {
        if self.safety.stopped {
            UiView { safety: self.safety.resumed(), ..self }
        } else {
            self
        }
    }

    /// The state and the action after a pressed `key` at `now_ms`; `None`
    /// as the action when the key is not one of the controls.
    pub open spec fn key_step(self, key: ControlKey, now_ms: u64) -> (UiView, Option<UiAction>) {
        match key {
            ControlKey::Digit(d) => if 1 <= d <= 8 {
                self.with_shader((d - 1) as usize)
            } else {
                (self, None)
            },
            ControlKey::Space => self.with_shader(((self.shader_index + 1) % 8) as usize),
            ControlKey::Tab => self.with_shader(
                if self.shader_index == 0 {
                    7
                } else {
                    (self.shader_index - 1) as usize
                },
            ),
            ControlKey::KeyA => (
                UiView { auto_shader: !self.auto_shader, ..self },
                Some(UiAction::Nothing),
            ),
            ControlKey::KeyQ => self.with_quality(Some(QualityLevel::Potato)),
            ControlKey::KeyW => self.with_quality(Some(QualityLevel::Low)),
            ControlKey::KeyE => self.with_quality(Some(QualityLevel::Medium)),
            ControlKey::KeyR => self.with_quality(Some(QualityLevel::High)),
            ControlKey::KeyT => self.with_quality(Some(QualityLevel::Ultra)),
            ControlKey::KeyY => self.with_quality(None),
            ControlKey::KeyP => (
                UiView { show_performance: !self.show_performance, ..self },
                Some(UiAction::Nothing),
            ),
            ControlKey::KeyH | ControlKey::F1 => (
                UiView { show_help: !self.show_help, ..self },
                Some(UiAction::Nothing),
            ),
            ControlKey::Escape => (self.after_escape(now_ms), Some(UiAction::Nothing)),
            ControlKey::KeyS => (self.after_cycle_level(), Some(UiAction::Nothing)),
            ControlKey::KeyZ => (
                UiView { show_safety_status: !self.show_safety_status, ..self },
                Some(UiAction::Nothing),
            ),
            ControlKey::KeyX => (self.after_resume(), Some(UiAction::Nothing)),
            ControlKey::Other => (self, None),
        }
    }
}

/// The user-facing controls: shader choice, quality override, overlays, the
/// safety level and emergency stop, and the consent screen.
pub struct UserInterface {
    /// Whether the shader follows the music on its own.
    pub auto_shader_enabled: bool,
    /// A quality chosen by the user; `None` leaves it to the renderer.
    pub quality_override: Option<QualityLevel>,
    pub show_performance_overlay: bool,
    /// Position of the current shader in `available_shaders`.
    pub shader_cycle_index: usize,
    /// The shaders the user cycles through.
    pub available_shaders: Vec<ShaderType>,
    show_help: bool,
    pub safety_engine: SafetyEngine,
    pub epilepsy_warning: EpilepsyWarning,
    current_safety_level: SafetyLevel,
    pub show_safety_status: bool,
    esc_press_count: u32,
    last_esc_ms: Option<u64>,
    should_exit: bool,
}

impl View for UserInterface {
    type V = UiView;

    closed spec fn view(&self) -> UiView {
        UiView {
            auto_shader: self.auto_shader_enabled,
            quality_override: self.quality_override,
            show_performance: self.show_performance_overlay,
            shader_index: self.shader_cycle_index,
            available: self.available_shaders@,
            show_help: self.show_help,
            safety: self.safety_engine@,
            warning: self.epilepsy_warning@,
            level: self.current_safety_level,
            show_safety_status: self.show_safety_status,
            esc_presses: self.esc_press_count,
            last_esc_ms: self.last_esc_ms,
            exit: self.should_exit,
        }
    }
}

impl UserInterface {
    /// Automatic shader choice, automatic quality, the consent screen shown,
    /// the safe level, and the safety status displayed.
    pub fn new() -> (r: UserInterface)
        ensures
            r@.wf(),
            r@.auto_shader,
            r@.quality_override is None,
            !r@.show_performance,
            r@.shader_index == 0,
            !r@.show_help,
            r@.level == SafetyLevel::Safe,
            r@.safety.level == SafetyLevel::Safe,
            !r@.safety.stopped,
            r@.warning.state == WarningState::ShowingWarning,
            r@.show_safety_status,
            r@.esc_presses == 0,
            r@.last_esc_ms is None,
            !r@.exit,
    {
        let available_shaders = vec![
            ShaderType::Classic,
            ShaderType::ParametricWave,
            ShaderType::Plasma,
            ShaderType::Kaleidoscope,
            ShaderType::Tunnel,
            ShaderType::Particle,
            ShaderType::Fractal,
            ShaderType::Spectralizer,
        ];
        assert(available_shaders@ =~= all_shader_types());
        UserInterface {
            auto_shader_enabled: true,
            quality_override: None,
            show_performance_overlay: false,
            shader_cycle_index: 0,
            available_shaders,
            show_help: false,
            safety_engine: SafetyEngine::new(),
            epilepsy_warning: EpilepsyWarning::new(),
            current_safety_level: SafetyLevel::Safe,
            show_safety_status: true,
            esc_press_count: 0,
            last_esc_ms: None,
            should_exit: false,
        }
    }

    fn select_shader(&mut self, i: usize) -> (r: Option<UiAction>)
        requires
            old(self)@.wf(),
            i < 8,
        ensures
            (final(self)@, r) == old(self)@.with_shader(i),
    {
        self.auto_shader_enabled = false;
        self.shader_cycle_index = i;
        Some(UiAction::SetShader(self.available_shaders[i]))
    }

    fn select_quality(&mut self, q: Option<QualityLevel>) -> (r: Option<UiAction>)
        ensures
            (final(self)@, r) == old(self)@.with_quality(q),
    {
        self.quality_override = q;
        match q {
            Some(level) => Some(UiAction::SetQuality(level)),
            None => Some(UiAction::Nothing),
        }
    }

    /// Applies a key event at `now_ms`. Returns `None` for a key that is not
    /// one of the controls or that was released, else the action the host
    /// must carry out.
    pub fn handle_keyboard_input(&mut self, key: ControlKey, pressed: bool, now_ms: u64) -> (r:
        Option<UiAction>)
        requires
            old(self)@.wf(),
        ensures
            final(self)@.wf(),
            !pressed ==> r is None && final(self)@ == old(self)@,
            pressed ==> (final(self)@, r) == old(self)@.key_step(key, now_ms),
    {
        if !pressed {
            return None;
        }
        match key {
            ControlKey::Digit(d) => {
                if 1 <= d && d <= 8 {
                    self.select_shader((d - 1) as usize)
                } else {
                    None
                }
            },
            ControlKey::Space => {
                let i = (self.shader_cycle_index + 1) % 8;
                self.select_shader(i)
            },
            ControlKey::Tab => {
                let i = if self.shader_cycle_index == 0 {
                    7
                } else {
                    self.shader_cycle_index - 1
                };
                self.select_shader(i)
            },
            ControlKey::KeyA => {
                self.toggle_auto_shader();
                Some(UiAction::Nothing)
            },
            ControlKey::KeyQ => self.select_quality(Some(QualityLevel::Potato)),
            ControlKey::KeyW => self.select_quality(Some(QualityLevel::Low)),
            ControlKey::KeyE => self.select_quality(Some(QualityLevel::Medium)),
            ControlKey::KeyR => self.select_quality(Some(QualityLevel::High)),
            ControlKey::KeyT => self.select_quality(Some(QualityLevel::Ultra)),
            ControlKey::KeyY => self.select_quality(None),
            ControlKey::KeyP => {
                self.toggle_performance_overlay();
                Some(UiAction::Nothing)
            },
            ControlKey::KeyH | ControlKey::F1 => {
                self.show_help = !self.show_help;
                Some(UiAction::Nothing)
            },
            ControlKey::Escape => {
                self.press_escape(now_ms);
                Some(UiAction::Nothing)
            },
            ControlKey::KeyS => {
                self.cycle_safety_level();
                Some(UiAction::Nothing)
            },
            ControlKey::KeyZ => {
                self.toggle_safety_status();
                Some(UiAction::Nothing)
            },
            ControlKey::KeyX => {
                self.resume_from_emergency();
                Some(UiAction::Nothing)
            },
            ControlKey::Other => None,
        }
    }

    fn press_escape(&mut self, now_ms: u64)
        requires
            old(self)@.wf(),
        ensures
            final(self)@ == old(self)@.after_escape(now_ms),
            final(self)@.wf(),
    {
        let double = match self.last_esc_ms {
            Some(t) => (if now_ms >= t {
                now_ms - t
            } else {
                0
            }) <= DOUBLE_PRESS_MS,
            None => false,
        };
        if double {
            self.esc_press_count = if self.esc_press_count >= 2 {
                2
            } else {
                self.esc_press_count + 1
            };
            if self.esc_press_count >= 2 {
                self.should_exit = true;
            }
        } else {
            self.esc_press_count = 1;
            self.emergency_stop();
        }
        self.last_esc_ms = Some(now_ms);
    }

    /// Flips automatic shader choice.
    pub fn toggle_auto_shader(&mut self)
        ensures
            final(self)@ == (UiView { auto_shader: !old(self)@.auto_shader, ..old(self)@ }),
    {
        self.auto_shader_enabled = !self.auto_shader_enabled;
    }

    /// Flips the performance overlay.
    pub fn toggle_performance_overlay(&mut self)
        ensures
            final(self)@ == (UiView { show_performance: !old(self)@.show_performance, ..old(self)@ }),
    {
        self.show_performance_overlay = !self.show_performance_overlay;
    }

    pub fn is_help_shown(&self) -> (r: bool)
        ensures
            r == self@.show_help,
    {
        self.show_help
    }

    pub fn is_auto_shader_enabled(&self) -> (r: bool)
        ensures
            r == self@.auto_shader,
    {
        self.auto_shader_enabled
    }

    pub fn current_shader_index(&self) -> (r: usize)
        ensures
            r == self@.shader_index,
    {
        self.shader_cycle_index
    }

    /// Halts all visual effects until resumed.
    pub fn emergency_stop(&mut self)
        ensures
            final(self)@ == (UiView { safety: old(self)@.safety.stopped_now(), ..old(self)@ }),
    {
        self.safety_engine.emergency_stop();
    }

    /// Leaves the emergency stop, if it is on.
    pub fn resume_from_emergency(&mut self)
        ensures
            final(self)@ == old(self)@.after_resume(),
    {
        if self.safety_engine.is_emergency_stopped() {
            self.safety_engine.resume();
        }
    }

    /// Moves to the next safety level of the user's cycle.
    pub fn cycle_safety_level(&mut self)
        ensures
            final(self)@ == old(self)@.after_cycle_level(),
    {
        self.current_safety_level = match self.current_safety_level {
            SafetyLevel::UltraSafe => SafetyLevel::Safe,
            SafetyLevel::Safe => SafetyLevel::Moderate,
            SafetyLevel::Moderate => SafetyLevel::Standard,
            SafetyLevel::Standard => SafetyLevel::UltraSafe,
            SafetyLevel::Disabled => SafetyLevel::UltraSafe,
        };
        self.safety_engine.set_safety_level(self.current_safety_level);
    }

    pub fn toggle_safety_status(&mut self)
        ensures
            final(self)@ == (UiView {
                show_safety_status: !old(self)@.show_safety_status,
                ..old(self)@
            }),
    {
        self.show_safety_status = !self.show_safety_status;
    }

    pub fn get_safety_level(&self) -> (r: SafetyLevel)
        ensures
            r == self@.level,
    {
        self.current_safety_level
    }

    pub fn is_emergency_stopped(&self) -> (r: bool)
        ensures
            r == self@.safety.stopped,
    {
        self.safety_engine.is_emergency_stopped()
    }

    /// A double Escape press asked to leave.
    pub fn should_exit(&self) -> (r: bool)
        ensures
            r == self@.exit,
    {
        self.should_exit
    }

    pub fn get_safety_multipliers(&self) -> (r: SafetyMultipliers)
        ensures
            r == if self@.safety.stopped {
                emergency_multipliers()
            } else {
                level_multipliers(self@.safety.level)
            },
    {
        self.safety_engine.get_safety_multipliers()
    }

    /// Passes a key to the consent screen.
    pub fn handle_warning_input(&mut self, key: WarningKey, pressed: bool) -> (r: bool)
        ensures
            r == (old(self)@.warning.state == WarningState::ShowingWarning),
    {
        self.epilepsy_warning.handle_input(key, pressed)
    }

    pub fn should_display_warning(&self) -> (r: bool)
        ensures
            r == (self@.warning.state == WarningState::ShowingWarning),
    {
        self.epilepsy_warning.should_display()
    }

    pub fn should_exit_from_warning(&self) -> (r: bool)
        ensures
            r == (self@.warning.state == WarningState::ExitSelected),
    {
        self.epilepsy_warning.should_exit()
    }

    /// The safety status panel, when it is shown.
    pub fn get_safety_status_display(&self) -> (r: Option<String>)
        ensures
            !self@.show_safety_status ==> r is None,
            self@.show_safety_status ==> (r matches Some(text) && text@ == join_lines(
                status_lines(self@.safety),
            )),
    {
        if !self.show_safety_status {
            return None;
        }
        let status = self.safety_engine.get_safety_status();
        let ghost s = self@.safety;
        let mut lines: Vec<String> = Vec::new();
        lines.push(String::from_str("🛡️  SAFETY STATUS"));
        lines.push(String::from_str("===================="));
        lines.push(status.get_status_message());
        if status.emergency_stopped {
            lines.push(String::from_str("⛔ EMERGENCY STOP ACTIVE"));
            lines.push(String::from_str("Press X to resume"));
        }
        if status.should_warn_user() {
            lines.push(String::from_str("⚠️  High visual activity detected"));
        }
        let ghost fixed = lines@.map_values(|l: String| l@);
        proof {
            assert(status.warnings@.map_values(|w: String| w@).len() == status.warnings@.len());
        }
        let mut i: usize = 0;
        while i < status.warnings.len()
            invariant
                i <= status.warnings@.len(),
                status.warnings@.map_values(|w: String| w@) == s.warnings,
                lines@.map_values(|l: String| l@) == fixed + warning_lines(s.warnings.take(i as int)),
            decreases status.warnings.len() - i,
        {
            let mut line = String::from_str("⚠️  ");
            line.append(status.warnings[i].as_str());
            let ghost before = lines@;
            lines.push(line);
            proof {
                assert(s.warnings[i as int] == status.warnings@[i as int]@);
                assert(warning_lines(s.warnings.take(i as int + 1)) =~= warning_lines(
                    s.warnings.take(i as int),
                ).push("⚠️  "@ + s.warnings[i as int]));
                assert(lines@.map_values(|l: String| l@) =~= before.map_values(|l: String| l@).push(line@));
            }
            i = i + 1;
        }
        proof {
            assert(s.warnings.take(i as int) =~= s.warnings);
            assert(lines@.map_values(|l: String| l@) =~= status_lines(s));
        }
        Some(join(&lines))
    }

    /// Applies the consent screen's answer: the safety mode sets the most
    /// restrictive level. The screen is then dismissed.
    pub fn apply_warning_selection(&mut self)
        ensures
            final(self)@.warning.state == WarningState::Dismissed,
            old(self)@.warning.state == WarningState::SafetyModeSelected ==> final(self)@.level
                == SafetyLevel::UltraSafe && final(self)@.safety == (SafetyState {
                level: SafetyLevel::UltraSafe,
                ..old(self)@.safety
            }),
            old(self)@.warning.state != WarningState::SafetyModeSelected ==> final(self)@.level
                == old(self)@.level && final(self)@.safety == old(self)@.safety,
    {
        if self.epilepsy_warning.wants_safety_mode() {
            self.current_safety_level = SafetyLevel::UltraSafe;
            self.safety_engine.set_safety_level(SafetyLevel::UltraSafe);
        }
        self.epilepsy_warning.dismiss();
    }
}

/// The lines joined by line breaks.
pub fn join(lines: &Vec<String>) -> (r: String)
    ensures
        r@ == join_lines(lines@.map_values(|l: String| l@)),
{
    let ghost all = lines@.map_values(|l: String| l@);
    let mut text = String::new();
    let mut i: usize = 0;
    while i < lines.len()
        invariant
            i <= lines@.len(),
            all == lines@.map_values(|l: String| l@),
            text@ == join_lines(all.take(i as int)),
        decreases lines.len() - i,
    {
        proof {
            assert(all.take(i as int + 1).drop_last() =~= all.take(i as int));
        }
        if i > 0 {
            text.append("\n");
        }
        text.append(lines[i].as_str());
        proof {
            if i == 0 {
                assert(all.take(1) =~= seq![all[0]]);
                assert(text@ =~= join_lines(all.take(1)));
            } else {
                assert(text@ =~= join_lines(all.take(i as int)) + "\n"@ + all[i as int]);
            }
        }
        i = i + 1;
    }
    proof {
        assert(all.take(i as int) =~= all);
    }
    text
}

} // verus!
