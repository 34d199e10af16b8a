use vstd::prelude::*;

verus! {

/// The visual programs that the renderer can run.
#[derive(Debug, Clone, Copy, PartialEq, Eq, Hash, Structural)]
pub enum ShaderType {
    Classic,
    ParametricWave,
    Plasma,
    Kaleidoscope,
    Tunnel,
    Particle,
    Fractal,
    Spectralizer,
}

/// Every shader type, in catalogue order.
pub open spec fn all_shader_types() -> Seq<ShaderType> {
    seq![
        ShaderType::Classic,
        ShaderType::ParametricWave,
        ShaderType::Plasma,
        ShaderType::Kaleidoscope,
        ShaderType::Tunnel,
        ShaderType::Particle,
        ShaderType::Fractal,
        ShaderType::Spectralizer,
    ]
}

pub open spec fn shader_name(t: ShaderType) -> Seq<char> {
    match t {
        ShaderType::Classic => "Classic"@,
        ShaderType::ParametricWave => "Parametric Wave"@,
        ShaderType::Plasma => "Plasma"@,
        ShaderType::Kaleidoscope => "Kaleidoscope"@,
        ShaderType::Tunnel => "Tunnel"@,
        ShaderType::Particle => "Particle"@,
        ShaderType::Fractal => "Fractal"@,
        ShaderType::Spectralizer => "Spectralizer"@,
    }
}

pub open spec fn shader_description(t: ShaderType) -> Seq<char> {
    match t {
        ShaderType::Classic => "Original Aruu visualization with radial waves"@,
        ShaderType::ParametricWave => "Mathematical patterns with audio-reactive parameters"@,
        ShaderType::Plasma => "Fluid, organic patterns driven by low frequencies"@,
        ShaderType::Kaleidoscope => "Symmetric patterns responding to harmonic content"@,
        ShaderType::Tunnel => "3D perspective effects with bass-driven depth"@,
        ShaderType::Particle => "Dynamic particle systems responding to transients"@,
        ShaderType::Fractal => "Self-similar patterns scaled by spectral characteristics"@,
        ShaderType::Spectralizer => "Direct frequency visualization with artistic flair"@,
    }
}

impl ShaderType {
    pub fn name(&self) -> (r: &'static str)
        ensures
            r@ == shader_name(*self),
            r@.len() > 0,
    {
        proof {
            reveal_strlit("Classic");
            reveal_strlit("Parametric Wave");
            reveal_strlit("Plasma");
            reveal_strlit("Kaleidoscope");
            reveal_strlit("Tunnel");
            reveal_strlit("Particle");
            reveal_strlit("Fractal");
            reveal_strlit("Spectralizer");
        }
        match self {
            ShaderType::Classic => "Classic",
            ShaderType::ParametricWave => "Parametric Wave",
            ShaderType::Plasma => "Plasma",
            ShaderType::Kaleidoscope => "Kaleidoscope",
            ShaderType::Tunnel => "Tunnel",
            ShaderType::Particle => "Particle",
            ShaderType::Fractal => "Fractal",
            ShaderType::Spectralizer => "Spectralizer",
        }
    }

    pub fn description(&self) -> (r: &'static str)
        ensures
            r@ == shader_description(*self),
    {
        match self {
            ShaderType::Classic => "Original Aruu visualization with radial waves",
            ShaderType::ParametricWave => "Mathematical patterns with audio-reactive parameters",
            ShaderType::Plasma => "Fluid, organic patterns driven by low frequencies",
            ShaderType::Kaleidoscope => "Symmetric patterns responding to harmonic content",
            ShaderType::Tunnel => "3D perspective effects with bass-driven depth",
            ShaderType::Particle => "Dynamic particle systems responding to transients",
            ShaderType::Fractal => "Self-similar patterns scaled by spectral characteristics",
            ShaderType::Spectralizer => "Direct frequency visualization with artistic flair",
        }
    }

    /// Every shader type, in catalogue order.
    pub fn all() -> (r: &'static [ShaderType])
        ensures
            r@ == all_shader_types(),
    {
        let r: &'static [ShaderType] = &[
            ShaderType::Classic,
            ShaderType::ParametricWave,
            ShaderType::Plasma,
            ShaderType::Kaleidoscope,
            ShaderType::Tunnel,
            ShaderType::Particle,
            ShaderType::Fractal,
            ShaderType::Spectralizer,
        ];
        assert(r@ =~= all_shader_types());
        r
    }
}


/// What the renderer needs to know of a shader besides its program text.
#[derive(Debug, Clone, Copy, PartialEq, Eq, Structural)]
pub struct ShaderMetadata {
    pub shader_type: ShaderType,
    pub requires_3d: bool,
    /// Relative cost of running the shader, from 1 to 10.
    pub performance_cost: u8,
}

pub open spec fn metadata(t: ShaderType, requires_3d: bool, cost: u8) -> ShaderMetadata {
    ShaderMetadata { shader_type: t, requires_3d, performance_cost: cost }
}

/// The built-in catalogue, in registration order.
pub open spec fn default_catalogue() -> Seq<ShaderMetadata> {
    seq![
        metadata(ShaderType::Classic, false, 3),
        metadata(ShaderType::ParametricWave, false, 6),
        metadata(ShaderType::Plasma, false, 7),
        metadata(ShaderType::Kaleidoscope, false, 5),
        metadata(ShaderType::Tunnel, true, 6),
        metadata(ShaderType::Particle, false, 8),
        metadata(ShaderType::Fractal, false, 9),
        metadata(ShaderType::Spectralizer, false, 7),
    ]
}

/// `s` holds an entry for `t`.
pub open spec fn has_entry(s: Seq<ShaderMetadata>, t: ShaderType) -> bool {
    exists|i: int| 0 <= i < s.len() && (#[trigger] s[i]).shader_type == t
}

/// No two entries of `s` share a shader type.
pub open spec fn unique_types(s: Seq<ShaderMetadata>) -> bool {
    forall|i: int, j: int|
        0 <= i < s.len() && 0 <= j < s.len() && i != j ==> (#[trigger] s[i]).shader_type
            != (#[trigger] s[j]).shader_type
}

/// The shaders available to the renderer, one entry per type, in the order
/// they were first registered.
pub struct ShaderRegistry {
    shaders: Vec<ShaderMetadata>,
}

impl View for ShaderRegistry {
    type V = Seq<ShaderMetadata>;

    closed spec fn view(&self) -> Seq<ShaderMetadata> {
        self.shaders@
    }
}

impl ShaderRegistry {
    /// A registry holding the built-in catalogue.
    pub fn new() -> (r: ShaderRegistry)
        ensures
            r@ == default_catalogue(),
            unique_types(r@),
    {
        let mut registry = ShaderRegistry { shaders: Vec::new() };
        registry.register_default_shaders();
        assert(registry@ =~= default_catalogue());
        registry
    }

    /// Registers the built-in catalogue.
    pub fn register_default_shaders(&mut self)
        requires
            old(self)@.len() == 0,
        ensures
            final(self)@ == default_catalogue(),
    {
        self.register(ShaderMetadata { shader_type: ShaderType::Classic, requires_3d: false, performance_cost: 3 });
        self.register(ShaderMetadata { shader_type: ShaderType::ParametricWave, requires_3d: false, performance_cost: 6 });
        self.register(ShaderMetadata { shader_type: ShaderType::Plasma, requires_3d: false, performance_cost: 7 });
        self.register(ShaderMetadata { shader_type: ShaderType::Kaleidoscope, requires_3d: false, performance_cost: 5 });
        self.register(ShaderMetadata { shader_type: ShaderType::Tunnel, requires_3d: true, performance_cost: 6 });
        self.register(ShaderMetadata { shader_type: ShaderType::Particle, requires_3d: false, performance_cost: 8 });
        self.register(ShaderMetadata { shader_type: ShaderType::Fractal, requires_3d: false, performance_cost: 9 });
        self.register(ShaderMetadata { shader_type: ShaderType::Spectralizer, requires_3d: false, performance_cost: 7 });
        assert(self@ =~= default_catalogue());
    }

    fn position(&self, shader_type: ShaderType) -> (r: Option<usize>)
        ensures
            match r {
                Some(i) => i < self@.len() && self@[i as int].shader_type == shader_type,
                None => !has_entry(self@, shader_type),
            },
    {
        let mut i: usize = 0;
        while i < self.shaders.len()
            invariant
                i <= self@.len(),
                forall|k: int| 0 <= k < i ==> (#[trigger] self@[k]).shader_type != shader_type,
            decreases self.shaders.len() - i,
        {
            if self.shaders[i].shader_type == shader_type {
                return Some(i);
            }
            i = i + 1;
        }
        None
    }

    /// Adds `metadata`, replacing the entry of the same type if there is one.
    pub fn register(&mut self, metadata: ShaderMetadata)
        ensures
            has_entry(old(self)@, metadata.shader_type) ==> exists|i: int|
                0 <= i < old(self)@.len() && old(self)@[i].shader_type == metadata.shader_type
                    && final(self)@ == old(self)@.update(i, metadata),
            !has_entry(old(self)@, metadata.shader_type) ==> final(self)@ == old(self)@.push(
                metadata,
            ),
            unique_types(old(self)@) ==> unique_types(final(self)@),
    {
        match self.position(metadata.shader_type) {
            Some(i) => {
                self.shaders.set(i, metadata);
            },
            None => {
                self.shaders.push(metadata);
            },
        }
    }

    /// The entry registered for `shader_type`, if any.
    pub fn get(&self, shader_type: ShaderType) -> (r: Option<&ShaderMetadata>)
        ensures
            r is Some <==> has_entry(self@, shader_type),
            r matches Some(m) ==> m.shader_type == shader_type && exists|i: int|
                0 <= i < self@.len() && self@[i] == *m,
    {
        match self.position(shader_type) {
            Some(i) => Some(&self.shaders[i]),
            None => None,
        }
    }

    /// The registered types, in registration order.
    pub fn available_shaders(&self) -> (r: Vec<ShaderType>)
        ensures
            r@ == self@.map_values(|m: ShaderMetadata| m.shader_type),
    {
        let mut r: Vec<ShaderType> = Vec::new();
        let mut i: usize = 0;
        while i < self.shaders.len()
            invariant
                i <= self@.len(),
                r@ == self@.take(i as int).map_values(|m: ShaderMetadata| m.shader_type),
            decreases self.shaders.len() - i,
        {
            r.push(self.shaders[i].shader_type);
            assert(self@.take(i as int + 1).map_values(|m: ShaderMetadata| m.shader_type)
                =~= self@.take(i as int).map_values(|m: ShaderMetadata| m.shader_type).push(
                self@[i as int].shader_type,
            ));
            i = i + 1;
        }
        assert(self@.take(i as int) =~= self@);
        r
    }

    /// The shader that follows `current` in registration order, wrapping
    /// around; an unregistered `current` counts as the first entry. `None`
    /// when nothing is registered.
    pub fn next_shader(&self, current: ShaderType) -> (r: Option<ShaderType>)
        ensures
            self@.len() == 0 ==> r is None,
            self@.len() > 0 && !has_entry(self@, current) ==> r == Some(
                self@[1int % (self@.len() as int)].shader_type,
            ),
            has_entry(self@, current) ==> exists|i: int|
                0 <= i < self@.len() && (#[trigger] self@[i]).shader_type == current && r == Some(
                    self@[(i + 1) % (self@.len() as int)].shader_type,
                ),
    {
        let n = self.shaders.len();
        if n == 0 {
            return None;
        }
        let i = match self.position(current) {
            Some(i) => i,
            None => 0,
        };
        Some(self.shaders[(i + 1) % n].shader_type)
    }

    pub fn is_available(&self, shader_type: ShaderType) -> (r: bool)
        ensures
            r == has_entry(self@, shader_type),
    {
        self.position(shader_type).is_some()
    }
}

/// The built-in catalogue has one entry for each shader type.
pub proof fn lemma_catalogue_complete(t: ShaderType)
    ensures
        has_entry(default_catalogue(), t),
        unique_types(default_catalogue()),
        default_catalogue().len() == all_shader_types().len(),
{
    let c = default_catalogue();
    let i: int = match t {
        ShaderType::Classic => 0,
        ShaderType::ParametricWave => 1,
        ShaderType::Plasma => 2,
        ShaderType::Kaleidoscope => 3,
        ShaderType::Tunnel => 4,
        ShaderType::Particle => 5,
        ShaderType::Fractal => 6,
        ShaderType::Spectralizer => 7,
    };
    assert(c[i].shader_type == t);
}

/// Length of an animated shader transition, in milliseconds.
pub const SHADER_TRANSITION_MS: u64 = 2000;

/// The observable state of a [`ShaderTransitioner`].
pub struct TransitionState {
    pub current: ShaderType,
    pub target: Option<ShaderType>,
    /// Time the running transition has advanced, in milliseconds.
    pub progress_ms: u64,
    pub last_update_ms: u64,
}

impl TransitionState {
    pub open spec fn wf(self) -> bool {
        self.progress_ms <= SHADER_TRANSITION_MS
    }

    /// The state after `update(now_ms)`: a running transition advances by the
    /// time since the last update and completes once it has run its length.
    pub open spec fn updated(self, now_ms: u64) -> TransitionState {
        match self.target {
            Some(t) => {
                let elapsed = if now_ms >= self.last_update_ms {
                    now_ms - self.last_update_ms
                } else {
                    0
                };
                let p = self.progress_ms + elapsed;
                if p >= SHADER_TRANSITION_MS {
                    TransitionState {
                        current: t,
                        target: None,
                        progress_ms: SHADER_TRANSITION_MS,
                        last_update_ms: now_ms,
                    }
                } else {
                    TransitionState { progress_ms: p as u64, last_update_ms: now_ms, ..self }
                }
            },
            None => self,
        }
    }
}

/// Moves between shaders, either at once or over an animated transition.
pub struct ShaderTransitioner {
    current_shader: ShaderType,
    target_shader: Option<ShaderType>,
    progress_ms: u64,
    last_update_ms: u64,
}

impl View for ShaderTransitioner {
    type V = TransitionState;

    closed spec fn view(&self) -> TransitionState {
        TransitionState {
            current: self.current_shader,
            target: self.target_shader,
            progress_ms: self.progress_ms,
            last_update_ms: self.last_update_ms,
        }
    }
}

impl ShaderTransitioner {
    /// Shows `initial_shader`, with no transition running.
    pub fn new(initial_shader: ShaderType, now_ms: u64) -> (r: ShaderTransitioner)
        ensures
            r@ == (TransitionState {
                current: initial_shader,
                target: None,
                progress_ms: SHADER_TRANSITION_MS,
                last_update_ms: now_ms,
            }),
    {
        ShaderTransitioner {
            current_shader: initial_shader,
            target_shader: None,
            progress_ms: SHADER_TRANSITION_MS,
            last_update_ms: now_ms,
        }
    }

    /// Starts an animated transition toward `target`, replacing any running
    /// one; nothing happens when `target` is already shown.
    pub fn transition_to(&mut self, target: ShaderType, now_ms: u64)
        ensures
            final(self)@ == if target != old(self)@.current {
                TransitionState {
                    target: Some(target),
                    progress_ms: 0,
                    last_update_ms: now_ms,
                    ..old(self)@
                }
            } else {
                old(self)@
            },
    {
        if target != self.current_shader {
            self.target_shader = Some(target);
            self.progress_ms = 0;
            self.last_update_ms = now_ms;
        }
    }

    /// Shows `target` at once, dropping any running transition; nothing
    /// happens when `target` is already shown.
    pub fn switch_immediately_to(&mut self, target: ShaderType, now_ms: u64)
        ensures
            final(self)@ == if target != old(self)@.current {
                TransitionState {
                    current: target,
                    target: None,
                    progress_ms: SHADER_TRANSITION_MS,
                    last_update_ms: now_ms,
                }
            } else {
                old(self)@
            },
    {
        if target != self.current_shader {
            self.current_shader = target;
            self.target_shader = None;
            self.progress_ms = SHADER_TRANSITION_MS;
            self.last_update_ms = now_ms;
        }
    }

    /// Advances the running transition to `now_ms`.
    pub fn update(&mut self, now_ms: u64)
        requires
            old(self)@.wf(),
        ensures
            final(self)@ == old(self)@.updated(now_ms),
            final(self)@.wf(),
    {
        if let Some(target) = self.target_shader {
            let elapsed = if now_ms >= self.last_update_ms {
                now_ms - self.last_update_ms
            } else {
                0
            };
            if elapsed >= SHADER_TRANSITION_MS - self.progress_ms {
                self.current_shader = target;
                self.target_shader = None;
                self.progress_ms = SHADER_TRANSITION_MS;
            } else {
                self.progress_ms = self.progress_ms + elapsed;
            }
            self.last_update_ms = now_ms;
        }
    }

    pub fn current_shader(&self) -> (r: ShaderType)
        ensures
            r == self@.current,
    {
        self.current_shader
    }

    pub fn is_transitioning(&self) -> (r: bool)
        ensures
            r == self@.target is Some,
    {
        self.target_shader.is_some()
    }

    /// How far the running transition is, in thousandths (1000 when none
    /// runs).
    pub fn transition_progress(&self) -> (r: u32)
        requires
            self@.wf(),
        ensures
            r == self@.progress_ms * 1000 / (SHADER_TRANSITION_MS as int),
            r <= 1000,
    {
        (self.progress_ms * 1000 / SHADER_TRANSITION_MS) as u32
    }
}

/// Audio cues that choose a shader, each in thousandths.
#[derive(Debug, Clone, Copy, Default, PartialEq, Eq, Structural)]
pub struct ShaderCues {
    pub sub_bass: u32,
    pub bass: u32,
    pub treble: u32,
    pub presence: u32,
    pub onset_strength: u32,
    pub pitch_confidence: u32,
    pub spectral_flux: u32,
    pub dynamic_range: u32,
    pub tempo_confidence: u32,
    pub rhythm_stability: u32,
}

/// The shader that suits the cues: heavy bass gives the tunnel (with a
/// confident tempo) or the classic waves; bright onsets give particles;
/// clear pitch over a stable rhythm gives the kaleidoscope; strong flux the
/// parametric waves; a wide dynamic range the fractal; else the classic.
pub open spec fn recommended_shader(c: ShaderCues) -> ShaderType {
    if c.bass + c.sub_bass > 700 {
        if c.tempo_confidence > 800 {
            ShaderType::Tunnel
        } else {
            ShaderType::Classic
        }
    } else if c.treble + c.presence > 600 && c.onset_strength > 500 {
        ShaderType::Particle
    } else if c.pitch_confidence > 700 && c.rhythm_stability > 600 {
        ShaderType::Kaleidoscope
    } else if c.spectral_flux > 400 {
        ShaderType::ParametricWave
    } else if c.dynamic_range > 600 {
        ShaderType::Fractal
    } else {
        ShaderType::Classic
    }
}

/// Picks a shader from the audio cues.
pub fn analyze_audio_for_shader(cues: &ShaderCues) -> (r: ShaderType)
    ensures
        r == recommended_shader(*cues),
{
    if (cues.bass as u64) + (cues.sub_bass as u64) > 700 {
        return if cues.tempo_confidence > 800 {
            ShaderType::Tunnel
        } else {
            ShaderType::Classic
        };
    }
    if (cues.treble as u64) + (cues.presence as u64) > 600 && cues.onset_strength > 500 {
        return ShaderType::Particle;
    }
    if cues.pitch_confidence > 700 && cues.rhythm_stability > 600 {
        return ShaderType::Kaleidoscope;
    }
    if cues.spectral_flux > 400 {
        return ShaderType::ParametricWave;
    }
    if cues.dynamic_range > 600 {
        return ShaderType::Fractal;
    }
    ShaderType::Classic
}

/// Shortest interval between two automatic shader switches, in milliseconds.
pub const AUTO_SHADER_COOLDOWN_MS: u64 = 2500;

/// Follows the music with the recommended shader, no more often than the
/// cooldown allows.
pub struct AutoShaderSelector {
    last_switch_ms: u64,
}

impl View for AutoShaderSelector {
    type V = u64;

    /// The time of the last automatic switch.
    closed spec fn view(&self) -> u64 {
        self.last_switch_ms
    }
}

impl AutoShaderSelector {
    /// The cooldown runs from `now_ms`.
    pub fn new(now_ms: u64) -> (r: AutoShaderSelector)
        ensures
            r@ == now_ms,
    {
        AutoShaderSelector { last_switch_ms: now_ms }
    }

    /// The shader to switch to at `now_ms`, if any: the recommendation when
    /// it differs from `current` and the cooldown has elapsed.
    pub fn auto_select_shader(&mut self, current: ShaderType, cues: &ShaderCues, now_ms: u64) -> (r:
        Option<ShaderType>)
        ensures
            ({
                let rec = recommended_shader(*cues);
                let due = rec != current && now_ms >= old(self)@ && now_ms - old(self)@
                    >= AUTO_SHADER_COOLDOWN_MS;
                &&& due ==> r == Some(rec) && final(self)@ == now_ms
                &&& !due ==> r is None && final(self)@ == old(self)@
            }),
    {
        let recommended = analyze_audio_for_shader(cues);
        if recommended != current && now_ms >= self.last_switch_ms && now_ms - self.last_switch_ms
            >= AUTO_SHADER_COOLDOWN_MS {
            self.last_switch_ms = now_ms;
            Some(recommended)
        } else {
            None
        }
    }
}

/// The time origin of the animation clock handed to shaders.
pub struct UniformManager {
    pub start_time: std::time::Instant,
}

impl UniformManager {
    /// Starts the animation clock now.
    pub fn new() -> UniformManager {
        UniformManager { start_time: std::time::Instant::now() }
    }
}

} // verus!
