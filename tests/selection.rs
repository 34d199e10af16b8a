use aruu::shaders::{analyze_audio_for_shader, AutoShaderSelector, ShaderCues, ShaderType};

#[test]
fn test_audio_analysis_for_shader() {
    let bass_audio = ShaderCues { bass: 800, sub_bass: 600, ..ShaderCues::default() };
    let high_tempo = ShaderCues { tempo_confidence: 900, ..bass_audio };
    assert_eq!(analyze_audio_for_shader(&high_tempo), ShaderType::Tunnel);

    let low_tempo = ShaderCues { tempo_confidence: 500, ..bass_audio };
    assert_eq!(analyze_audio_for_shader(&low_tempo), ShaderType::Classic);

    let treble_audio = ShaderCues {
        treble: 700,
        presence: 500,
        onset_strength: 600,
        tempo_confidence: 900,
        ..ShaderCues::default()
    };
    assert_eq!(analyze_audio_for_shader(&treble_audio), ShaderType::Particle);

    let harmonic_audio = ShaderCues {
        pitch_confidence: 800,
        rhythm_stability: 700,
        ..ShaderCues::default()
    };
    assert_eq!(analyze_audio_for_shader(&harmonic_audio), ShaderType::Kaleidoscope);

    let dynamic_audio = ShaderCues { spectral_flux: 500, tempo_confidence: 900, ..ShaderCues::default() };
    assert_eq!(analyze_audio_for_shader(&dynamic_audio), ShaderType::ParametricWave);

    let range_audio = ShaderCues { dynamic_range: 700, tempo_confidence: 900, ..ShaderCues::default() };
    assert_eq!(analyze_audio_for_shader(&range_audio), ShaderType::Fractal);

    assert_eq!(analyze_audio_for_shader(&ShaderCues::default()), ShaderType::Classic);
}

#[test]
fn test_audio_driven_shader_selection_logic() {
    let bass_audio = ShaderCues { bass: 800, sub_bass: 300, ..ShaderCues::default() };
    assert_eq!(
        analyze_audio_for_shader(&ShaderCues { tempo_confidence: 900, ..bass_audio }),
        ShaderType::Tunnel
    );
    assert_eq!(
        analyze_audio_for_shader(&ShaderCues { tempo_confidence: 500, ..bass_audio }),
        ShaderType::Classic
    );

    let treble_audio = ShaderCues {
        treble: 700,
        presence: 500,
        onset_strength: 600,
        ..ShaderCues::default()
    };
    assert_eq!(analyze_audio_for_shader(&treble_audio), ShaderType::Particle);

    let harmonic_audio = ShaderCues {
        pitch_confidence: 800,
        rhythm_stability: 700,
        ..ShaderCues::default()
    };
    assert_eq!(analyze_audio_for_shader(&harmonic_audio), ShaderType::Kaleidoscope);

    let dynamic_audio = ShaderCues { spectral_flux: 500, ..ShaderCues::default() };
    assert_eq!(analyze_audio_for_shader(&dynamic_audio), ShaderType::ParametricWave);

    let range_audio = ShaderCues { dynamic_range: 700, ..ShaderCues::default() };
    assert_eq!(analyze_audio_for_shader(&range_audio), ShaderType::Fractal);

    assert_eq!(analyze_audio_for_shader(&ShaderCues::default()), ShaderType::Classic);
}

#[test]
fn auto_selection_respects_cooldown() {
    let mut selector = AutoShaderSelector::new(0);
    let bass = ShaderCues { bass: 900, ..ShaderCues::default() };
    assert_eq!(selector.auto_select_shader(ShaderType::Plasma, &bass, 2499), None);
    assert_eq!(selector.auto_select_shader(ShaderType::Plasma, &bass, 2500), Some(ShaderType::Classic));
    assert_eq!(selector.auto_select_shader(ShaderType::Plasma, &bass, 4000), None);
    // Already showing the recommendation: nothing to do.
    assert_eq!(selector.auto_select_shader(ShaderType::Classic, &bass, 9000), None);
    assert_eq!(selector.auto_select_shader(ShaderType::Tunnel, &bass, 9000), Some(ShaderType::Classic));
}
