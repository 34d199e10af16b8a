use aruu::shaders::{ShaderTransitioner, ShaderType};

#[test]
fn test_shader_transitioner_basic_operations() {
    let mut transitioner = ShaderTransitioner::new(ShaderType::Classic, 0);

    assert_eq!(transitioner.current_shader(), ShaderType::Classic);
    assert!(!transitioner.is_transitioning());

    transitioner.transition_to(ShaderType::Plasma, 0);
    assert!(transitioner.is_transitioning());

    transitioner.update(2100);
    assert!(!transitioner.is_transitioning());
    assert_eq!(transitioner.current_shader(), ShaderType::Plasma);
}

#[test]
fn test_shader_transition_progress() {
    let mut transitioner = ShaderTransitioner::new(ShaderType::Classic, 0);
    transitioner.transition_to(ShaderType::Fractal, 0);

    let initial_progress = transitioner.transition_progress();
    assert_eq!(initial_progress, 0);

    transitioner.update(500);
    let mid_progress = transitioner.transition_progress();
    assert!(mid_progress > 0 && mid_progress < 1000);
    assert_eq!(mid_progress, 250);

    transitioner.update(2200);
    assert!(!transitioner.is_transitioning());
}

#[test]
fn test_shader_switching_sequence() {
    let mut transitioner = ShaderTransitioner::new(ShaderType::Classic, 0);

    let test_sequence = [
        ShaderType::Classic,
        ShaderType::Plasma,
        ShaderType::Tunnel,
        ShaderType::Particle,
        ShaderType::Fractal,
    ];

    let mut now = 0;
    for &target_shader in &test_sequence {
        transitioner.transition_to(target_shader, now);

        now += 2100;
        transitioner.update(now);

        assert_eq!(transitioner.current_shader(), target_shader);
        assert!(!transitioner.is_transitioning());
    }
}

#[test]
fn test_shader_transition_interruption() {
    let mut transitioner = ShaderTransitioner::new(ShaderType::Classic, 0);

    transitioner.transition_to(ShaderType::Plasma, 0);
    assert!(transitioner.is_transitioning());

    transitioner.transition_to(ShaderType::Tunnel, 0);
    assert!(transitioner.is_transitioning());

    transitioner.update(2100);

    assert_eq!(transitioner.current_shader(), ShaderType::Tunnel);
    assert!(!transitioner.is_transitioning());
}

#[test]
fn immediate_switch_drops_running_transition() {
    let mut transitioner = ShaderTransitioner::new(ShaderType::Classic, 0);
    transitioner.transition_to(ShaderType::Plasma, 0);
    transitioner.update(1000);
    assert_eq!(transitioner.transition_progress(), 500);
    transitioner.switch_immediately_to(ShaderType::Tunnel, 1000);
    assert!(!transitioner.is_transitioning());
    assert_eq!(transitioner.current_shader(), ShaderType::Tunnel);
    assert_eq!(transitioner.transition_progress(), 1000);
    // Exactly the transition length completes it.
    transitioner.transition_to(ShaderType::Fractal, 5000);
    transitioner.update(6999);
    assert!(transitioner.is_transitioning());
    transitioner.update(7000);
    assert_eq!(transitioner.current_shader(), ShaderType::Fractal);
}
