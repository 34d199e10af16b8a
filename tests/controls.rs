use aruu::controls::{ControlKey, UiAction, UserInterface};
use aruu::quality::QualityLevel;
use aruu::safety::SafetyLevel;
use aruu::shaders::ShaderType;
use aruu::warning::WarningKey;

#[test]
fn test_user_interface_creation() {
    let ui = UserInterface::new();
    assert!(ui.auto_shader_enabled);
    assert!(ui.quality_override.is_none());
    assert!(!ui.show_performance_overlay);
    assert_eq!(ui.available_shaders.len(), 8);
}

#[test]
fn test_shader_cycling() {
    let ui = UserInterface::new();

    let initial_index = ui.shader_cycle_index;
    let _expected_next = (initial_index + 1) % ui.available_shaders.len();

    assert_eq!(ui.current_shader_index(), initial_index);
}

#[test]
fn test_auto_shader_toggle() {
    let mut ui = UserInterface::new();
    assert!(ui.is_auto_shader_enabled());

    ui.toggle_auto_shader();
    assert!(!ui.is_auto_shader_enabled());

    ui.toggle_auto_shader();
    assert!(ui.is_auto_shader_enabled());
}

#[test]
fn test_quality_override() {
    let mut ui = UserInterface::new();
    assert!(ui.quality_override.is_none());

    ui.quality_override = Some(QualityLevel::High);
    assert_eq!(ui.quality_override, Some(QualityLevel::High));
}

#[test]
fn test_performance_overlay_toggle() {
    let mut ui = UserInterface::new();
    assert!(!ui.show_performance_overlay);

    ui.toggle_performance_overlay();
    assert!(ui.show_performance_overlay);

    ui.toggle_performance_overlay();
    assert!(!ui.show_performance_overlay);
}

#[test]
fn shader_keys_select_and_cycle() {
    let mut ui = UserInterface::new();
    assert_eq!(
        ui.handle_keyboard_input(ControlKey::Digit(5), true, 0),
        Some(UiAction::SetShader(ShaderType::Tunnel))
    );
    assert!(!ui.is_auto_shader_enabled());
    assert_eq!(ui.current_shader_index(), 4);
    assert_eq!(
        ui.handle_keyboard_input(ControlKey::Space, true, 0),
        Some(UiAction::SetShader(ShaderType::Particle))
    );
    let mut ui = UserInterface::new();
    assert_eq!(
        ui.handle_keyboard_input(ControlKey::Tab, true, 0),
        Some(UiAction::SetShader(ShaderType::Spectralizer))
    );
    assert_eq!(ui.handle_keyboard_input(ControlKey::Digit(9), true, 0), None);
    assert_eq!(ui.handle_keyboard_input(ControlKey::Other, true, 0), None);
    assert_eq!(ui.handle_keyboard_input(ControlKey::Digit(1), false, 0), None);
    assert_eq!(ui.current_shader_index(), 7);
}

#[test]
fn quality_keys_set_override() {
    let mut ui = UserInterface::new();
    assert_eq!(
        ui.handle_keyboard_input(ControlKey::KeyQ, true, 0),
        Some(UiAction::SetQuality(QualityLevel::Potato))
    );
    assert_eq!(ui.quality_override, Some(QualityLevel::Potato));
    assert_eq!(ui.handle_keyboard_input(ControlKey::KeyY, true, 0), Some(UiAction::Nothing));
    assert_eq!(ui.quality_override, None);
}

#[test]
fn escape_stops_then_double_press_exits() {
    let mut ui = UserInterface::new();
    ui.handle_keyboard_input(ControlKey::Escape, true, 10_000);
    assert!(ui.is_emergency_stopped());
    assert!(!ui.should_exit());
    assert_eq!(ui.get_safety_multipliers().beat_intensity, 0);
    ui.handle_keyboard_input(ControlKey::Escape, true, 11_500);
    assert!(ui.should_exit());
    let mut ui = UserInterface::new();
    ui.handle_keyboard_input(ControlKey::Escape, true, 10_000);
    ui.handle_keyboard_input(ControlKey::Escape, true, 12_001);
    assert!(!ui.should_exit());
    ui.handle_keyboard_input(ControlKey::KeyX, true, 12_100);
    assert!(!ui.is_emergency_stopped());
}

#[test]
fn safety_level_cycle_skips_disabled() {
    let mut ui = UserInterface::new();
    assert_eq!(ui.get_safety_level(), SafetyLevel::Safe);
    ui.cycle_safety_level();
    assert_eq!(ui.get_safety_level(), SafetyLevel::Moderate);
    ui.cycle_safety_level();
    ui.cycle_safety_level();
    assert_eq!(ui.get_safety_level(), SafetyLevel::UltraSafe);
    assert_eq!(ui.get_safety_multipliers().beat_intensity, 100);
    ui.handle_keyboard_input(ControlKey::KeyZ, true, 0);
    assert!(!ui.show_safety_status);
    ui.handle_keyboard_input(ControlKey::KeyH, true, 0);
    assert!(ui.is_help_shown());
}

#[test]
fn warning_choice_applies_safety_mode() {
    let mut ui = UserInterface::new();
    assert!(ui.should_display_warning());
    assert!(ui.handle_warning_input(WarningKey::Enter, true));
    ui.apply_warning_selection();
    assert!(!ui.should_display_warning());
    assert!(!ui.should_exit_from_warning());
    assert_eq!(ui.get_safety_level(), SafetyLevel::UltraSafe);
    assert_eq!(ui.safety_engine.get_safety_level(), SafetyLevel::UltraSafe);
}

#[test]
fn safety_status_display_lists_warnings() {
    let mut ui = UserInterface::new();
    assert_eq!(
        ui.get_safety_status_display(),
        Some("🛡️  SAFETY STATUS\n====================\n🔒 Safe".to_string())
    );
    ui.emergency_stop();
    let text = ui.get_safety_status_display().unwrap();
    assert_eq!(
        text,
        "🛡️  SAFETY STATUS\n====================\n⛔ EMERGENCY STOP ACTIVE\n⛔ EMERGENCY STOP ACTIVE\nPress X to resume\n⚠️  High visual activity detected\n⚠️  Emergency stop activated"
    );
    ui.toggle_safety_status();
    assert_eq!(ui.get_safety_status_display(), None);
}
