use aruu::safety::{
    calculate_luminance, FlashTracker, LuminanceLimiter, SafetyEngine, SafetyLevel,
    SafetyMultipliers, Vector3,
};

#[test]
fn test_flash_rate_limiting() {
    let mut tracker = FlashTracker::new();
    let now = 10_000;

    assert!(tracker.can_allow_change(now, 500, false));
    tracker.record_change(now, 500, false);

    assert!(!tracker.can_allow_change(now, 500, false));
}

#[test]
fn test_luminance_limiting() {
    let mut limiter = LuminanceLimiter::new();

    let bright_color = Vector3::new(1000, 1000, 1000);
    let limited = limiter.limit_luminance_change(bright_color);

    assert!(LuminanceLimiter::calculate_luminance(limited) <= 6_000_000);
}

#[test]
fn test_safety_multipliers() {
    let ultra_safe = SafetyMultipliers::ultra_safe();
    let standard = SafetyMultipliers::standard();

    assert!(ultra_safe.beat_intensity < standard.beat_intensity);
    assert!(ultra_safe.onset_intensity < standard.onset_intensity);
}

#[test]
fn test_emergency_stop() {
    let mut engine = SafetyEngine::new();

    engine.emergency_stop();
    assert!(engine.is_emergency_stopped());

    let safe_color = engine.filter_color(Vector3::new(1000, 0, 0));
    assert!(safe_color.x < 200);
}

#[test]
fn test_safety_multiplier_progression() {
    let ultra_safe = SafetyMultipliers::ultra_safe();
    let safe = SafetyMultipliers::safe();
    let moderate = SafetyMultipliers::moderate();
    let standard = SafetyMultipliers::standard();
    let disabled = SafetyMultipliers::disabled();

    assert!(ultra_safe.beat_intensity < safe.beat_intensity);
    assert!(safe.beat_intensity < moderate.beat_intensity);
    assert!(moderate.beat_intensity < standard.beat_intensity);
    assert!(standard.beat_intensity < disabled.beat_intensity);

    assert!(ultra_safe.onset_intensity < safe.onset_intensity);
    assert!(safe.onset_intensity < moderate.onset_intensity);
    assert!(moderate.onset_intensity < standard.onset_intensity);
    assert!(standard.onset_intensity < disabled.onset_intensity);

    assert_eq!(disabled.beat_intensity, 1000);
    assert_eq!(disabled.onset_intensity, 1000);
    assert_eq!(disabled.brightness_range, 1000);

    let emergency = SafetyMultipliers::emergency_stop();
    assert_eq!(emergency.beat_intensity, 0);
    assert_eq!(emergency.onset_intensity, 0);
    assert_eq!(emergency.brightness_range, 100);
}

#[test]
fn test_safety_engine_level_transitions() {
    let mut engine = SafetyEngine::new();

    engine.set_safety_level(SafetyLevel::UltraSafe);
    let ultra_multipliers = engine.get_safety_multipliers();
    assert_eq!(ultra_multipliers.beat_intensity, 100);
    assert_eq!(ultra_multipliers.onset_intensity, 50);

    engine.set_safety_level(SafetyLevel::Safe);
    let safe_multipliers = engine.get_safety_multipliers();
    assert_eq!(safe_multipliers.beat_intensity, 300);
    assert_eq!(safe_multipliers.onset_intensity, 200);

    engine.set_safety_level(SafetyLevel::Standard);
    let standard_multipliers = engine.get_safety_multipliers();
    assert_eq!(standard_multipliers.beat_intensity, 800);
    assert_eq!(standard_multipliers.onset_intensity, 600);

    engine.set_safety_level(SafetyLevel::Disabled);
    let disabled_multipliers = engine.get_safety_multipliers();
    assert_eq!(disabled_multipliers.beat_intensity, 1000);
    assert_eq!(disabled_multipliers.onset_intensity, 1000);
}

#[test]
fn test_emergency_stop_overrides_all_levels() {
    let mut engine = SafetyEngine::new();

    let levels = [
        SafetyLevel::UltraSafe,
        SafetyLevel::Safe,
        SafetyLevel::Moderate,
        SafetyLevel::Standard,
        SafetyLevel::Disabled,
    ];

    for level in levels {
        engine.set_safety_level(level);
        engine.emergency_stop();

        let multipliers = engine.get_safety_multipliers();
        assert_eq!(multipliers.beat_intensity, 0, "Emergency stop should override {:?}", level);
        assert_eq!(multipliers.onset_intensity, 0, "Emergency stop should override {:?}", level);
        assert_eq!(multipliers.brightness_range, 100, "Emergency stop should override {:?}", level);

        engine.resume();
    }
}

#[test]
fn test_safety_status_reporting() {
    let mut engine = SafetyEngine::new();

    let status = engine.get_safety_status();
    assert_eq!(status.level, SafetyLevel::Safe);
    assert!(!status.emergency_stopped);
    assert!(status.warnings.is_empty());

    engine.emergency_stop();
    let emergency_status = engine.get_safety_status();
    assert!(emergency_status.emergency_stopped);
    assert!(!emergency_status.warnings.is_empty());

    assert!(emergency_status.get_status_message().contains("EMERGENCY STOP"));

    engine.resume();
    let resumed_status = engine.get_safety_status();
    assert!(!resumed_status.emergency_stopped);
    assert!(resumed_status.warnings.is_empty());
}

#[test]
fn test_red_flash_detection_and_limiting() {
    let mut engine = SafetyEngine::new();
    let now = 10_000;

    let red_color = Vector3::new(1000, 200, 200);
    let normal_color = Vector3::new(500, 500, 500);

    // At the safe level 800 thousandths count as 400, above the major threshold.
    assert!(engine.can_allow_effect(now, 800, red_color));
    engine.record_effect(now, 800, red_color);

    assert!(!engine.can_allow_effect(now, 800, red_color));

    assert!(engine.can_allow_effect(now, 200, normal_color));
}

#[test]
fn test_safety_multiplier_ranges_are_valid() {
    let multipliers = [
        SafetyMultipliers::ultra_safe(),
        SafetyMultipliers::safe(),
        SafetyMultipliers::moderate(),
        SafetyMultipliers::standard(),
        SafetyMultipliers::disabled(),
        SafetyMultipliers::emergency_stop(),
    ];

    for multiplier in multipliers {
        assert!(multiplier.beat_intensity <= 1000);
        assert!(multiplier.onset_intensity <= 1000);
        assert!(multiplier.color_change_rate <= 1000);
        assert!(multiplier.brightness_range <= 1000);
        assert!(multiplier.pattern_complexity <= 1000);
    }
}

#[test]
fn test_luminance_calculation_accuracy() {
    let white = Vector3::new(1000, 1000, 1000);
    let black = Vector3::new(0, 0, 0);
    let pure_red = Vector3::new(1000, 0, 0);
    let pure_green = Vector3::new(0, 1000, 0);
    let pure_blue = Vector3::new(0, 0, 1000);

    assert_eq!(LuminanceLimiter::calculate_luminance(white), 10_000_000);
    assert_eq!(LuminanceLimiter::calculate_luminance(black), 0);

    let green_luminance = LuminanceLimiter::calculate_luminance(pure_green);
    let red_luminance = LuminanceLimiter::calculate_luminance(pure_red);
    let blue_luminance = LuminanceLimiter::calculate_luminance(pure_blue);

    assert!(green_luminance > red_luminance);
    assert!(green_luminance > blue_luminance);
    assert!(red_luminance > blue_luminance);

    assert_eq!(red_luminance, 2_126_000);
    assert_eq!(green_luminance, 7_152_000);
    assert_eq!(blue_luminance, 722_000);
}

#[test]
fn test_safety_integration_with_different_audio_intensities() {
    let mut engine = SafetyEngine::new();
    engine.set_safety_level(SafetyLevel::Safe);
    let now = 10_000;

    let low_intensity = 100;
    let high_intensity = 900;

    assert!(engine.can_allow_effect(now, low_intensity, Vector3::new(500, 500, 500)));

    let can_allow_high = engine.can_allow_effect(now, high_intensity, Vector3::new(500, 500, 500));
    engine.record_effect(now, high_intensity, Vector3::new(500, 500, 500));

    if can_allow_high {
        assert!(!engine.can_allow_effect(now, high_intensity, Vector3::new(500, 500, 500)));
    }
}

#[test]
fn test_vector3_operations() {
    let vec = Vector3::new(500u32, 300, 200);
    let scalar = 800;

    let result = vec.mul_scalar(scalar);
    assert_eq!(result.x, 400);
    assert_eq!(result.y, 240);
    assert_eq!(result.z, 160);

    let result2 = Vector3::new(500u32, 300, 200).mul_scalar(scalar);
    assert_eq!(result.x, result2.x);
    assert_eq!(result.y, result2.y);
    assert_eq!(result.z, result2.z);
}

#[test]
fn flash_tracker_allows_again_after_cooldown() {
    let mut tracker = FlashTracker::new();
    assert!(tracker.can_allow_change(1000, 500, false));
    tracker.record_change(1000, 500, false);
    assert!(!tracker.can_allow_change(1332, 500, false));
    assert!(tracker.can_allow_change(1333, 500, false));
    // Minor changes are never held back.
    assert!(tracker.can_allow_change(1001, 300, false));
}

#[test]
fn flash_tracker_counts_the_trailing_second() {
    let mut tracker = FlashTracker::new();
    tracker.record_change(0, 900, false);
    tracker.record_change(300, 900, false);
    tracker.record_change(600, 900, false);
    // Three major changes inside the last second, cooldown over.
    assert!(!tracker.can_allow_change(999, 900, false));
    // The first one has left the window.
    assert!(tracker.can_allow_change(1000, 900, false));
}

#[test]
fn flash_tracker_red_cooldown_is_separate() {
    let mut tracker = FlashTracker::new();
    tracker.record_change(0, 900, true);
    tracker.record_change(400, 900, false);
    // General cooldown over at 800, red cooldown over since 333.
    assert!(tracker.can_allow_change(800, 900, true));
    let mut red = FlashTracker::new();
    red.record_change(1000, 900, true);
    assert!(!red.can_allow_change(1200, 900, true));
}

#[test]
fn luminance_limiter_scales_down_and_up() {
    let mut limiter = LuminanceLimiter::new();
    // Within 10% of one half: unchanged.
    let gray = Vector3::new(550, 550, 550);
    assert_eq!(limiter.limit_luminance_change(gray), gray);
    // Far darker: raised to 0.45, within 0.001.
    let dark = Vector3::new(100, 100, 100);
    let out = limiter.limit_luminance_change(dark);
    let l = calculate_luminance(out);
    assert!(l >= 4_500_000 && l < 4_510_000);
    assert_eq!(out.x, 450);
    // Black cannot be rescaled.
    let black = Vector3::new(0, 0, 0);
    assert_eq!(limiter.limit_luminance_change(black), black);
}

#[test]
fn luminance_steps_stay_within_ten_percent() {
    let mut limiter = LuminanceLimiter::new();
    let mut prev = 5_000_000u64;
    for c in [
        Vector3::new(1000, 1000, 1000),
        Vector3::new(10, 0, 0),
        Vector3::new(0, 1000, 0),
        Vector3::new(0, 0, 1),
        Vector3::new(1000, 1000, 1000),
    ] {
        let out = limiter.limit_luminance_change(c);
        let l = calculate_luminance(out);
        assert!(l.abs_diff(prev) <= 1_000_000);
        prev = l;
    }
}

#[test]
fn filter_color_scales_by_level_after_resume() {
    let mut engine = SafetyEngine::new();
    engine.emergency_stop();
    let dim = engine.filter_color(Vector3::new(1000, 1000, 1000));
    assert_eq!(dim, Vector3::new(100, 100, 100));
    assert!(calculate_luminance(dim) < 2_000_000);
    engine.resume();
    assert!(!engine.is_emergency_stopped());
    // Safe level: brightness factor one half; 0.4 luminance is within 10% of 0.5.
    let out = engine.filter_color(Vector3::new(800, 800, 800));
    assert_eq!(out, Vector3::new(400, 400, 400));
}

#[test]
fn disabled_level_allows_every_effect() {
    let mut engine = SafetyEngine::new();
    engine.set_safety_level(SafetyLevel::Disabled);
    assert_eq!(engine.get_safety_level(), SafetyLevel::Disabled);
    engine.record_effect(0, 1000, Vector3::new(1000, 0, 0));
    assert!(engine.can_allow_effect(0, 1000, Vector3::new(1000, 0, 0)));
    assert_eq!(SafetyLevel::default(), SafetyLevel::Safe);
    assert_eq!(SafetyMultipliers::for_level(SafetyLevel::Moderate), SafetyMultipliers::moderate());
}

#[test]
fn status_message_names_the_level() {
    let mut engine = SafetyEngine::new();
    engine.set_safety_level(SafetyLevel::Standard);
    let status = engine.get_safety_status();
    assert_eq!(status.get_status_message(), "🎨 Standard");
    assert!(!status.should_warn_user());
    engine.emergency_stop();
    let status = engine.get_safety_status();
    assert_eq!(status.warnings, vec!["Emergency stop activated".to_string()]);
    assert!(status.should_warn_user());
}
