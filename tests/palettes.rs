use aruu::palettes::{ColorPalette, PaletteManager, PALETTE_COUNT};

#[test]
fn test_palette_cycling() {
    let rainbow = ColorPalette::Rainbow;
    let next = rainbow.next();
    assert_eq!(next, ColorPalette::Red);

    let violet = ColorPalette::Violet;
    let back_to_rainbow = violet.next();
    assert_eq!(back_to_rainbow, ColorPalette::Rainbow);
}

#[test]
fn test_palette_manager() {
    let mut manager = PaletteManager::new();
    assert_eq!(manager.current_palette(), ColorPalette::Rainbow);

    // 0.1 s: still inside the 2 s cooldown.
    let switched = manager.try_switch_palette(100, true);
    assert!(!switched);
    assert_eq!(manager.current_palette(), ColorPalette::Rainbow);

    // 3.0 s: the cooldown has elapsed.
    let switched = manager.try_switch_palette(3000, true);
    assert!(switched);
    assert_eq!(manager.current_palette(), ColorPalette::Red);
}

#[test]
fn test_palette_properties() {
    assert_eq!(ColorPalette::Rainbow.name(), "Rainbow");
    assert_eq!(ColorPalette::Red.base_hue(), 0);
    assert_eq!(ColorPalette::Green.base_hue(), 333);
    assert_eq!(ColorPalette::Rainbow.hue_range(), 1000);
    assert_eq!(ColorPalette::Red.hue_range(), 83);
}

#[test]
fn palette_cycle_visits_every_palette_once() {
    let all = ColorPalette::all_palettes();
    assert_eq!(all.len(), PALETTE_COUNT);
    let mut p = ColorPalette::Rainbow;
    for (i, expected) in all.iter().enumerate() {
        assert_eq!(p, *expected);
        assert_eq!(p.as_index(), i);
        p = p.next();
    }
    assert_eq!(p, ColorPalette::Rainbow);
    assert_eq!(ColorPalette::Indigo.name(), "Indigo");
    assert_eq!(ColorPalette::Blue.hue_range(), 167);
}

#[test]
fn palette_switch_needs_downbeat() {
    let mut manager = PaletteManager::new();
    assert!(!manager.try_switch_palette(5000, false));
    assert_eq!(manager.current_palette(), ColorPalette::Rainbow);
    assert!(manager.try_switch_palette(5000, true));
    assert_eq!(manager.previous_palette(), ColorPalette::Rainbow);
    assert_eq!(manager.current_palette(), ColorPalette::Red);
}

#[test]
fn palette_cooldown_window_refuses_twice_then_accepts() {
    let mut manager = PaletteManager::new();
    assert!(manager.try_switch_palette(2000, true));
    assert!(!manager.try_switch_palette(2500, true));
    assert!(!manager.try_switch_palette(3999, true));
    assert_eq!(manager.current_palette(), ColorPalette::Red);
    assert!(manager.try_switch_palette(4000, true));
    assert_eq!(manager.current_palette(), ColorPalette::Orange);
    assert_eq!(manager.previous_palette(), ColorPalette::Red);
}

#[test]
fn palette_blend_follows_smoothstep() {
    let mut manager = PaletteManager::new();
    assert_eq!(manager.get_transition_blend(0), 1000);
    assert!(manager.try_switch_palette(2000, true));
    assert_eq!(manager.get_transition_blend(2000), 0);
    // Halfway: t = 0.5 gives 0.5.
    assert_eq!(manager.get_transition_blend(2500), 500);
    // t = 0.25 gives 0.15625, rounded down to 156 thousandths.
    assert_eq!(manager.get_transition_blend(2250), 156);
    assert_eq!(manager.get_transition_blend(3000), 1000);
    assert_eq!(manager.get_transition_blend(1000), 0);
    manager.update_transition(2999);
    assert_eq!(manager.get_transition_blend(2500), 500);
    manager.update_transition(3000);
    assert_eq!(manager.get_transition_blend(2500), 1000);
}

#[test]
fn palette_cooldown_has_a_floor() {
    let mut manager = PaletteManager::new();
    manager.set_cooldown(10);
    assert!(manager.try_switch_palette(100, true));
    assert!(!manager.try_switch_palette(199, true));
    assert!(manager.try_switch_palette(200, true));
    manager.set_cooldown(500);
    assert!(!manager.try_switch_palette(699, true));
    assert!(manager.try_switch_palette(700, true));
}

#[test]
fn palette_force_switch_restarts_cooldown() {
    let mut manager = PaletteManager::new();
    manager.force_switch_palette(ColorPalette::Blue, 10_000);
    assert_eq!(manager.current_palette(), ColorPalette::Blue);
    assert!(!manager.try_switch_palette(11_000, true));
    assert!(manager.try_switch_palette(12_000, true));
    assert_eq!(manager.current_palette(), ColorPalette::Indigo);
}
