use aruu::overlay::{
    create_overlay_indices, handle_mouse_click, process_overlay_click, OverlayEvent, OverlayType,
};

#[test]
fn overlay_indices_form_two_triangles() {
    assert_eq!(create_overlay_indices(), vec![0, 1, 2, 2, 3, 0]);
}

#[test]
fn overlay_names_and_regions() {
    assert_eq!(OverlayType::DebugOverlay.name(), "Debug Overlay");
    assert_eq!(OverlayType::ControlPanel.name(), "Control Panel");
    assert_eq!(OverlayType::DebugOverlay.screen_region(), (700, 0, 1000, 1000));
    assert_eq!(OverlayType::ControlPanel.screen_region(), (0, 0, 400, 300));
}

#[test]
fn control_panel_click_areas() {
    let panel = OverlayType::ControlPanel;
    assert_eq!(process_overlay_click(panel, 500, 300), vec![OverlayEvent::VolumeChanged(500)]);
    assert_eq!(process_overlay_click(panel, 200, 500), vec![OverlayEvent::OpenFile]);
    assert_eq!(process_overlay_click(panel, 450, 500), vec![OverlayEvent::PreviousTrack]);
    assert_eq!(process_overlay_click(panel, 650, 500), vec![OverlayEvent::NextTrack]);
    assert_eq!(process_overlay_click(panel, 500, 700), vec![OverlayEvent::ToggleSafety]);
    assert_eq!(process_overlay_click(panel, 500, 900), vec![]);
    assert_eq!(process_overlay_click(OverlayType::DebugOverlay, 500, 300), vec![]);
}

#[test]
fn screen_clicks_reach_shown_overlays_only() {
    // (200, 90) on screen is (500, 300) inside the control panel.
    assert_eq!(handle_mouse_click(true, true, 200, 90), vec![OverlayEvent::VolumeChanged(500)]);
    assert_eq!(handle_mouse_click(true, false, 200, 90), vec![]);
    assert_eq!(handle_mouse_click(true, true, 800, 500), vec![]);
}
