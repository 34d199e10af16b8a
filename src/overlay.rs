use vstd::prelude::*;

verus! {

/// The on-screen panels drawn over the visuals.
#[derive(Debug, Clone, Copy, PartialEq, Eq, Structural)]
pub enum OverlayType {
    /// Debug read-outs on the right side.
    DebugOverlay,
    /// Controls in the top-left corner.
    ControlPanel,
}

pub open spec fn overlay_region(t: OverlayType) -> (u32, u32, u32, u32) {
    match t {
        OverlayType::DebugOverlay => (700, 0, 1000, 1000),
        OverlayType::ControlPanel => (0, 0, 400, 300),
    }
}

pub open spec fn overlay_name(t: OverlayType) -> Seq<char> {
    match t {
        OverlayType::DebugOverlay => "Debug Overlay"@,
        OverlayType::ControlPanel => "Control Panel"@,
    }
}

impl OverlayType {
    pub fn name(&self) -> (r: &'static str)
        ensures
            r@ == overlay_name(*self),
    {
        match self {
            OverlayType::DebugOverlay => "Debug Overlay",
            OverlayType::ControlPanel => "Control Panel",
        }
    }

    /// The region the overlay covers, as (min x, min y, max x, max y) in
    /// thousandths of the screen.
    pub fn screen_region(&self) -> (r: (u32, u32, u32, u32))
        ensures
            r == overlay_region(*self),
    {
        match self {
            OverlayType::DebugOverlay => (700, 0, 1000, 1000),
            OverlayType::ControlPanel => (0, 0, 400, 300),
        }
    }
}

/// What a click on an overlay asks for.
#[derive(Debug, Clone, Copy, PartialEq, Eq, Structural)]
pub enum OverlayEvent {
    /// A new volume, in thousandths.
    VolumeChanged(u32),
    OpenFile,
    PreviousTrack,
    NextTrack,
    ToggleSafety,
    EmergencyStop,
}

/// The events of a click at (`x`, `y`), in thousandths of the overlay.
pub open spec fn overlay_click_events(t: OverlayType, x: u32, y: u32) -> Seq<OverlayEvent> {
    match t {
        OverlayType::DebugOverlay => seq![],
        OverlayType::ControlPanel => if 200 <= y <= 400 {
            if 100 <= x <= 900 {
                seq![OverlayEvent::VolumeChanged(x)]
            } else {
                seq![]
            }
        } else if 400 < y <= 600 {
            if 100 <= x <= 300 {
                seq![OverlayEvent::OpenFile]
            } else if 400 <= x <= 500 {
                seq![OverlayEvent::PreviousTrack]
            } else if 600 <= x <= 700 {
                seq![OverlayEvent::NextTrack]
            } else {
                seq![]
            }
        } else if 600 < y <= 800 && 100 <= x <= 900 {
            seq![OverlayEvent::ToggleSafety]
        } else {
            seq![]
        },
    }
}

/// Position of `v` inside [`lo`, `hi`], in thousandths, rounded down.
pub open spec fn local_coord(v: u32, lo: u32, hi: u32) -> u32 {
    (((v - lo) as int) * 1000 / ((hi - lo) as int)) as u32
}

/// The events of a click at (`x`, `y`), in thousandths of the screen, on
/// the overlays shown: each shown overlay under the click adds the events
/// of the click at its local position, the debug overlay first.
pub open spec fn click_events(show_debug: bool, show_control: bool, x: u32, y: u32) -> Seq<
    OverlayEvent,
> {
    hit_events(OverlayType::DebugOverlay, show_debug, x, y) + hit_events(
        OverlayType::ControlPanel,
        show_control,
        x,
        y,
    )
}

pub open spec fn hit_events(t: OverlayType, shown: bool, x: u32, y: u32) -> Seq<OverlayEvent> {
    let (x0, y0, x1, y1) = overlay_region(t);
    if shown && x0 <= x <= x1 && y0 <= y <= y1 {
        overlay_click_events(t, local_coord(x, x0, x1), local_coord(y, y0, y1))
    } else {
        seq![]
    }
}

/// The events of a click at local position (`local_x`, `local_y`), in
/// thousandths of the overlay.
pub fn process_overlay_click(overlay_type: OverlayType, local_x: u32, local_y: u32) -> (r: Vec<
    OverlayEvent,
>)
    ensures
        r@ == overlay_click_events(overlay_type, local_x, local_y),
{
    match overlay_type {
        OverlayType::DebugOverlay => vec![],
        OverlayType::ControlPanel => {
            if 200 <= local_y && local_y <= 400 {
                if 100 <= local_x && local_x <= 900 {
                    return vec![OverlayEvent::VolumeChanged(local_x)];
                }
            } else if 400 < local_y && local_y <= 600 {
                if 100 <= local_x && local_x <= 300 {
                    return vec![OverlayEvent::OpenFile];
                } else if 400 <= local_x && local_x <= 500 {
                    return vec![OverlayEvent::PreviousTrack];
                } else if 600 <= local_x && local_x <= 700 {
                    return vec![OverlayEvent::NextTrack];
                }
            } else if 600 < local_y && local_y <= 800 {
                if 100 <= local_x && local_x <= 900 {
                    return vec![OverlayEvent::ToggleSafety];
                }
            }
            vec![]
        },
    }
}

fn hit_overlay(overlay_type: OverlayType, shown: bool, x: u32, y: u32) -> (r: Vec<OverlayEvent>)
    ensures
        r@ == hit_events(overlay_type, shown, x, y),
{
    let (x0, y0, x1, y1) = overlay_type.screen_region();
    if shown && x0 <= x && x <= x1 && y0 <= y && y <= y1 {
        proof {
            let (dx, dy) = ((x - x0) as int, (y - y0) as int);
            assert(dx * 1000 <= 1000 * 1000) by (nonlinear_arith)
                requires
                    0 <= dx <= 1000,
            ;
            assert(dy * 1000 <= 1000 * 1000) by (nonlinear_arith)
                requires
                    0 <= dy <= 1000,
            ;
        }
        let lx = ((x - x0) * 1000 / (x1 - x0)) as u32;
        let ly = ((y - y0) * 1000 / (y1 - y0)) as u32;
        process_overlay_click(overlay_type, lx, ly)
    } else {
        vec![]
    }
}

/// The events of a click at (`x`, `y`), in thousandths of the screen, with
/// the given overlays shown.
pub fn handle_mouse_click(show_debug: bool, show_control: bool, x: u32, y: u32) -> (r: Vec<
    OverlayEvent,
>)
    ensures
        r@ == click_events(show_debug, show_control, x, y),
{
    let mut events = hit_overlay(OverlayType::DebugOverlay, show_debug, x, y);
    let mut more = hit_overlay(OverlayType::ControlPanel, show_control, x, y);
    events.append(&mut more);
    events
}

/// Triangle indices of the full-screen quad: two triangles over four corners.
pub fn create_overlay_indices() -> (r: Vec<u16>)
    ensures
        r@ == seq![0u16, 1, 2, 2, 3, 0],
{
    vec![0, 1, 2, 2, 3, 0]
}

} // verus!
