//! The per-frame driver and the startup configuration.
//!
//! A frame reads the wall clock once, derives every roster entry's display
//! from that one instant, tiles the canvas, observes the pointer for the
//! drag handshake, and unconditionally asks for the next frame. The shell
//! around the library paints the returned regions and performs the two
//! requests; no state survives a frame beyond the configuration and the
//! one-bit drag tracker.

use vstd::prelude::*;

verus! {

use vstd::string::StringExecFns;
use crate::chrome::{DragTracker, drag_begins, drag_step};
use crate::layout::{
    CanvasSize, ClockEntry, LayoutVariant, PanelRegion, Rgb, panel_rect_ok, panel_text, tile,
    string_views,
};
use crate::text::str_eq;
use crate::zones::{get_time_at, now_timestamp, recognized_zone, zone_time_ok};

/// The immutable startup configuration: the roster in display order and the
/// tiling variant.
pub struct OverlayConfig {
    pub roster: Vec<ClockEntry>,
    pub variant: LayoutVariant,
}

impl OverlayConfig {
    pub fn new(roster: Vec<ClockEntry>, variant: LayoutVariant) -> (c: Self)
        ensures
            c.roster == roster,
            c.variant == variant,
    {
        OverlayConfig { roster, variant }
    }
}

/// What one frame hands back to the shell: the regions to paint, and the two
/// requests to pass on to the host toolkit.
pub struct FrameOutput {
    pub regions: Vec<PanelRegion>,
    /// Always raised: the overlay redraws continuously.
    pub request_repaint: bool,
    /// Raised on a pointer-down transition: ask the host windowing system
    /// for one interactive move session.
    pub begin_move: bool,
}

/// All panel texts of a frame show the same instant `t`: there is one list
/// of time strings, one per region, each correct for its zone at `t`, out of
/// which every panel text is composed.
pub open spec fn frame_times_ok(roster: Seq<ClockEntry>, regions: Seq<PanelRegion>, t: int) -> bool {
    exists|ts: Seq<Seq<char>>|
        #![trigger ts.len()]
        {
            &&& ts.len() == regions.len()
            &&& forall|i: int|
                0 <= i < regions.len() ==> (#[trigger] regions[i]).text@ == panel_text(
                    roster[i].label@,
                    ts[i],
                )
            &&& forall|i: int|
                0 <= i < regions.len() ==> zone_time_ok(roster[i].zone_id@, t, #[trigger] ts[i])
        }
}

/// One frame: read the clock once, derive each entry's display from that
/// instant, tile the canvas, observe the pointer. The regions tile the
/// canvas in roster order, a repaint is always requested, and a move session
/// is requested exactly on a pointer-down transition.
pub fn run_frame(
    config: &OverlayConfig,
    canvas: CanvasSize,
    pointer_down: bool,
    drag: &mut DragTracker,
) -> (out: FrameOutput)
    ensures
        out.request_repaint,
        out.begin_move == drag_begins(*old(drag), pointer_down),
        *final(drag) == drag_step(*old(drag), pointer_down),
        out.regions@.len() == config.roster@.len(),
        forall|i: int|
            0 <= i < out.regions@.len() ==> panel_rect_ok(
                config.variant,
                canvas,
                config.roster@.len() as int,
                i,
                (#[trigger] out.regions@[i]).rect,
            ),
        forall|i: int|
            0 <= i < out.regions@.len() ==> (#[trigger] out.regions@[i]).entry == config.roster@[i],
        exists|t: int| frame_times_ok(config.roster@, out.regions@, t),
{
    let t = now_timestamp();
    let n: usize = config.roster.len();
    let mut times: Vec<String> = Vec::new();
    let mut i: usize = 0;
    while i < n
        invariant
            n == config.roster@.len(),
            i <= n,
            times@.len() == i,
            forall|k: int|
                0 <= k < i ==> zone_time_ok(
                    config.roster@[k].zone_id@,
                    t as int,
                    (#[trigger] times@[k])@,
                ),
        decreases n - i,
    {
        let s = get_time_at(config.roster[i].zone_id.as_str(), t);
        times.push(s);
        i += 1;
    }
    let regions = tile(&config.roster, &times, config.variant, canvas);
    let begin_move = drag.observe(pointer_down);
    proof {
        let ts = string_views(times@);
        assert(ts.len() == regions@.len());
        assert forall|k: int| 0 <= k < regions@.len() implies (#[trigger] regions@[k]).text@
            == panel_text(config.roster@[k].label@, ts[k]) by {}
        assert forall|k: int| 0 <= k < regions@.len() implies zone_time_ok(
            config.roster@[k].zone_id@,
            t as int,
            #[trigger] ts[k],
        ) by {
            assert(ts[k] == times@[k]@);
        }
        assert(frame_times_ok(config.roster@, regions@, t as int));
    }
    FrameOutput { regions, request_repaint: true, begin_move }
}

/// The layout variant a startup selector names: `alternate` chooses the
/// side-by-side row; everything else, `default` included, falls back to the
/// stacked column.
pub open spec fn variant_of_name(name: Seq<char>) -> LayoutVariant {
    if name == "alternate"@ {
        LayoutVariant::SideBySide
    } else {
        LayoutVariant::Stacked
    }
}

/// Maps the startup selector to a layout variant; an unrecognized value
/// silently falls back to the default, never an error.
pub fn variant_from_name(name: &str) -> (v: LayoutVariant)
    ensures
        v == variant_of_name(name@),
{
    if str_eq(name, "alternate") {
        LayoutVariant::SideBySide
    } else {
        LayoutVariant::Stacked
    }
}

/// The reference roster: local time, UTC, and three city zones, in display
/// order, every zone identifier recognized by the time source.
pub fn default_roster() -> (r: Vec<ClockEntry>)
    ensures
        r@.len() == 5,
        r@[0].label@ == "LT"@ && r@[0].zone_id@ == "local"@,
        r@[1].label@ == "UTC"@ && r@[1].zone_id@ == "utc"@,
        r@[2].label@ == "BLR"@ && r@[2].zone_id@ == "blr"@,
        r@[3].label@ == "ERD"@ && r@[3].zone_id@ == "erd"@,
        r@[4].label@ == "MIA"@ && r@[4].zone_id@ == "mia"@,
        forall|i: int| 0 <= i < 5 ==> recognized_zone((#[trigger] r@[i]).zone_id@),
{
    let mut r: Vec<ClockEntry> = Vec::new();
    r.push(ClockEntry {
        label: String::from_str("LT"),
        zone_id: String::from_str("local"),
        fill_color: Rgb { red: 144, green: 238, blue: 144 },
    });
    r.push(ClockEntry {
        label: String::from_str("UTC"),
        zone_id: String::from_str("utc"),
        fill_color: Rgb { red: 255, green: 255, blue: 255 },
    });
    r.push(ClockEntry {
        label: String::from_str("BLR"),
        zone_id: String::from_str("blr"),
        fill_color: Rgb { red: 255, green: 0, blue: 0 },
    });
    r.push(ClockEntry {
        label: String::from_str("ERD"),
        zone_id: String::from_str("erd"),
        fill_color: Rgb { red: 255, green: 255, blue: 0 },
    });
    r.push(ClockEntry {
        label: String::from_str("MIA"),
        zone_id: String::from_str("mia"),
        fill_color: Rgb { red: 173, green: 216, blue: 230 },
    });
    r
}

/// The window size requested at startup: the tiling axis gets one per-panel
/// extent per roster entry plus a fixed margin, the other axis one panel.
pub fn initial_canvas(variant: LayoutVariant, n: usize) -> (c: CanvasSize)
    requires
        n * 90 + 50 <= usize::MAX,
    ensures
        variant == LayoutVariant::SideBySide ==> c.width == n * 90 + 50 && c.height == 30,
        variant == LayoutVariant::Stacked ==> c.width == 90 && c.height == n * 30 + 50,
{
    match variant {
        LayoutVariant::SideBySide => CanvasSize { width: n * 90 + 50, height: 30 },
        LayoutVariant::Stacked => CanvasSize { width: 90, height: n * 30 + 50 },
    }
}

} // verus!
