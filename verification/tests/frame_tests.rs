use world_clock::chrome::DragTracker;
use world_clock::frame::{
    default_roster, initial_canvas, run_frame, variant_from_name, OverlayConfig,
};
use world_clock::layout::{CanvasSize, LayoutVariant};

#[test]
fn pointer_down_transition_requests_one_move() {
    let mut drag = DragTracker::new();
    assert!(drag.observe(true), "first press must request a move");
    assert!(!drag.observe(true), "held button must not request again");
    assert!(!drag.observe(false), "release requests nothing");
    assert!(drag.observe(true), "a fresh press requests again");
}

#[test]
fn variant_selector_recognizes_alternate() {
    assert_eq!(variant_from_name("alternate"), LayoutVariant::SideBySide);
    assert_eq!(variant_from_name("default"), LayoutVariant::Stacked);
    assert_eq!(variant_from_name("anything else"), LayoutVariant::Stacked);
    assert_eq!(variant_from_name(""), LayoutVariant::Stacked);
}

#[test]
fn default_roster_names_five_recognized_zones() {
    let roster = default_roster();
    let labels: Vec<&str> = roster.iter().map(|e| e.label.as_str()).collect();
    let zones: Vec<&str> = roster.iter().map(|e| e.zone_id.as_str()).collect();
    assert_eq!(labels, vec!["LT", "UTC", "BLR", "ERD", "MIA"]);
    assert_eq!(zones, vec!["local", "utc", "blr", "erd", "mia"]);
}

#[test]
fn initial_canvas_sizes() {
    assert_eq!(
        initial_canvas(LayoutVariant::SideBySide, 5),
        CanvasSize { width: 500, height: 30 }
    );
    assert_eq!(initial_canvas(LayoutVariant::Stacked, 5), CanvasSize { width: 90, height: 200 });
}

#[test]
fn frame_paints_roster_and_requests_repaint() {
    let config = OverlayConfig::new(default_roster(), variant_from_name("default"));
    let mut drag = DragTracker::new();
    let canvas = CanvasSize { width: 120, height: 200 };
    let out = run_frame(&config, canvas, false, &mut drag);
    assert!(out.request_repaint);
    assert!(!out.begin_move);
    assert_eq!(out.regions.len(), 5);
    let mut next_y = 0;
    for (region, source) in out.regions.iter().zip(config.roster.iter()) {
        assert_eq!(region.rect.x, 0);
        assert_eq!(region.rect.width, 120);
        assert_eq!(region.rect.y, next_y);
        next_y = region.rect.y + region.rect.height;
        assert_eq!(region.entry.label, source.label);
        let expected_prefix = format!("{}:\n", source.label);
        assert!(region.text.starts_with(&expected_prefix), "text {:?}", region.text);
        assert_eq!(region.text.len(), expected_prefix.len() + 8);
    }
    assert_eq!(next_y, 200);
}

#[test]
fn frame_forwards_pointer_transitions() {
    let config = OverlayConfig::new(default_roster(), variant_from_name("alternate"));
    let mut drag = DragTracker::new();
    let canvas = CanvasSize { width: 500, height: 30 };
    let first = run_frame(&config, canvas, true, &mut drag);
    assert!(first.begin_move, "a press during the frame begins a move");
    let second = run_frame(&config, canvas, true, &mut drag);
    assert!(!second.begin_move, "a held button begins no second move");
    let third = run_frame(&config, canvas, false, &mut drag);
    assert!(!third.begin_move);
    let fourth = run_frame(&config, canvas, true, &mut drag);
    assert!(fourth.begin_move);
}
