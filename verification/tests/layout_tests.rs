use world_clock::layout::{tile, CanvasSize, ClockEntry, LayoutVariant, Rgb};
use world_clock::zones::get_time_at;

fn entry(label: &str, zone: &str, color: Rgb) -> ClockEntry {
    ClockEntry { label: label.to_string(), zone_id: zone.to_string(), fill_color: color }
}

fn five_entries() -> Vec<ClockEntry> {
    vec![
        entry("LT", "local", Rgb { red: 144, green: 238, blue: 144 }),
        entry("UTC", "utc", Rgb { red: 255, green: 255, blue: 255 }),
        entry("BLR", "blr", Rgb { red: 255, green: 0, blue: 0 }),
        entry("ERD", "erd", Rgb { red: 255, green: 255, blue: 0 }),
        entry("MIA", "mia", Rgb { red: 173, green: 216, blue: 230 }),
    ]
}

fn blank_times(n: usize) -> Vec<String> {
    std::iter::repeat(String::new()).take(n).collect()
}

#[test]
fn stacked_five_bands_tile_canvas() {
    let roster = five_entries();
    let canvas = CanvasSize { width: 300, height: 150 };
    let out = tile(&roster, &blank_times(5), LayoutVariant::Stacked, canvas);
    assert_eq!(out.len(), 5);
    let mut height_sum = 0;
    let mut next_y = 0;
    for region in &out {
        assert_eq!(region.rect.x, 0);
        assert_eq!(region.rect.width, 300);
        assert_eq!(region.rect.y, next_y, "bands must be adjacent");
        assert!(region.rect.height.abs_diff(150 / 5) <= 1);
        next_y = region.rect.y + region.rect.height;
        height_sum += region.rect.height;
    }
    assert_eq!(height_sum, 150);
    assert_eq!(next_y, 150);
}

#[test]
fn side_by_side_five_bands_tile_canvas() {
    let roster = five_entries();
    let canvas = CanvasSize { width: 450, height: 40 };
    let out = tile(&roster, &blank_times(5), LayoutVariant::SideBySide, canvas);
    assert_eq!(out.len(), 5);
    let mut width_sum = 0;
    let mut next_x = 0;
    for region in &out {
        assert_eq!(region.rect.y, 0);
        assert_eq!(region.rect.height, 40);
        assert_eq!(region.rect.x, next_x, "bands must run left to right");
        next_x = region.rect.x + region.rect.width;
        width_sum += region.rect.width;
    }
    assert_eq!(width_sum, 450);
    assert_eq!(next_x, 450);
}

#[test]
fn tiling_is_deterministic() {
    let roster = five_entries();
    let times: Vec<String> = roster.iter().map(|e| get_time_at(&e.zone_id, 77)).collect();
    let canvas = CanvasSize { width: 333, height: 47 };
    for variant in [LayoutVariant::Stacked, LayoutVariant::SideBySide] {
        let a = tile(&roster, &times, variant, canvas);
        let b = tile(&roster, &times, variant, canvas);
        assert_eq!(a.len(), b.len());
        for (ra, rb) in a.iter().zip(b.iter()) {
            assert_eq!(ra.rect, rb.rect);
            assert_eq!(ra.text, rb.text);
            assert_eq!(ra.entry.label, rb.entry.label);
        }
    }
}

#[test]
fn regions_keep_roster_order() {
    let roster = five_entries();
    let canvas = CanvasSize { width: 200, height: 200 };
    for variant in [LayoutVariant::Stacked, LayoutVariant::SideBySide] {
        let out = tile(&roster, &blank_times(5), variant, canvas);
        for (region, source) in out.iter().zip(roster.iter()) {
            assert_eq!(region.entry.label, source.label);
            assert_eq!(region.entry.zone_id, source.zone_id);
            assert_eq!(region.entry.fill_color, source.fill_color);
        }
    }
}

#[test]
fn last_band_absorbs_remainder() {
    let roster = five_entries()[..3].to_vec();
    let canvas = CanvasSize { width: 60, height: 100 };
    let out = tile(&roster, &blank_times(3), LayoutVariant::Stacked, canvas);
    let heights: Vec<usize> = out.iter().map(|r| r.rect.height).collect();
    assert_eq!(heights, vec![33, 33, 34]);
    assert_eq!(out[2].rect.y + out[2].rect.height, 100);
}

#[test]
fn empty_roster_yields_no_regions() {
    let out = tile(&Vec::<ClockEntry>::new(), &Vec::<String>::new(), LayoutVariant::Stacked, CanvasSize {
        width: 100,
        height: 100,
    });
    assert!(out.is_empty());
}

#[test]
fn two_clock_scenario() {
    let roster = vec![
        entry("LT", "local", Rgb { red: 0, green: 255, blue: 0 }),
        entry("UTC", "utc", Rgb { red: 255, green: 255, blue: 255 }),
    ];
    let t = 4_000_000;
    let times = vec![get_time_at("local", t), get_time_at("utc", t)];
    let canvas = CanvasSize { width: 200, height: 80 };
    let out = tile(&roster, &times, LayoutVariant::Stacked, canvas);
    assert_eq!(out.len(), 2);
    assert_eq!((out[0].rect.x, out[0].rect.y, out[0].rect.width, out[0].rect.height), (0, 0, 200, 40));
    assert_eq!((out[1].rect.x, out[1].rect.y, out[1].rect.width, out[1].rect.height), (0, 40, 200, 40));
    assert_eq!(out[0].entry.fill_color, Rgb { red: 0, green: 255, blue: 0 });
    assert_eq!(out[1].entry.fill_color, Rgb { red: 255, green: 255, blue: 255 });
    assert_eq!(out[0].text, format!("LT:\n{}", times[0]));
    assert_eq!(out[1].text, format!("UTC:\n{}", times[1]));
    assert_eq!(out[1].text, "UTC:\n07:06:40");
}
