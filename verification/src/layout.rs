//! The layout engine: tiling the window canvas into one panel per clock.
//!
//! The canvas is cut into equal bands along one axis, horizontal bands for
//! [`LayoutVariant::Stacked`] and vertical bands for
//! [`LayoutVariant::SideBySide`]. When the axis is not evenly divisible the
//! remainder pixels go to the last band, so the bands always cover the canvas
//! exactly, with no gap and no overlap.

use vstd::prelude::*;

verus! {

use vstd::arithmetic::div_mod::{lemma_fundamental_div_mod, lemma_mod_bound, lemma_div_pos_is_pos};
use vstd::string::StringExecFns;

/// A color as red, green and blue channels.
#[derive(Clone, Copy, PartialEq, Eq, Structural, Debug)]
pub struct Rgb {
    pub red: u8,
    pub green: u8,
    pub blue: u8,
}

/// One clock of the roster: a short label, the zone identifier handed to the
/// time source, and the panel's fill color.
#[derive(Debug)]
pub struct ClockEntry {
    pub label: String,
    pub zone_id: String,
    pub fill_color: Rgb,
}

impl Clone for ClockEntry {
    /// Field-for-field copy; the clone equals the original.
    fn clone(&self) -> (r: Self)
        ensures
            r == *self,
    {
        ClockEntry {
            label: self.label.clone(),
            zone_id: self.zone_id.clone(),
            fill_color: self.fill_color,
        }
    }
}

/// The tiling strategy: horizontal bands stacked top to bottom, or vertical
/// bands side by side.
#[derive(Clone, Copy, PartialEq, Eq, Structural, Debug)]
pub enum LayoutVariant {
    Stacked,
    SideBySide,
}

/// The drawable size of the window, in device-independent pixels.
#[derive(Clone, Copy, PartialEq, Eq, Structural, Debug)]
pub struct CanvasSize {
    pub width: usize,
    pub height: usize,
}

/// An axis-aligned rectangle on the canvas.
#[derive(Clone, Copy, PartialEq, Eq, Structural, Debug)]
pub struct Rect {
    pub x: usize,
    pub y: usize,
    pub width: usize,
    pub height: usize,
}

/// One display region of a tiling: its rectangle, the roster entry it shows,
/// and the text painted into it.
#[derive(Debug)]
pub struct PanelRegion {
    pub rect: Rect,
    pub entry: ClockEntry,
    pub text: String,
}

/// Where band `i` of `n` equal bands begins on an axis of extent `total`.
pub open spec fn band_offset(total: int, n: int, i: int) -> int {
    i * (total / n)
}

/// The extent of band `i` of `n` on an axis of extent `total`: the equal
/// share, except that the last band absorbs the division remainder.
pub open spec fn band_extent(total: int, n: int, i: int) -> int {
    if i == n - 1 {
        total - (n - 1) * (total / n)
    } else {
        total / n
    }
}

/// The text a panel shows: its label, a colon, a line break, and the time.
pub open spec fn panel_text(label: Seq<char>, time: Seq<char>) -> Seq<char> {
    label + ":\n"@ + time
}

/// The rectangle of panel `i` out of `n` on `canvas` under `variant`.
pub open spec fn panel_rect_ok(
    variant: LayoutVariant,
    canvas: CanvasSize,
    n: int,
    i: int,
    rect: Rect,
) -> bool {
    match variant {
        LayoutVariant::Stacked => {
            &&& rect.x == 0
            &&& rect.width == canvas.width
            &&& rect.y == band_offset(canvas.height as int, n, i)
            &&& rect.height == band_extent(canvas.height as int, n, i)
        },
        LayoutVariant::SideBySide => {
            &&& rect.y == 0
            &&& rect.height == canvas.height
            &&& rect.x == band_offset(canvas.width as int, n, i)
            &&& rect.width == band_extent(canvas.width as int, n, i)
        },
    }
}

/// The views of a sequence of strings.
pub open spec fn string_views(ss: Seq<String>) -> Seq<Seq<char>> {
    ss.map_values(|s: String| s@)
}

/// The full contract of a tiling: one region per roster entry, in roster
/// order, with the band geometry, the entry carried over unchanged, and the
/// panel text composed from the entry's label and its time string.
pub open spec fn tiling_ok(
    roster: Seq<ClockEntry>,
    times: Seq<Seq<char>>,
    variant: LayoutVariant,
    canvas: CanvasSize,
    out: Seq<PanelRegion>,
) -> bool {
    &&& out.len() == roster.len()
    &&& forall|i: int|
        0 <= i < out.len() ==> panel_rect_ok(
            variant,
            canvas,
            roster.len() as int,
            i,
            (#[trigger] out[i]).rect,
        )
    &&& forall|i: int| 0 <= i < out.len() ==> (#[trigger] out[i]).entry == roster[i]
    &&& forall|i: int|
        0 <= i < out.len() ==> (#[trigger] out[i]).text@ == panel_text(
            roster[i].label@,
            times[i],
        )
}

/// The offset and extent of band `i` of `n` on an axis of extent `total`.
fn band_bounds(total: usize, n: usize, i: usize) -> (b: (usize, usize))
    requires
        0 < n,
        i < n,
    ensures
        b.0 == band_offset(total as int, n as int, i as int),
        b.1 == band_extent(total as int, n as int, i as int),
        b.0 + b.1 <= total,
{
    let base: usize = total / n;
    proof {
        lemma_fundamental_div_mod(total as int, n as int);
        lemma_mod_bound(total as int, n as int);
        assert((i as int) * (base as int) + (base as int) == (i as int + 1) * (base as int) && (i
            as int + 1) * (base as int) <= (n as int) * (base as int)) by (nonlinear_arith)
            requires
                0 <= i as int,
                (i as int) < (n as int),
                0 <= base as int,
        ;
    }
    let off: usize = i * base;
    let ext: usize = if i == n - 1 {
        total - (n - 1) * base
    } else {
        base
    };
    (off, ext)
}

/// Tiles the canvas for the roster: one region per entry, in roster order.
/// `times` holds one already-formatted time string per entry; geometry and
/// text are both functions of the arguments alone.
pub fn tile(
    roster: &Vec<ClockEntry>,
    times: &Vec<String>,
    variant: LayoutVariant,
    canvas: CanvasSize,
) -> (out: Vec<PanelRegion>)
    requires
        times@.len() == roster@.len(),
    ensures
        tiling_ok(roster@, string_views(times@), variant, canvas, out@),
{
    let n: usize = roster.len();
    let mut out: Vec<PanelRegion> = Vec::new();
    let mut i: usize = 0;
    while i < n
        invariant
            n == roster@.len(),
            times@.len() == n,
            i <= n,
            out@.len() == i,
            forall|k: int|
                0 <= k < i ==> panel_rect_ok(variant, canvas, n as int, k, (#[trigger] out@[k]).rect),
            forall|k: int| 0 <= k < i ==> (#[trigger] out@[k]).entry == roster@[k],
            forall|k: int|
                0 <= k < i ==> (#[trigger] out@[k]).text@ == panel_text(
                    roster@[k].label@,
                    string_views(times@)[k],
                ),
        decreases n - i,
    {
        let b = band_bounds(
            if matches!(variant, LayoutVariant::Stacked) {
                canvas.height
            } else {
                canvas.width
            },
            n,
            i,
        );
        let rect = match variant {
            LayoutVariant::Stacked => Rect { x: 0, y: b.0, width: canvas.width, height: b.1 },
            LayoutVariant::SideBySide => Rect { x: b.0, y: 0, width: b.1, height: canvas.height },
        };
        let entry = roster[i].clone();
        let mut text = entry.label.clone();
        text.append(":\n");
        text.append(times[i].as_str());
        out.push(PanelRegion { rect, entry, text });
        i += 1;
    }
    out
}

/// Law: for any band count the bands tile their axis: the first starts at
/// zero, each further band starts exactly where the previous one ends, every
/// band has non-negative extent, and the last band ends exactly at the total.
pub proof fn lemma_bands_tile(total: int, n: int)
    requires
        0 < n,
        0 <= total,
    ensures
        band_offset(total, n, 0) == 0,
        forall|i: int|
            0 <= i < n - 1 ==> #[trigger] band_offset(total, n, i) + band_extent(total, n, i)
                == band_offset(total, n, i + 1),
        band_offset(total, n, n - 1) + band_extent(total, n, n - 1) == total,
        forall|i: int| 0 <= i < n ==> #[trigger] band_extent(total, n, i) >= 0,
{
    let q = total / n;
    lemma_fundamental_div_mod(total, n);
    lemma_mod_bound(total, n);
    lemma_div_pos_is_pos(total, n);
    assert forall|i: int|
        0 <= i < n - 1 implies #[trigger] band_offset(total, n, i) + band_extent(total, n, i)
        == band_offset(total, n, i + 1) by {
        assert(i * q + q == (i + 1) * q) by (nonlinear_arith);
    }
    assert forall|i: int| 0 <= i < n implies #[trigger] band_extent(total, n, i) >= 0 by {
        assert((n - 1) * q <= n * q && n * q == (n - 1) * q + q) by (nonlinear_arith)
            requires
                0 <= q,
                0 < n,
        ;
    }
}

/// Law: the last band is the equal share plus exactly the division
/// remainder, so no band is more than `n - 1` pixels from the equal share.
pub proof fn lemma_last_band_remainder(total: int, n: int)
    requires
        0 < n,
        0 <= total,
    ensures
        band_extent(total, n, n - 1) == total / n + total % n,
{
    lemma_fundamental_div_mod(total, n);
    let q = total / n;
    assert((n - 1) * q == n * q - q) by (nonlinear_arith);
}

/// Law: a tiling covers its canvas exactly. Along the tiling axis the first
/// region starts at the canvas edge, each region starts exactly where the
/// previous one ends, and the last region ends at the opposite edge; across
/// the axis every region spans the whole canvas. So there is no gap, no
/// overlap, and the union of the regions is the canvas.
pub proof fn lemma_tiling_covers_canvas(
    roster: Seq<ClockEntry>,
    times: Seq<Seq<char>>,
    variant: LayoutVariant,
    canvas: CanvasSize,
    out: Seq<PanelRegion>,
)
    requires
        tiling_ok(roster, times, variant, canvas, out),
        out.len() > 0,
    ensures
        variant == LayoutVariant::Stacked ==> out[0].rect.y == 0,
        variant == LayoutVariant::Stacked ==> forall|i: int|
            0 <= i < out.len() - 1 ==> (#[trigger] out[i]).rect.y + out[i].rect.height == out[i
                + 1].rect.y,
        variant == LayoutVariant::Stacked ==> out[out.len() - 1].rect.y + out[out.len()
            - 1].rect.height == canvas.height,
        variant == LayoutVariant::Stacked ==> forall|i: int|
            0 <= i < out.len() ==> (#[trigger] out[i]).rect.x == 0 && out[i].rect.width
                == canvas.width,
        variant == LayoutVariant::SideBySide ==> out[0].rect.x == 0,
        variant == LayoutVariant::SideBySide ==> forall|i: int|
            0 <= i < out.len() - 1 ==> (#[trigger] out[i]).rect.x + out[i].rect.width == out[i
                + 1].rect.x,
        variant == LayoutVariant::SideBySide ==> out[out.len() - 1].rect.x + out[out.len()
            - 1].rect.width == canvas.width,
        variant == LayoutVariant::SideBySide ==> forall|i: int|
            0 <= i < out.len() ==> (#[trigger] out[i]).rect.y == 0 && out[i].rect.height
                == canvas.height,
{
    let n = out.len() as int;
    match variant {
        LayoutVariant::Stacked => {
            lemma_bands_tile(canvas.height as int, n);
            assert forall|i: int| 0 <= i < out.len() - 1 implies (#[trigger] out[i]).rect.y
                + out[i].rect.height == out[i + 1].rect.y by {
                assert(band_offset(canvas.height as int, n, i) + band_extent(
                    canvas.height as int,
                    n,
                    i,
                ) == band_offset(canvas.height as int, n, i + 1));
            }
        },
        LayoutVariant::SideBySide => {
            lemma_bands_tile(canvas.width as int, n);
            assert forall|i: int| 0 <= i < out.len() - 1 implies (#[trigger] out[i]).rect.x
                + out[i].rect.width == out[i + 1].rect.x by {
                assert(band_offset(canvas.width as int, n, i) + band_extent(
                    canvas.width as int,
                    n,
                    i,
                ) == band_offset(canvas.width as int, n, i + 1));
            }
        },
    }
}

/// Law: tiling geometry is a function of the arguments alone: any two
/// tilings that meet the contract for the same roster, times, variant and
/// canvas agree region by region.
pub proof fn lemma_tiling_deterministic(
    roster: Seq<ClockEntry>,
    times: Seq<Seq<char>>,
    variant: LayoutVariant,
    canvas: CanvasSize,
    out1: Seq<PanelRegion>,
    out2: Seq<PanelRegion>,
)
    requires
        tiling_ok(roster, times, variant, canvas, out1),
        tiling_ok(roster, times, variant, canvas, out2),
    ensures
        out1.len() == out2.len(),
        forall|i: int| 0 <= i < out1.len() ==> (#[trigger] out1[i]).rect == out2[i].rect,
        forall|i: int| 0 <= i < out1.len() ==> (#[trigger] out1[i]).entry == out2[i].entry,
        forall|i: int| 0 <= i < out1.len() ==> (#[trigger] out1[i]).text@ == out2[i].text@,
{
}

} // verus!
