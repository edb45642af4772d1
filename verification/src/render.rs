//! The renderer's frame layout: the fixed geometry of the title, the numeric
//! line, the bar gauge and the over-watered threshold marker, expressed as a
//! list of drawing operations over plain coordinates.  An unverified shell
//! turns each operation into calls on the display driver.

use crate::reading::Reading;
use vstd::arithmetic::div_mod::lemma_div_by_multiple;
use vstd::prelude::*;

verus! {

/// Width of the display in pixels.
pub const DISPLAY_WIDTH: u32 = 128;

/// Height of the display in pixels.
pub const DISPLAY_HEIGHT: u32 = 64;

/// Horizontal centre pixel of the display, (DISPLAY_WIDTH - 1) / 2.
pub const CENTER_X: i32 = 63;

/// Vertical centre pixel of the display, (DISPLAY_HEIGHT - 1) / 2.
pub const CENTER_Y: i32 = 31;

/// Baseline anchor of the startup title, on the display's vertical axis.
pub const TITLE_Y: i32 = 10;

/// Top edge of the dynamic region: everything below it is cleared and
/// redrawn each cycle, everything above it (the title) is left alone.
pub const DYNAMIC_REGION_Y: i32 = 16;

/// Left edge of the gauge outline.
pub const GAUGE_X: i32 = 14;

/// Top edge of the gauge outline.
pub const GAUGE_Y: i32 = 40;

/// Pixel width of the gauge: the extent that stands for 0..100 percent.
pub const GAUGE_WIDTH: u32 = 100;

/// Pixel height of the gauge.
pub const GAUGE_HEIGHT: u32 = 20;

/// Moisture percentage above which the soil counts as over-watered; the
/// threshold marker sits at this share of the gauge.
pub const OVER_WATERED_PCT: u32 = 29;

/// Top end of the threshold marker line.
pub const THRESHOLD_TOP_Y: i32 = 38;

/// Bottom end of the threshold marker line.
pub const THRESHOLD_BOTTOM_Y: i32 = 62;

/// One drawing operation of the renderer, in display pixel coordinates.
/// Text positions are centre-aligned anchors; the numeric text itself is
/// `label::value_label` of the carried raw value.
#[derive(Clone, Copy, PartialEq, Eq, Structural, Debug)]
pub enum DrawOp {
    ClearDynamicRegion { x: i32, y: i32, width: u32, height: u32 },
    TitleText { x: i32, y: i32 },
    ValueText { raw_value: u16, x: i32, y: i32 },
    GaugeOutline { x: i32, y: i32, width: u32, height: u32 },
    GaugeFill { x: i32, y: i32, width: u32, height: u32 },
    ThresholdLine { x: i32, y_top: i32, y_bottom: i32 },
    Flush,
}

/// Width of the gauge fill for a percentage: its linear image on the
/// gauge's pixel extent.
pub open spec fn fill_width_spec(pct: int) -> int {
    pct * GAUGE_WIDTH / 100
}

/// Horizontal pixel of the threshold marker: the over-watered percentage
/// mapped onto the gauge, offset by the gauge's left edge.
pub open spec fn threshold_x_spec() -> int {
    GAUGE_X + OVER_WATERED_PCT * GAUGE_WIDTH / 100
}

/// The operations drawn once at startup: the centred title, then a flush.
/// No later frame contains the title again.
pub open spec fn startup_ops_spec() -> Seq<DrawOp> {
    seq![DrawOp::TitleText { x: CENTER_X, y: TITLE_Y }, DrawOp::Flush]
}

/// The operations of one steady-state frame for a reading: clear the
/// dynamic region, write the numeric text, draw the gauge outline, the fill
/// proportional to the percentage, the fixed threshold marker, then flush.
pub open spec fn frame_ops_spec(r: Reading) -> Seq<DrawOp> {
    seq![
        DrawOp::ClearDynamicRegion {
            x: 0,
            y: DYNAMIC_REGION_Y,
            width: DISPLAY_WIDTH,
            height: (DISPLAY_HEIGHT - DYNAMIC_REGION_Y) as u32,
        },
        DrawOp::ValueText { raw_value: r.raw_value, x: CENTER_X, y: CENTER_Y },
        DrawOp::GaugeOutline { x: GAUGE_X, y: GAUGE_Y, width: GAUGE_WIDTH, height: GAUGE_HEIGHT },
        DrawOp::GaugeFill {
            x: GAUGE_X,
            y: GAUGE_Y,
            width: fill_width_spec(r.percentage as int) as u32,
            height: GAUGE_HEIGHT,
        },
        DrawOp::ThresholdLine {
            x: threshold_x_spec() as i32,
            y_top: THRESHOLD_TOP_Y,
            y_bottom: THRESHOLD_BOTTOM_Y,
        },
        DrawOp::Flush,
    ]
}

/// Width in pixels of the gauge fill for a percentage.
pub fn gauge_fill_width(pct: u32) -> (w: u32)
    requires
        pct <= 100,
    ensures
        w == fill_width_spec(pct as int),
        w <= GAUGE_WIDTH,
{
    proof {
        lemma_div_by_multiple(pct as int, 100);
    }
    pct * GAUGE_WIDTH / 100
}

/// Horizontal pixel of the threshold marker.
pub fn threshold_marker_x() -> (x: i32)
    ensures
        x == threshold_x_spec(),
{
    GAUGE_X + (OVER_WATERED_PCT * GAUGE_WIDTH / 100) as i32
}

/// The startup drawing pass: title, then flush.
pub fn startup_ops() -> (ops: Vec<DrawOp>)
    ensures
        ops@ == startup_ops_spec(),
{
    let mut ops: Vec<DrawOp> = Vec::new();
    ops.push(DrawOp::TitleText { x: CENTER_X, y: TITLE_Y });
    ops.push(DrawOp::Flush);
    proof {
        assert(ops@ =~= startup_ops_spec());
    }
    ops
}

/// The drawing pass for one reading.
pub fn frame_ops(r: &Reading) -> (ops: Vec<DrawOp>)
    requires
        r.percentage <= 100,
    ensures
        ops@ == frame_ops_spec(*r),
{
    let mut ops: Vec<DrawOp> = Vec::new();
    ops.push(
        DrawOp::ClearDynamicRegion {
            x: 0,
            y: DYNAMIC_REGION_Y,
            width: DISPLAY_WIDTH,
            height: DISPLAY_HEIGHT - DYNAMIC_REGION_Y as u32,
        },
    );
    ops.push(DrawOp::ValueText { raw_value: r.raw_value, x: CENTER_X, y: CENTER_Y });
    ops.push(
        DrawOp::GaugeOutline { x: GAUGE_X, y: GAUGE_Y, width: GAUGE_WIDTH, height: GAUGE_HEIGHT },
    );
    let width = gauge_fill_width(r.percentage);
    ops.push(DrawOp::GaugeFill { x: GAUGE_X, y: GAUGE_Y, width, height: GAUGE_HEIGHT });
    ops.push(
        DrawOp::ThresholdLine {
            x: threshold_marker_x(),
            y_top: THRESHOLD_TOP_Y,
            y_bottom: THRESHOLD_BOTTOM_Y,
        },
    );
    ops.push(DrawOp::Flush);
    proof {
        assert(ops@ =~= frame_ops_spec(*r));
    }
    ops
}

/// Gauge linearity law: a zero percentage fills nothing, a full one spans
/// the gauge exactly, and in between the width is the exact linear image of
/// the percentage (no rounding: the gauge is one pixel per percent).
pub proof fn lemma_gauge_fill_linear(pct: int)
    requires
        0 <= pct <= 100,
    ensures
        fill_width_spec(0) == 0,
        fill_width_spec(100) == GAUGE_WIDTH,
        100 * fill_width_spec(pct) == pct * GAUGE_WIDTH,
{
    lemma_div_by_multiple(0, 100);
    lemma_div_by_multiple(100, 100);
    lemma_div_by_multiple(pct, 100);
}

/// Threshold law: the marker's position does not depend on the reading —
/// every frame places it at the over-watered constant mapped to the gauge's
/// pixel coordinates.
pub proof fn lemma_threshold_constant(a: Reading, b: Reading)
    ensures
        frame_ops_spec(a)[4] == frame_ops_spec(b)[4],
        threshold_x_spec() == GAUGE_X + OVER_WATERED_PCT,
{
}

/// Number of title drawings in a list of operations.
pub open spec fn title_count(ops: Seq<DrawOp>) -> int
    decreases ops.len(),
{
    if ops.len() == 0 {
        0
    } else {
        title_count(ops.drop_last()) + if ops.last() is TitleText {
            1int
        } else {
            0int
        }
    }
}

/// Counting title drawings distributes over concatenation.
pub proof fn lemma_title_count_add(a: Seq<DrawOp>, b: Seq<DrawOp>)
    ensures
        title_count(a + b) == title_count(a) + title_count(b),
    decreases b.len(),
{
    if b.len() == 0 {
        assert(a + b =~= a);
    } else {
        assert((a + b).drop_last() =~= a + b.drop_last());
        lemma_title_count_add(a, b.drop_last());
    }
}

/// No steady-state frame draws the title.
pub proof fn lemma_frame_title_free(r: Reading)
    ensures
        title_count(frame_ops_spec(r)) == 0,
{
    let s = frame_ops_spec(r);
    let s5 = s.drop_last();
    let s4 = s5.drop_last();
    let s3 = s4.drop_last();
    let s2 = s3.drop_last();
    let s1 = s2.drop_last();
    let s0 = s1.drop_last();
    assert(title_count(s) == title_count(s5));
    assert(title_count(s5) == title_count(s4));
    assert(title_count(s4) == title_count(s3));
    assert(title_count(s3) == title_count(s2));
    assert(title_count(s2) == title_count(s1));
    assert(title_count(s1) == title_count(s0));
    assert(s0 =~= Seq::<DrawOp>::empty());
    assert(title_count(s0) == 0);
}

/// Everything the renderer ever draws: the startup pass followed by one
/// frame per consumed reading, in consumption order.
pub open spec fn lifetime_ops_spec(readings: Seq<Reading>) -> Seq<DrawOp>
    decreases readings.len(),
{
    if readings.len() == 0 {
        startup_ops_spec()
    } else {
        lifetime_ops_spec(readings.drop_last()) + frame_ops_spec(readings.last())
    }
}

/// Title law: across the renderer's whole lifetime, however many readings it
/// consumes, the title is drawn exactly once.
pub proof fn lemma_title_drawn_once(readings: Seq<Reading>)
    ensures
        title_count(lifetime_ops_spec(readings)) == 1,
    decreases readings.len(),
{
    if readings.len() == 0 {
        let s = startup_ops_spec();
        let s1 = s.drop_last();
        let s0 = s1.drop_last();
        assert(title_count(s) == title_count(s1));
        assert(s1.last() == (DrawOp::TitleText { x: CENTER_X, y: TITLE_Y }));
        assert(title_count(s1) == title_count(s0) + 1);
        assert(s0 =~= Seq::<DrawOp>::empty());
        assert(title_count(s0) == 0);
    } else {
        lemma_title_drawn_once(readings.drop_last());
        lemma_title_count_add(
            lifetime_ops_spec(readings.drop_last()),
            frame_ops_spec(readings.last()),
        );
        lemma_frame_title_free(readings.last());
    }
}

} // verus!
