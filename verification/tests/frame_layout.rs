//! The renderer's frame geometry: gauge scaling, the fixed threshold
//! marker, the one-time title, and the two end-to-end scenarios.

use plant_minder::channel::new_channel;
use plant_minder::label::value_label;
use plant_minder::reading::Reading;
use plant_minder::render::{
    frame_ops, gauge_fill_width, startup_ops, threshold_marker_x, DrawOp,
};
use plant_minder::tasks::{renderer_cycle, sampler_cycle};

fn fill_width_of(ops: &[DrawOp]) -> u32 {
    for op in ops {
        if let DrawOp::GaugeFill { width, .. } = op {
            return *width;
        }
    }
    panic!("frame has no gauge fill");
}

#[test]
fn gauge_fill_scales_linearly() {
    assert_eq!(gauge_fill_width(0), 0);
    assert_eq!(gauge_fill_width(100), 100);
    for pct in 0..=100u32 {
        // One pixel per percent: the exact linear map onto a 100-pixel gauge.
        assert_eq!(gauge_fill_width(pct), pct);
    }
}

#[test]
fn threshold_marker_is_constant() {
    // 29 % of the 100-pixel gauge, offset by the gauge's left edge at x = 14.
    assert_eq!(threshold_marker_x(), 43);
    let dry = frame_ops(&Reading::from_raw(4095));
    let wet = frame_ops(&Reading::from_raw(0));
    let marker_dry: Vec<&DrawOp> = dry
        .iter()
        .filter(|op| matches!(op, DrawOp::ThresholdLine { .. }))
        .collect();
    let marker_wet: Vec<&DrawOp> = wet
        .iter()
        .filter(|op| matches!(op, DrawOp::ThresholdLine { .. }))
        .collect();
    assert_eq!(marker_dry, marker_wet);
    assert_eq!(
        *marker_dry[0],
        DrawOp::ThresholdLine { x: 43, y_top: 38, y_bottom: 62 }
    );
}

#[test]
fn title_drawn_once_at_startup_never_in_frames() {
    let startup = startup_ops();
    let titles: usize = startup
        .iter()
        .filter(|op| matches!(op, DrawOp::TitleText { .. }))
        .count();
    assert_eq!(titles, 1);
    // A long run of frames never draws the title again.
    for raw in (0..4096u16).step_by(37) {
        let frame = frame_ops(&Reading::from_raw(raw));
        assert!(frame
            .iter()
            .all(|op| !matches!(op, DrawOp::TitleText { .. })));
    }
}

#[test]
fn driest_reading_gives_empty_gauge() {
    let r = Reading::from_raw(4095);
    assert_eq!(r.percentage, 0);
    let ops = frame_ops(&r);
    assert_eq!(fill_width_of(&ops), 0);
    assert_eq!(value_label(r.raw_value), "Raw Val 4095");
}

#[test]
fn wet_reading_gives_quarter_gauge() {
    let r = Reading::from_raw(3100);
    assert_eq!(r.percentage, 24);
    let ops = frame_ops(&r);
    assert_eq!(fill_width_of(&ops), 24);
    assert_eq!(value_label(r.raw_value), "Raw Val 3100");
}

#[test]
fn frame_has_fixed_shape_and_order() {
    let r = Reading::from_raw(3100);
    let ops = frame_ops(&r);
    assert_eq!(
        ops,
        vec![
            DrawOp::ClearDynamicRegion { x: 0, y: 16, width: 128, height: 48 },
            DrawOp::ValueText { raw_value: 3100, x: 63, y: 31 },
            DrawOp::GaugeOutline { x: 14, y: 40, width: 100, height: 20 },
            DrawOp::GaugeFill { x: 14, y: 40, width: 24, height: 20 },
            DrawOp::ThresholdLine { x: 43, y_top: 38, y_bottom: 62 },
            DrawOp::Flush,
        ]
    );
}

#[test]
fn sampler_to_renderer_pipeline() {
    let mut ch = new_channel();
    assert!(sampler_cycle(&mut ch, 4095).is_none());
    assert!(sampler_cycle(&mut ch, 3100).is_none());
    let (first, first_frame) = renderer_cycle(&mut ch).expect("a frame");
    assert_eq!(first.raw_value, 4095);
    assert_eq!(fill_width_of(&first_frame), 0);
    let (second, second_frame) = renderer_cycle(&mut ch).expect("a frame");
    assert_eq!(second.raw_value, 3100);
    assert_eq!(fill_width_of(&second_frame), 24);
    assert!(renderer_cycle(&mut ch).is_none());
}
