use imprev::controller::{
    render_pass, start, DecodeOutcome, InitError, PassAction, PassError,
};
use imprev::fit::TerminalGeometry;
use imprev::image::{Bgr, Image};

fn solid(width: u32, height: u32, sample: Bgr) -> Image {
    let count = (width as usize) * (height as usize);
    Image {
        width,
        height,
        samples: vec![sample; count],
    }
}

#[test]
fn start_reports_decode_failure() {
    let result = start(DecodeOutcome::Failed);
    assert!(matches!(result, Err(InitError::DecodeFailed)));
}

#[test]
fn start_reports_empty_image() {
    let zero_width = start(DecodeOutcome::Decoded { width: 0, height: 10 });
    assert!(matches!(zero_width, Err(InitError::EmptyImage)));
    let zero_height = start(DecodeOutcome::Decoded { width: 10, height: 0 });
    assert!(matches!(zero_height, Err(InitError::EmptyImage)));
}

#[test]
fn start_keeps_image_dimensions() {
    let ctl = start(DecodeOutcome::Decoded { width: 1920, height: 1080 }).unwrap();
    assert_eq!(ctl.image_width, 1920);
    assert_eq!(ctl.image_height, 1080);
    assert_eq!((ctl.compression.num, ctl.compression.den), (1, 2));
}

#[test]
fn initial_pass_does_not_clear() {
    let ctl = start(DecodeOutcome::Decoded { width: 1920, height: 1080 }).unwrap();
    let action = ctl.initial_pass(Some(TerminalGeometry { columns: 80, rows: 24 }));
    match action {
        PassAction::Render { clear_first, geometry, target } => {
            assert!(!clear_first);
            assert_eq!((geometry.columns, geometry.rows), (80, 24));
            assert_eq!((target.width, target.height), (21, 24));
        }
        PassAction::Skip { .. } => panic!("initial pass should render"),
    }
}

#[test]
fn resize_notification_triggers_one_cleared_render() {
    // After an initial render at (80, 24), a notification reporting
    // (40, 12) plans exactly one render pass at (40, 12)'s fit, with
    // the screen cleared first.
    let ctl = start(DecodeOutcome::Decoded { width: 1920, height: 1080 }).unwrap();
    let initial = ctl.initial_pass(Some(TerminalGeometry { columns: 80, rows: 24 }));
    assert!(matches!(initial, PassAction::Render { .. }));
    let action = ctl.on_notification(Some(TerminalGeometry { columns: 40, rows: 12 }));
    match action {
        PassAction::Render { clear_first, geometry, target } => {
            assert!(clear_first);
            assert_eq!((geometry.columns, geometry.rows), (40, 12));
            assert_eq!((target.width, target.height), (11, 12));
        }
        PassAction::Skip { .. } => panic!("a good query should render"),
    }
}

#[test]
fn query_failure_skips_then_recovers() {
    // A failed terminal-size query skips only that pass; the same
    // controller still renders on the next successful query.
    let ctl = start(DecodeOutcome::Decoded { width: 1920, height: 1080 }).unwrap();
    let failed = ctl.on_notification(None);
    assert!(matches!(
        failed,
        PassAction::Skip { error: PassError::TerminalQuery }
    ));
    let recovered = ctl.on_notification(Some(TerminalGeometry { columns: 80, rows: 24 }));
    assert!(matches!(recovered, PassAction::Render { .. }));
}

#[test]
fn degenerate_geometry_is_a_query_failure() {
    let ctl = start(DecodeOutcome::Decoded { width: 1920, height: 1080 }).unwrap();
    let action = ctl.on_notification(Some(TerminalGeometry { columns: 0, rows: 24 }));
    assert!(matches!(
        action,
        PassAction::Skip { error: PassError::TerminalQuery }
    ));
}

#[test]
fn end_to_end_solid_red() {
    // A solid pure-red 100x100 image in a 10x10 terminal at
    // compression 1/2 fits at (5, 10); every rendered cell uses
    // palette index 196.
    let ctl = start(DecodeOutcome::Decoded { width: 100, height: 100 }).unwrap();
    let action = ctl.on_notification(Some(TerminalGeometry { columns: 10, rows: 10 }));
    let target = match action {
        PassAction::Render { target, .. } => target,
        PassAction::Skip { .. } => panic!("a good query should render"),
    };
    assert_eq!((target.width, target.height), (5, 10));
    let resampled = solid(target.width, target.height, Bgr { blue: 0, green: 0, red: 255 });
    let bytes = render_pass(&resampled, target).unwrap();
    let mut expected = String::new();
    for _ in 0..10 {
        for _ in 0..5 {
            expected.push_str("\x1b[48;5;196m \x1b[0m");
        }
        expected.push('\n');
    }
    expected.push_str("Press Ctrl-C to Exit\n");
    assert_eq!(bytes, expected.as_bytes());
}

#[test]
fn identical_inputs_render_identical_bytes() {
    // Re-running the pipeline with the same image and the same
    // terminal geometry is byte-identical.
    let ctl = start(DecodeOutcome::Decoded { width: 1920, height: 1080 }).unwrap();
    let g = TerminalGeometry { columns: 80, rows: 24 };
    let first_plan = ctl.on_notification(Some(g));
    let second_plan = ctl.on_notification(Some(g));
    assert_eq!(first_plan, second_plan);
    let target = match first_plan {
        PassAction::Render { target, .. } => target,
        PassAction::Skip { .. } => panic!("a good query should render"),
    };
    let resampled = solid(target.width, target.height, Bgr { blue: 7, green: 99, red: 180 });
    let first = render_pass(&resampled, target).unwrap();
    let second = render_pass(&resampled, target).unwrap();
    assert_eq!(first, second);
}

#[test]
fn render_pass_fails_whole_frame_on_mismatch() {
    let resampled = solid(4, 4, Bgr { blue: 0, green: 0, red: 255 });
    let result = render_pass(
        &resampled,
        imprev::fit::TargetDimensions { width: 5, height: 4 },
    );
    assert!(result.is_err());
}
