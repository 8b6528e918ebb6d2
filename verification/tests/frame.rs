use imprev::fit::TargetDimensions;
use imprev::frame::{build_colormap, FrameError};
use imprev::image::{Bgr, Image};

fn solid(width: u32, height: u32, sample: Bgr) -> Image {
    let count = (width as usize) * (height as usize);
    Image {
        width,
        height,
        samples: vec![sample; count],
    }
}

#[test]
fn build_solid_red_grid() {
    // Pure red arrives from the decoder as blue-green-red (0, 0, 255)
    // and must quantize as red: cube index 196.
    let img = solid(5, 10, Bgr { blue: 0, green: 0, red: 255 });
    let grid = build_colormap(&img, TargetDimensions { width: 5, height: 10 }).unwrap();
    assert_eq!(grid.width, 5);
    assert_eq!(grid.height, 10);
    assert_eq!(grid.cells.len(), 10);
    for row in &grid.cells {
        assert_eq!(row.len(), 5);
        for &cell in row {
            assert_eq!(cell, 196);
        }
    }
}

#[test]
fn build_normalizes_channel_order() {
    // A sample whose first channel is 255 is pure blue, not red.
    let img = solid(1, 1, Bgr { blue: 255, green: 0, red: 0 });
    let grid = build_colormap(&img, TargetDimensions { width: 1, height: 1 }).unwrap();
    assert_eq!(grid.cells[0][0], 21);
}

#[test]
fn build_grid_matches_target_for_varied_sizes() {
    for (w, h) in [(1u32, 1u32), (3, 2), (2, 3), (7, 1), (1, 7), (16, 16)] {
        let img = solid(w, h, Bgr { blue: 10, green: 20, red: 30 });
        let grid = build_colormap(&img, TargetDimensions { width: w, height: h }).unwrap();
        assert_eq!(grid.width, w);
        assert_eq!(grid.height, h);
        assert_eq!(grid.cells.len(), h as usize);
        for row in &grid.cells {
            assert_eq!(row.len(), w as usize);
        }
    }
}

#[test]
fn build_keeps_row_major_positions() {
    // 2x2: distinct gray values, laid out row-major.
    let img = Image {
        width: 2,
        height: 2,
        samples: vec![
            Bgr { blue: 0, green: 0, red: 0 },
            Bgr { blue: 255, green: 255, red: 255 },
            Bgr { blue: 128, green: 128, red: 128 },
            Bgr { blue: 16, green: 16, red: 16 },
        ],
    };
    let grid = build_colormap(&img, TargetDimensions { width: 2, height: 2 }).unwrap();
    assert_eq!(grid.cells, vec![vec![16, 231], vec![243, 232]]);
}

#[test]
fn build_rejects_dimension_mismatch() {
    let img = solid(4, 10, Bgr { blue: 0, green: 0, red: 255 });
    let result = build_colormap(&img, TargetDimensions { width: 5, height: 10 });
    assert!(matches!(result, Err(FrameError::DimensionMismatch)));
}

#[test]
fn build_rejects_missing_pixels() {
    let img = Image {
        width: 5,
        height: 10,
        samples: vec![Bgr { blue: 0, green: 0, red: 255 }; 49],
    };
    let result = build_colormap(&img, TargetDimensions { width: 5, height: 10 });
    assert!(matches!(result, Err(FrameError::MissingPixels)));
}
