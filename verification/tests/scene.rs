use bloom_board::scene::{
    grid_lines, BACKGROUND_LAYER, BOARD_SIZE_FINE, LINE_LAYER, LINE_LENGTH_FINE,
    LINE_SPACING_FINE, LINE_START_FINE, LINE_WIDTH_FINE, STONE_LAYER,
};

// 19 lines per axis, a horizontal and a vertical one per index.
#[test]
fn grid_has_38_lines() {
    let lines = grid_lines();
    assert_eq!(lines.len(), 38);
    for i in 0..19 {
        let horizontal = &lines[2 * i];
        let vertical = &lines[2 * i + 1];
        let pos = LINE_START_FINE + (i as i64) * LINE_SPACING_FINE;

        assert_eq!(horizontal.center_x, 0);
        assert_eq!(horizontal.center_y, pos);
        assert_eq!(horizontal.size_x, LINE_LENGTH_FINE);
        assert_eq!(horizontal.size_y, LINE_WIDTH_FINE);

        assert_eq!(vertical.center_x, pos);
        assert_eq!(vertical.center_y, 0);
        assert_eq!(vertical.size_x, LINE_WIDTH_FINE);
        assert_eq!(vertical.size_y, LINE_LENGTH_FINE);
    }
}

// The first line centre sits at -299 board units, the last at +299, and the
// lines span the board symmetrically.
#[test]
fn grid_lines_span_board() {
    let lines = grid_lines();
    assert_eq!(lines[0].center_y, -511_290);
    assert_eq!(lines[37].center_x, 511_290);
    assert_eq!(LINE_START_FINE + 18 * LINE_SPACING_FINE, -LINE_START_FINE);
    // Line length is the board side less one line width.
    assert_eq!(LINE_LENGTH_FINE, BOARD_SIZE_FINE - LINE_WIDTH_FINE);
}

// Stones render above the lines, the lines above the background.
#[test]
fn depth_layers_are_ordered() {
    assert!(BACKGROUND_LAYER < LINE_LAYER);
    assert!(LINE_LAYER < STONE_LAYER);
}
