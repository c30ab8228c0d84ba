use los::service::los::viewshed_glyphs;

#[test]
fn glyphs_for_small_grid() {
    let data = vec![true, false, true, false, true, true];
    let out: String = viewshed_glyphs(3, 2, &data, 1, 1).into_iter().collect();
    assert_eq!(out, "●◯●\n◯ಠ●\n");
}

#[test]
fn glyphs_viewer_outside_grid() {
    let data = vec![false, true];
    let out: String = viewshed_glyphs(2, 1, &data, 5, 5).into_iter().collect();
    assert_eq!(out, "◯●\n");
}

#[test]
fn glyphs_layout_one_line_per_row() {
    let (w, h) = (7usize, 4usize);
    let data: Vec<bool> = (0..w * h).map(|i| i % 3 == 0).collect();
    let out = viewshed_glyphs(w, h, &data, 2, 3);
    assert_eq!(out.len(), h * (w + 1));
    for y in 0..h {
        assert_eq!(out[y * (w + 1) + w], '\n');
        for x in 0..w {
            let expected = if x == 2 && y == 3 {
                'ಠ'
            } else if data[y * w + x] {
                '●'
            } else {
                '◯'
            };
            assert_eq!(out[y * (w + 1) + x], expected);
        }
    }
}

#[test]
fn glyphs_for_empty_grid() {
    assert!(viewshed_glyphs(0, 0, &vec![], 0, 0).is_empty());
    let out: String = viewshed_glyphs(0, 2, &vec![], 0, 0).into_iter().collect();
    assert_eq!(out, "\n\n");
}
