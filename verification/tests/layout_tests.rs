use cardgen::geom::{icon_placement, ICON_BOX_HEIGHT, ICON_CENTER_X};
use cardgen::text::{wrap_text, Glyph};
use cardgen::ICON_SIZE;

fn glyph(advance: usize, space: bool) -> Glyph {
    Glyph { advance, space }
}

#[test]
fn placement_exact_aspect_fills_target() {
    let p = icon_placement(800, 980);
    assert_eq!((p.x, p.y, p.w, p.h), (1070, 50, 800, 980));
    let p = icon_placement(1600, 1960);
    assert_eq!((p.x, p.y, p.w, p.h), (1070, 50, 800, 980));
}

#[test]
fn placement_wide_icon_letterboxes_vertically() {
    let p = icon_placement(2000, 500);
    assert_eq!((p.x, p.y, p.w, p.h), (1070, 440, 800, 200));
    assert_eq!(p.w, ICON_SIZE);
}

#[test]
fn placement_tall_icon_letterboxes_horizontally() {
    let p = icon_placement(100, 1000);
    assert_eq!((p.x, p.y, p.w, p.h), (1421, 50, 98, 980));
    assert_eq!(p.h, ICON_BOX_HEIGHT);
}

#[test]
fn placement_small_icon_is_upscaled() {
    let p = icon_placement(2, 2);
    assert_eq!((p.x, p.y, p.w, p.h), (1070, 140, 800, 800));
}

#[test]
fn placement_always_centered_and_on_canvas() {
    let dims = [(1usize, 1usize), (1, 5000), (5000, 1), (37, 413), (1920, 1080)];
    for (iw, ih) in dims {
        let p = icon_placement(iw, ih);
        assert!(p.w <= ICON_SIZE);
        assert!(p.h <= ICON_BOX_HEIGHT);
        assert!(p.w == ICON_SIZE || p.h == ICON_BOX_HEIGHT);
        assert_eq!(p.x, ICON_CENTER_X - p.w / 2);
        assert_eq!(p.y, (1080 - p.h) / 2);
        assert!(p.x + p.w <= 1920);
        assert!(p.y + p.h <= 1080);
    }
}

#[test]
fn wrap_breaks_on_word_boundary() {
    let glyphs = vec![
        glyph(10, false),
        glyph(10, false),
        glyph(5, true),
        glyph(10, false),
        glyph(10, false),
    ];
    let layout = wrap_text(&glyphs, 25, 20, 10, 12);
    assert!(!layout.ellipsized);
    assert_eq!(layout.lines.len(), 2);
    assert_eq!(
        (layout.lines[0].start, layout.lines[0].end, layout.lines[0].width),
        (0, 3, 25)
    );
    assert_eq!(
        (layout.lines[1].start, layout.lines[1].end, layout.lines[1].width),
        (3, 5, 20)
    );
}

#[test]
fn wrap_falls_back_to_character_breaks() {
    let glyphs = vec![
        glyph(10, false),
        glyph(10, false),
        glyph(10, false),
        glyph(10, false),
        glyph(10, false),
        glyph(10, false),
    ];
    let layout = wrap_text(&glyphs, 30, 100, 10, 12);
    assert!(!layout.ellipsized);
    assert_eq!(layout.lines.len(), 2);
    assert_eq!(
        (layout.lines[0].start, layout.lines[0].end, layout.lines[0].width),
        (0, 3, 30)
    );
    assert_eq!(
        (layout.lines[1].start, layout.lines[1].end, layout.lines[1].width),
        (3, 6, 30)
    );
}

#[test]
fn wrap_ellipsizes_when_height_overflows() {
    let glyphs = vec![
        glyph(10, false),
        glyph(10, false),
        glyph(5, true),
        glyph(10, false),
        glyph(10, false),
    ];
    let layout = wrap_text(&glyphs, 25, 10, 10, 12);
    assert!(layout.ellipsized);
    assert_eq!(layout.lines.len(), 1);
    assert_eq!(
        (layout.lines[0].start, layout.lines[0].end, layout.lines[0].width),
        (0, 1, 10)
    );
    assert!(layout.lines[0].width + 12 <= 25);
}

#[test]
fn wrap_empty_text_is_complete() {
    let glyphs: Vec<Glyph> = vec![];
    let layout = wrap_text(&glyphs, 25, 20, 10, 12);
    assert!(!layout.ellipsized);
    assert_eq!(layout.lines.len(), 0);
}

#[test]
fn wrap_box_shorter_than_one_line_truncates_everything() {
    let glyphs = vec![glyph(10, false), glyph(10, false)];
    let layout = wrap_text(&glyphs, 25, 5, 10, 12);
    assert!(layout.ellipsized);
    assert_eq!(layout.lines.len(), 0);
}

#[test]
fn wrap_lines_never_exceed_width() {
    let advances = [7usize, 3, 11, 2, 9, 4, 8, 8, 1, 13, 5, 6, 12, 2, 7];
    let glyphs: Vec<Glyph> = advances
        .iter()
        .enumerate()
        .map(|(i, &a)| glyph(a, i % 4 == 3))
        .collect();
    let layout = wrap_text(&glyphs, 20, 200, 10, 6);
    for line in &layout.lines {
        assert!(line.width <= 20);
        let sum: usize = glyphs[line.start..line.end].iter().map(|g| g.advance).sum();
        assert_eq!(sum, line.width);
    }
    assert!(!layout.ellipsized);
    assert_eq!(layout.lines.last().unwrap().end, glyphs.len());
    assert_eq!(layout.lines[0].start, 0);
    for k in 1..layout.lines.len() {
        assert_eq!(layout.lines[k].start, layout.lines[k - 1].end);
    }
}
