use cardgen::canvas::IconImage;
use cardgen::card::{
    compose_card, decode_icon_pixels, TextBox, LABEL_BOX_H, LABEL_BOX_W, LABEL_CURSOR_Y,
    LABEL_SIZE, TITLE_BOX_H, TITLE_BOX_W, TITLE_CURSOR_Y, TITLE_SIZE,
};
use cardgen::color::Rgb;
use cardgen::meta::CardError;
use cardgen::{CANVAS_HEIGHT, CANVAS_WIDTH, PADDING};

fn gray(v: u8) -> Rgb {
    Rgb { r: v, g: v, b: v }
}

fn four_pixel_icon() -> IconImage {
    let pixels = vec![
        Rgb { r: 255, g: 0, b: 0 },
        Rgb { r: 0, g: 255, b: 0 },
        Rgb { r: 0, g: 0, b: 255 },
        Rgb { r: 255, g: 255, b: 255 },
    ];
    IconImage::from_pixels(2, 2, pixels).unwrap()
}

#[test]
fn canvas_has_exactly_one_pixel_per_cell() {
    let card = compose_card(
        &"sans".to_string(),
        &"Hello World".to_string(),
        &"r/test".to_string(),
        None,
        four_pixel_icon(),
    );
    assert_eq!(card.canvas.pixels.len(), CANVAS_WIDTH * CANVAS_HEIGHT);
}

#[test]
fn gradient_meets_its_stops_and_is_monotone() {
    let card = compose_card(
        &"sans".to_string(),
        &"t".to_string(),
        &"c".to_string(),
        None,
        four_pixel_icon(),
    );
    assert_eq!(card.canvas.pixel_at(0, 0), gray(26));
    assert_eq!(card.canvas.pixel_at(1919, 0), gray(26));
    assert_eq!(card.canvas.pixel_at(0, 1079), gray(40));
    assert_eq!(card.canvas.pixel_at(1919, 1079), gray(40));
    assert_eq!(card.canvas.pixel_at(0, 540), gray(33));
    let mut prev = 0u8;
    for y in 0..CANVAS_HEIGHT {
        let c = card.canvas.pixel_at(0, y);
        assert_eq!(c.r, c.g);
        assert_eq!(c.g, c.b);
        assert!(c.r >= prev);
        prev = c.r;
    }
}

#[test]
fn icon_is_scaled_to_its_rectangle_and_sampled() {
    let card = compose_card(
        &"sans".to_string(),
        &"t".to_string(),
        &"c".to_string(),
        Some(four_pixel_icon()),
        four_pixel_icon(),
    );
    // a 2x2 icon renders as an 800x800 square at (1070, 140)
    assert_eq!(card.canvas.pixel_at(1070, 140), Rgb { r: 255, g: 0, b: 0 });
    assert_eq!(card.canvas.pixel_at(1869, 140), Rgb { r: 0, g: 255, b: 0 });
    assert_eq!(card.canvas.pixel_at(1070, 939), Rgb { r: 0, g: 0, b: 255 });
    assert_eq!(card.canvas.pixel_at(1869, 939), Rgb { r: 255, g: 255, b: 255 });
    // just outside the rendered rectangle the background shows through
    assert_eq!(card.canvas.pixel_at(1069, 140), gray(27));
    assert_eq!(card.canvas.pixel_at(1070, 139), gray(27));
    assert_eq!(card.canvas.pixel_at(1870, 140), gray(27));
    assert_eq!(card.canvas.pixel_at(1070, 940), gray(38));
}

#[test]
fn render_is_deterministic() {
    let a = compose_card(
        &"sans".to_string(),
        &"Hello World".to_string(),
        &"r/test".to_string(),
        Some(four_pixel_icon()),
        four_pixel_icon(),
    );
    let b = compose_card(
        &"sans".to_string(),
        &"Hello World".to_string(),
        &"r/test".to_string(),
        Some(four_pixel_icon()),
        four_pixel_icon(),
    );
    assert_eq!(a.canvas.pixels, b.canvas.pixels);
    assert_eq!(a.label.text, b.label.text);
    assert_eq!(a.title.text, b.title.text);
}

#[test]
fn missing_icon_falls_back_to_the_default() {
    let with_none = compose_card(
        &"sans".to_string(),
        &"t".to_string(),
        &"c".to_string(),
        None,
        four_pixel_icon(),
    );
    let with_default = compose_card(
        &"sans".to_string(),
        &"t".to_string(),
        &"c".to_string(),
        Some(four_pixel_icon()),
        four_pixel_icon(),
    );
    assert_eq!(with_none.canvas.pixels, with_default.canvas.pixels);
}

#[test]
fn hello_world_card_layout() {
    let card = compose_card(
        &"sans".to_string(),
        &"Hello World".to_string(),
        &"r/test".to_string(),
        None,
        four_pixel_icon(),
    );
    assert_eq!(card.canvas.pixels.len(), 1920 * 1080);
    assert_eq!(card.label.text, "r/test".to_string());
    assert_eq!(card.label.font, "sans".to_string());
    assert_eq!(card.label.color, Rgb { r: 255, g: 31, b: 0 });
    assert_eq!((card.label.x, card.label.y), (PADDING, LABEL_CURSOR_Y));
    assert_eq!(card.label.size, LABEL_SIZE);
    assert_eq!(card.label.bounds, Some(TextBox { w: LABEL_BOX_W, h: LABEL_BOX_H }));
    assert_eq!((LABEL_BOX_W, LABEL_BOX_H), (1020, 60));
    assert_eq!(card.title.text, "Hello World".to_string());
    assert_eq!(card.title.color, Rgb { r: 255, g: 255, b: 255 });
    assert_eq!((card.title.x, card.title.y), (PADDING, TITLE_CURSOR_Y));
    assert_eq!(card.title.size, TITLE_SIZE);
    assert_eq!(card.title.bounds, Some(TextBox { w: TITLE_BOX_W, h: TITLE_BOX_H }));
    assert_eq!((TITLE_BOX_W, TITLE_BOX_H), (970, 880));
    // the default icon is composited into the right-hand square region
    assert_eq!(card.canvas.pixel_at(1070, 140), Rgb { r: 255, g: 0, b: 0 });
}

#[test]
fn bad_icon_pixel_data_is_a_typed_failure() {
    let r = decode_icon_pixels(2, 2, vec![Rgb { r: 0, g: 0, b: 0 }; 3]);
    assert_eq!(r.unwrap_err(), CardError::BadIcon);
    let r = decode_icon_pixels(0, 1, vec![]);
    assert_eq!(r.unwrap_err(), CardError::BadIcon);
    let r = decode_icon_pixels(1, 1, vec![Rgb { r: 9, g: 9, b: 9 }]);
    assert!(r.is_ok());
}

#[test]
fn oversized_dimensions_are_rejected() {
    let r = decode_icon_pixels(0x8000_0000, 1, vec![]);
    assert_eq!(r.unwrap_err(), CardError::BadIcon);
    let r = decode_icon_pixels(1, 0x8000_0000, vec![]);
    assert_eq!(r.unwrap_err(), CardError::BadIcon);
}
