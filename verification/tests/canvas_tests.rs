//! Pixel-level behaviour of the canvas: fill, compositing order,
//! background scaling and the source-over formula.

use corsola::Canvas;
use corsola::Rgba;
use corsola::SurfaceInitError;

fn opaque(r: u8, g: u8, b: u8) -> Rgba {
    Rgba { r, g, b, a: 255 }
}

fn solid(w: u32, h: u32, c: Rgba) -> Canvas {
    let mut canvas = Canvas::new(w, h).unwrap();
    canvas.fill(c);
    canvas
}

#[test]
fn fill_sets_every_pixel() {
    let red = opaque(255, 0, 0);
    let mut canvas = Canvas::new(3, 2).unwrap();
    canvas.fill(red);
    for y in 0..2 {
        for x in 0..3 {
            assert_eq!(canvas.pixel(x, y), red);
        }
    }
}

#[test]
fn fill_is_idempotent() {
    let blue = opaque(0, 0, 255);
    let mut once = Canvas::new(4, 4).unwrap();
    once.fill(blue);
    let mut many = Canvas::new(4, 4).unwrap();
    many.fill(blue);
    many.fill(blue);
    many.fill(blue);
    for y in 0..4 {
        for x in 0..4 {
            assert_eq!(many.pixel(x, y), once.pixel(x, y));
            assert_eq!(many.pixel(x, y), blue);
        }
    }
}

#[test]
fn later_opaque_blit_wins_in_overlap() {
    let red = opaque(255, 0, 0);
    let blue = opaque(0, 0, 255);
    let mut canvas = Canvas::new(3, 3).unwrap();
    let a = solid(2, 2, red);
    let b = solid(2, 2, blue);
    canvas.blit(0, 0, &a);
    canvas.blit(1, 1, &b);
    // the overlap shows the later draw
    assert_eq!(canvas.pixel(1, 1), blue);
    // the rest of each draw is untouched
    assert_eq!(canvas.pixel(0, 0), red);
    assert_eq!(canvas.pixel(1, 0), red);
    assert_eq!(canvas.pixel(2, 2), blue);
    // outside both draws the canvas is still transparent
    assert_eq!(canvas.pixel(2, 0), Rgba { r: 0, g: 0, b: 0, a: 0 });
}

#[test]
fn blit_clips_outside_the_canvas() {
    let green = opaque(0, 255, 0);
    let mut canvas = Canvas::new(2, 2).unwrap();
    let img = solid(3, 3, green);
    canvas.blit(-1, -1, &img);
    // only the part that lands on the canvas is composited
    for y in 0..2 {
        for x in 0..2 {
            assert_eq!(canvas.pixel(x, y), green);
        }
    }
}

#[test]
fn background_stretches_by_canvas_over_source() {
    let red = opaque(255, 0, 0);
    let blue = opaque(0, 0, 255);
    let mut src = Canvas::new(2, 1).unwrap();
    src.set_pixel(0, 0, red);
    src.set_pixel(1, 0, blue);
    let mut canvas = Canvas::new(4, 2).unwrap();
    canvas.background(&src);
    // scale factor 4/2 = 2 horizontally: columns 0,1 sample source
    // column 0, columns 2,3 sample source column 1; 2/1 vertically.
    for y in 0..2 {
        assert_eq!(canvas.pixel(0, y), red);
        assert_eq!(canvas.pixel(1, y), red);
        assert_eq!(canvas.pixel(2, y), blue);
        assert_eq!(canvas.pixel(3, y), blue);
    }
}

#[test]
fn background_downscale_samples_proportionally() {
    let mut src = Canvas::new(4, 1).unwrap();
    src.set_pixel(0, 0, opaque(10, 0, 0));
    src.set_pixel(1, 0, opaque(20, 0, 0));
    src.set_pixel(2, 0, opaque(30, 0, 0));
    src.set_pixel(3, 0, opaque(40, 0, 0));
    let mut canvas = Canvas::new(2, 1).unwrap();
    canvas.background(&src);
    // scale factor 2/4: column x samples source column x * 4 / 2
    assert_eq!(canvas.pixel(0, 0), opaque(10, 0, 0));
    assert_eq!(canvas.pixel(1, 0), opaque(30, 0, 0));
}

#[test]
fn source_over_formula_exact() {
    // premultiplied source (100, 50, 25, 200) over opaque white:
    // each channel gains 255 * (255 - 200) / 255 = 55.
    let mut canvas = Canvas::new(1, 1).unwrap();
    canvas.fill(opaque(255, 255, 255));
    let mut src = Canvas::new(1, 1).unwrap();
    src.set_pixel(0, 0, Rgba { r: 100, g: 50, b: 25, a: 200 });
    canvas.blit(0, 0, &src);
    assert_eq!(canvas.pixel(0, 0), Rgba { r: 155, g: 105, b: 80, a: 255 });
}

#[test]
fn transparent_source_leaves_destination() {
    let grey = opaque(7, 7, 7);
    let mut canvas = Canvas::new(2, 2).unwrap();
    canvas.fill(grey);
    let clear = Canvas::new(2, 2).unwrap();
    canvas.blit(0, 0, &clear);
    for y in 0..2 {
        for x in 0..2 {
            assert_eq!(canvas.pixel(x, y), grey);
        }
    }
}

#[test]
fn zero_sized_canvas_is_refused() {
    assert_eq!(Canvas::new(0, 5).unwrap_err(), SurfaceInitError::ZeroSizedCanvas);
    assert_eq!(Canvas::new(5, 0).unwrap_err(), SurfaceInitError::ZeroSizedCanvas);
    assert_eq!(Canvas::new(0, 0).unwrap_err(), SurfaceInitError::ZeroSizedCanvas);
}

#[test]
fn canvas_reports_its_dimensions() {
    let canvas = Canvas::new(7, 3).unwrap();
    assert_eq!(canvas.width(), 7);
    assert_eq!(canvas.height(), 3);
}
