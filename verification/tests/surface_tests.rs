//! The window factory and the window/renderer bundle: default and
//! customized attributes, construction errors, and the end-to-end frame
//! scenario.

use corsola::Rgba;
use corsola::SurfaceInitError;
use corsola::new_surface;
use corsola::new_surface_ex;
use corsola::new_window;
use corsola::new_window_ex;

#[test]
fn window_factory_applies_defaults() {
    let w = new_window(5, String::from("hello"), 640, 480);
    assert_eq!(w.id, 5);
    assert_eq!(w.title, "hello");
    assert_eq!(w.config.width, 640);
    assert_eq!(w.config.height, 480);
    assert!(w.config.fullscreen);
    assert!(w.config.resizable);
    assert!(w.config.visible);
}

#[test]
fn window_customization_overrides_defaults() {
    let w = new_window_ex(6, String::from("popup"), 640, 480, |mut cfg| {
        cfg.fullscreen = false;
        cfg.resizable = false;
        cfg.width = 320;
        cfg
    });
    assert_eq!(w.id, 6);
    // the customization ran on the resolved defaults and overrode them
    assert!(!w.config.fullscreen);
    assert!(!w.config.resizable);
    assert_eq!(w.config.width, 320);
    // what it left alone keeps the library's default
    assert!(w.config.visible);
    assert_eq!(w.config.height, 480);
}

#[test]
fn surface_bundles_a_renderer_sized_to_its_window() {
    let s = new_surface(8, String::from("main"), 320, 240).unwrap();
    assert_eq!(s.window().id, 8);
    assert_eq!(s.canvas().width(), s.window().config.width);
    assert_eq!(s.canvas().height(), s.window().config.height);
}

#[test]
fn surface_construction_fails_on_a_zero_sized_window() {
    let err = new_surface(9, String::from("empty"), 0, 100).unwrap_err();
    assert_eq!(err, SurfaceInitError::ZeroSizedCanvas);
    let err = new_surface_ex(9, String::from("shrunk"), 100, 100, |mut cfg| {
        cfg.height = 0;
        cfg
    })
    .unwrap_err();
    assert_eq!(err, SurfaceInitError::ZeroSizedCanvas);
}

#[test]
fn customized_surface_sizes_its_canvas_to_the_customized_window() {
    let s = new_surface_ex(3, String::from("sized"), 100, 100, |mut cfg| {
        cfg.width = 50;
        cfg.height = 25;
        cfg
    })
    .unwrap();
    assert_eq!(s.canvas().width(), 50);
    assert_eq!(s.canvas().height(), 25);
}

#[test]
fn end_to_end_frame() {
    // a surface of logical size 200 by 100: fill white, draw one text,
    // present; no error, and the used-count is zero right after.
    let mut s = new_surface(1, String::from("demo"), 200, 100).unwrap();
    let white = Rgba { r: 255, g: 255, b: 255, a: 255 };
    s.fill(white);
    let plan = s.text_ex();
    assert_eq!(plan.slot, 0);
    assert!(plan.grew_pool);
    assert!(plan.built_fonts);
    s.commit_text(Ok(())).unwrap();
    s.update(Ok(())).unwrap();
    assert_eq!(s.used_text_count(), 0);
    assert_eq!(s.pool_size(), 1);
    assert_eq!(s.canvas().pixel(199, 99), white);
}

#[test]
fn surface_drawing_matches_canvas_semantics() {
    let mut s = new_surface(2, String::from("draw"), 4, 4).unwrap();
    let red = Rgba { r: 255, g: 0, b: 0, a: 255 };
    let blue = Rgba { r: 0, g: 0, b: 255, a: 255 };
    s.fill(red);
    let mut patch = corsola::Canvas::new(2, 2).unwrap();
    patch.fill(blue);
    s.blit(2, 2, &patch);
    assert_eq!(s.canvas().pixel(0, 0), red);
    assert_eq!(s.canvas().pixel(3, 3), blue);
    let mut bg = corsola::Canvas::new(1, 1).unwrap();
    bg.fill(blue);
    s.background(&bg);
    assert_eq!(s.canvas().pixel(0, 0), blue);
    assert_eq!(s.canvas().pixel(3, 0), blue);
}

#[test]
fn surface_registers_fonts_lazily() {
    let mut s = new_surface(4, String::from("fonts"), 8, 8).unwrap();
    s.load_fonts(&vec![7], false);
    assert!(!s.font_system_built());
    let plan = s.text_ex();
    assert!(plan.built_fonts);
    s.commit_text(Ok(())).unwrap();
    assert!(s.font_system_built());
}
