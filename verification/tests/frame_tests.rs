//! The per-frame text bookkeeping: pool growth, slot reuse after
//! presentation, lazy font rebuilds, and the error paths of text
//! preparation and presentation.

use corsola::PresentError;
use corsola::Renderer;
use corsola::TextPrepareError;
use corsola::new_window;

fn renderer() -> Renderer {
    let window = new_window(1, String::from("frame"), 8, 8);
    Renderer::new(&window).unwrap()
}

fn draw_one(r: &mut Renderer) {
    r.text_ex();
    r.commit_text(Ok(())).unwrap();
}

#[test]
fn pool_grows_to_the_number_of_draws() {
    let mut r = renderer();
    assert_eq!(r.pool_size(), 0);
    for n in 1..=3 {
        draw_one(&mut r);
        assert_eq!(r.used_text_count(), n);
        assert_eq!(r.pool_size(), n);
    }
}

#[test]
fn pool_never_grows_beyond_the_busiest_frame() {
    let mut r = renderer();
    // frame one: three draws
    for _ in 0..3 {
        draw_one(&mut r);
    }
    assert_eq!(r.pool_size(), 3);
    r.update(Ok(())).unwrap();
    // frame two: two draws reuse existing pool objects
    for _ in 0..2 {
        let plan = r.text_ex();
        assert!(!plan.grew_pool);
        r.commit_text(Ok(())).unwrap();
    }
    assert_eq!(r.pool_size(), 3);
    assert_eq!(r.used_text_count(), 2);
}

#[test]
fn present_resets_used_count_and_reuses_slot_zero() {
    let mut r = renderer();
    for _ in 0..2 {
        draw_one(&mut r);
    }
    assert_eq!(r.used_text_count(), 2);
    r.update(Ok(())).unwrap();
    assert_eq!(r.used_text_count(), 0);
    assert_eq!(r.pool_size(), 2);
    let plan = r.text_ex();
    assert_eq!(plan.slot, 0);
    assert!(!plan.grew_pool);
}

#[test]
fn fonts_are_built_lazily_and_exactly_once() {
    let mut r = renderer();
    r.load_fonts(&vec![10, 11], false);
    assert!(!r.font_system_built());
    assert_eq!(r.fonts_registered(), 2);
    let plan = r.text_ex();
    assert!(plan.built_fonts);
    assert!(r.font_system_built());
    r.commit_text(Ok(())).unwrap();
    let plan = r.text_ex();
    assert!(!plan.built_fonts);
    r.commit_text(Ok(())).unwrap();
}

#[test]
fn register_with_update_builds_immediately() {
    let mut r = renderer();
    r.load_fonts(&vec![42], true);
    assert!(r.font_system_built());
    let plan = r.text_ex();
    assert!(!plan.built_fonts);
    r.commit_text(Ok(())).unwrap();
}

#[test]
fn failed_text_preparation_leaves_the_state() {
    let mut r = renderer();
    let plan = r.text_ex();
    assert_eq!(plan.slot, 0);
    let err = r
        .commit_text(Err(TextPrepareError::GlyphRasterization))
        .unwrap_err();
    assert_eq!(err, TextPrepareError::GlyphRasterization);
    assert_eq!(r.used_text_count(), 0);
    // the pool object allocated for the attempt is kept
    assert_eq!(r.pool_size(), 1);
    let err = r
        .commit_text(Err(TextPrepareError::GpuBufferPreparation))
        .unwrap_err();
    assert_eq!(err, TextPrepareError::GpuBufferPreparation);
    assert_eq!(r.used_text_count(), 0);
}

#[test]
fn failed_present_keeps_the_frame_state() {
    let mut r = renderer();
    draw_one(&mut r);
    let err = r.update(Err(PresentError::Transient)).unwrap_err();
    assert_eq!(err, PresentError::Transient);
    assert_eq!(r.used_text_count(), 1);
    let err = r.update(Err(PresentError::DeviceLost)).unwrap_err();
    assert_eq!(err, PresentError::DeviceLost);
    assert_eq!(r.used_text_count(), 1);
    // a later successful present still resets
    r.update(Ok(())).unwrap();
    assert_eq!(r.used_text_count(), 0);
}

#[test]
fn drawing_leaves_the_canvas_alone() {
    let mut r = renderer();
    let white = corsola::Rgba { r: 255, g: 255, b: 255, a: 255 };
    r.fill(white);
    draw_one(&mut r);
    r.update(Ok(())).unwrap();
    assert_eq!(r.canvas.pixel(3, 3), white);
}
