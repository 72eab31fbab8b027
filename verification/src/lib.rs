//! A small drawing-surface library: a CPU-side pixel canvas with verified
//! compositing semantics, the per-frame text-renderer bookkeeping that a
//! GPU presentation path needs, and a window/surface bundle whose invariant
//! ties a renderer to the window it was built for.

mod canvas;
mod color;
mod errors;
mod render;
mod surface;
mod text;
mod window;

pub use canvas::Canvas;
pub use canvas::background_seq;
pub use canvas::bg_cell;
pub use canvas::blit_cell;
pub use canvas::blit_seq;
pub use canvas::fill_seq;
pub use canvas::fill_n;
pub use canvas::in_rect;
pub use canvas::lemma_background_pixel;
pub use canvas::lemma_fill_idempotent;
pub use canvas::lemma_overlap_later_wins;
pub use canvas::lemma_stretch_covers;
pub use canvas::lemma_stretch_in_bounds;
pub use canvas::lemma_stretch_monotone;
pub use canvas::pix;
pub use canvas::stretch_index;
pub use color::Rgba;
pub use color::compose_over;
pub use color::lemma_src_over_opaque;
pub use color::lemma_src_over_transparent;
pub use color::lemma_src_over_valid;
pub use color::over_channel;
pub use color::src_over;
pub use errors::PresentError;
pub use errors::SurfaceInitError;
pub use errors::TextPrepareError;
pub use render::Renderer;
pub use render::TextPlan;
pub use surface::Surface;
pub use surface::new_surface;
pub use surface::new_surface_ex;
pub use text::TextState;
pub use text::initial_text_state;
pub use text::lemma_lazy_font_build;
pub use text::lemma_pool_growth;
pub use text::lemma_pool_reuse_across_frames;
pub use text::lemma_present_resets;
pub use text::lemma_steps_draw_text;
pub use text::next_slot;
pub use text::step_begin_text;
pub use text::step_commit_text;
pub use text::step_draw_text;
pub use text::step_present;
pub use text::step_register;
pub use text::steps_draw_text;
pub use window::Window;
pub use window::WindowConfig;
pub use window::default_config;
pub use window::make_default_config;
pub use window::new_window;
pub use window::new_window_ex;
