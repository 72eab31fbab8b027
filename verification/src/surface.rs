//! The surface: a window bundled with the one renderer built for it.
//! The two are constructed together, destroyed together, and the
//! renderer is reachable only through the bundle, so no renderer can
//! outlive its window and no surface can pair a renderer with a window
//! other than the one it was built for. The fields are private and the
//! only constructors build the renderer from the just-created window,
//! so `wf` holds of every surface a caller can obtain.

use vstd::prelude::*;

use crate::canvas::Canvas;
use crate::canvas::background_seq;
use crate::canvas::blit_seq;
use crate::canvas::fill_seq;
use crate::color::Rgba;
use crate::errors::PresentError;
use crate::errors::SurfaceInitError;
use crate::errors::TextPrepareError;
use crate::render::Renderer;
use crate::render::TextPlan;
use crate::text::initial_text_state;
use crate::text::step_begin_text;
use crate::text::step_commit_text;
use crate::text::step_present;
use crate::text::step_register;
use crate::window::WindowConfig;
use crate::window::Window;
use crate::window::default_config;
use crate::window::new_window;
use crate::window::new_window_ex;

verus! {

/// A window and the renderer that presents into it, as one inseparable
/// unit with a single construction and destruction point.
#[derive(Debug)]
pub struct Surface {
    window: Window,
    renderer: Renderer,
}

impl Surface {
    /// The bundled window.
    pub closed spec fn spec_window(&self) -> Window {
        self.window
    }

    /// The bundled renderer.
    pub closed spec fn spec_renderer(&self) -> Renderer {
        self.renderer
    }

    /// The bundle invariant: the renderer is well-formed, was built for
    /// exactly the bundled window, and its canvas has the window's
    /// dimensions. Every constructor establishes this and every
    /// operation preserves it.
    pub open spec fn wf(&self) -> bool {
        &&& self.spec_renderer().wf()
        &&& self.spec_renderer().window_id == self.spec_window().id
        &&& self.spec_renderer().canvas.spec_width() == self.spec_window().config.width
        &&& self.spec_renderer().canvas.spec_height() == self.spec_window().config.height
    }

    /// Read-only access to the owned window.
    pub fn window(&self) -> (w: &Window)
        ensures
            *w == self.spec_window(),
    {
        &self.window
    }

    /// Read-only access to the renderer's canvas.
    pub fn canvas(&self) -> (c: &Canvas)
        ensures
            *c == self.spec_renderer().canvas,
    {
        &self.renderer.canvas
    }

    /// How many text-renderer pool objects are in use this frame.
    pub fn used_text_count(&self) -> (n: usize)
        ensures
            n == self.spec_renderer().text_state().used,
    {
        self.renderer.used_text_count()
    }

    /// How many text-renderer objects the pool holds.
    pub fn pool_size(&self) -> (n: usize)
        ensures
            n == self.spec_renderer().text_state().pool,
    {
        self.renderer.pool_size()
    }

    /// Whether a font system has been built.
    pub fn font_system_built(&self) -> (b: bool)
        ensures
            b == (self.spec_renderer().text_state().built is Some),
    {
        self.renderer.font_system_built()
    }

    /// Overwrite every canvas pixel with one colour.
    pub fn fill(&mut self, c: Rgba)
        requires
            old(self).wf(),
            c.valid(),
        ensures
            final(self).wf(),
            final(self).spec_window() == old(self).spec_window(),
            final(self).spec_renderer().text_state() == old(self).spec_renderer().text_state(),
            final(self).spec_renderer().canvas@ == fill_seq(
                old(self).spec_renderer().canvas@,
                c,
            ),
    {
        self.renderer.fill(c);
    }

    /// Composite a source canvas over the canvas at an integer offset,
    /// clipping whatever falls outside.
    pub fn blit(&mut self, x: i32, y: i32, src: &Canvas)
        requires
            old(self).wf(),
            src.wf(),
        ensures
            final(self).wf(),
            final(self).spec_window() == old(self).spec_window(),
            final(self).spec_renderer().text_state() == old(self).spec_renderer().text_state(),
            final(self).spec_renderer().canvas@ == blit_seq(
                old(self).spec_renderer().canvas@,
                old(self).spec_renderer().canvas.spec_width() as int,
                src@,
                src.spec_width() as int,
                src.spec_height() as int,
                x as int,
                y as int,
            ),
    {
        self.renderer.blit(x, y, src);
    }

    /// Stretch a source image over the whole canvas and composite it at
    /// the origin.
    pub fn background(&mut self, src: &Canvas)
        requires
            old(self).wf(),
            src.wf(),
            src.spec_width() >= 1,
            src.spec_height() >= 1,
        ensures
            final(self).wf(),
            final(self).spec_window() == old(self).spec_window(),
            final(self).spec_renderer().text_state() == old(self).spec_renderer().text_state(),
            final(self).spec_renderer().canvas@ == background_seq(
                old(self).spec_renderer().canvas@,
                old(self).spec_renderer().canvas.spec_width() as int,
                old(self).spec_renderer().canvas.spec_height() as int,
                src@,
                src.spec_width() as int,
                src.spec_height() as int,
            ),
    {
        self.renderer.background(src);
    }

    /// Register font sources; rebuild the font system now exactly when
    /// `update` is set.
    pub fn load_fonts(&mut self, sources: &Vec<u64>, update: bool)
        requires
            old(self).wf(),
        ensures
            final(self).wf(),
            final(self).spec_window() == old(self).spec_window(),
            final(self).spec_renderer().canvas == old(self).spec_renderer().canvas,
            final(self).spec_renderer().text_state() == step_register(
                old(self).spec_renderer().text_state(),
                sources@,
                update,
            ),
    {
        self.renderer.load_fonts(sources, update);
    }

    /// Begin one text draw: decide the pool slot, grow the pool if it is
    /// exhausted, and build the font system if none exists yet.
    pub fn text_ex(&mut self) -> (plan: TextPlan)
        requires
            old(self).wf(),
            old(self).spec_renderer().text_state().used < usize::MAX,
        ensures
            final(self).wf(),
            final(self).spec_window() == old(self).spec_window(),
            final(self).spec_renderer().canvas == old(self).spec_renderer().canvas,
            final(self).spec_renderer().text_state() == step_begin_text(
                old(self).spec_renderer().text_state(),
            ),
            plan.slot == old(self).spec_renderer().text_state().used,
            plan.grew_pool == (old(self).spec_renderer().text_state().pool
                <= old(self).spec_renderer().text_state().used),
            plan.built_fonts == (old(self).spec_renderer().text_state().built is None),
            final(self).spec_renderer().text_state().used
                < final(self).spec_renderer().text_state().pool,
    {
        self.renderer.text_ex()
    }

    /// Record the outcome of preparing one text draw's glyphs.
    pub fn commit_text(&mut self, prepared: Result<(), TextPrepareError>) -> (r: Result<
        (),
        TextPrepareError,
    >)
        requires
            old(self).wf(),
            old(self).spec_renderer().text_state().used
                < old(self).spec_renderer().text_state().pool,
        ensures
            final(self).wf(),
            final(self).spec_window() == old(self).spec_window(),
            final(self).spec_renderer().canvas == old(self).spec_renderer().canvas,
            prepared is Ok ==> final(self).spec_renderer().text_state() == step_commit_text(
                old(self).spec_renderer().text_state(),
            ) && r is Ok,
            prepared is Err ==> *final(self) == *old(self) && r == prepared,
    {
        self.renderer.commit_text(prepared)
    }

    /// Record the outcome of presenting the frame: on success the
    /// used-count resets to zero and the pool is kept for reuse.
    pub fn update(&mut self, rendered: Result<(), PresentError>) -> (r: Result<(), PresentError>)
        requires
            old(self).wf(),
        ensures
            final(self).wf(),
            final(self).spec_window() == old(self).spec_window(),
            final(self).spec_renderer().canvas == old(self).spec_renderer().canvas,
            rendered is Ok ==> final(self).spec_renderer().text_state() == step_present(
                old(self).spec_renderer().text_state(),
            ) && r is Ok,
            rendered is Err ==> *final(self) == *old(self) && r == rendered,
    {
        self.renderer.update(rendered)
    }
}

/// Create a window with the library's defaults and the renderer for it,
/// bundled as one surface. The renderer is built from the just-created
/// window, so it can reference no other.
pub fn new_surface(id: u64, title: String, width: u32, height: u32) -> (r: Result<
    Surface,
    SurfaceInitError,
>)
    ensures
        match r {
            Ok(s) => {
                &&& width > 0
                &&& height > 0
                &&& width * height <= usize::MAX
                &&& s.wf()
                &&& s.spec_window().id == id
                &&& s.spec_window().title@ == title@
                &&& s.spec_window().config == default_config(width, height)
                &&& s.spec_renderer().text_state() == initial_text_state()
                &&& forall|i: int|
                    0 <= i < s.spec_renderer().canvas@.len() ==> s.spec_renderer().canvas@[i]
                        == (Rgba { r: 0u8, g: 0u8, b: 0u8, a: 0u8 })
            },
            Err(e) => {
                &&& !(width > 0 && height > 0 && width * height <= usize::MAX)
                &&& e == (if width == 0 || height == 0 {
                    SurfaceInitError::ZeroSizedCanvas
                } else {
                    SurfaceInitError::CanvasTooLarge
                })
            },
        },
{
    let window = new_window(id, title, width, height);
    let renderer = match Renderer::new(&window) {
        Ok(rend) => rend,
        Err(e) => {
            return Err(e);
        },
    };
    Ok(Surface { window, renderer })
}

/// Create a surface whose window attributes are customized by the
/// caller. The customization runs on the already-resolved defaults, so
/// the caller can override any default; the renderer is sized to the
/// configuration the customization produced.
pub fn new_surface_ex<F: FnOnce(WindowConfig) -> WindowConfig>(
    id: u64,
    title: String,
    width: u32,
    height: u32,
    win_func: F,
) -> (r: Result<Surface, SurfaceInitError>)
    requires
        call_requires(win_func, (default_config(width, height),)),
    ensures
        match r {
            Ok(s) => {
                &&& s.wf()
                &&& s.spec_window().id == id
                &&& s.spec_window().title@ == title@
                &&& call_ensures(win_func, (default_config(width, height),), s.spec_window().config)
                &&& s.spec_window().config.width > 0
                &&& s.spec_window().config.height > 0
                &&& s.spec_window().config.width * s.spec_window().config.height <= usize::MAX
                &&& s.spec_renderer().text_state() == initial_text_state()
            },
            Err(e) => exists|cfg: WindowConfig|
                {
                    &&& call_ensures(win_func, (default_config(width, height),), cfg)
                    &&& !(cfg.width > 0 && cfg.height > 0 && cfg.width * cfg.height <= usize::MAX)
                    &&& e == (if cfg.width == 0 || cfg.height == 0 {
                        SurfaceInitError::ZeroSizedCanvas
                    } else {
                        SurfaceInitError::CanvasTooLarge
                    })
                },
        },
{
    let window = new_window_ex(id, title, width, height, win_func);
    let renderer = match Renderer::new(&window) {
        Ok(rend) => rend,
        Err(e) => {
            return Err(e);
        },
    };
    Ok(Surface { window, renderer })
}

} // verus!
