//! The frame renderer: a CPU pixel canvas plus the bookkeeping a GPU
//! text-presentation path needs. The drawing operations are verified
//! against the canvas model; the text operations are verified against
//! the pool/font state machine, with the GPU outcomes of each step
//! handed in as plain results.

use vstd::prelude::*;

use crate::canvas::Canvas;
use crate::canvas::background_seq;
use crate::canvas::blit_seq;
use crate::canvas::fill_seq;
use crate::color::Rgba;
use crate::errors::PresentError;
use crate::errors::SurfaceInitError;
use crate::errors::TextPrepareError;
use crate::text::TextState;
use crate::text::initial_text_state;
use crate::text::step_begin_text;
use crate::text::step_commit_text;
use crate::text::step_present;
use crate::text::step_register;
use crate::window::Window;

verus! {

/// What one text draw decided: which pool slot to prepare, whether a new
/// pool object must be created for it, and whether this call built the
/// font system.
#[derive(Clone, Copy, PartialEq, Eq, Structural, Debug)]
pub struct TextPlan {
    /// The index of the pool object this draw uses.
    pub slot: usize,
    /// A new text-renderer object must be allocated for `slot`.
    pub grew_pool: bool,
    /// No font system existed, so this call built one.
    pub built_fonts: bool,
}

/// A frame renderer for one window: the pixel canvas, the identity of
/// the window it presents into, and the text-drawing state.
#[derive(Debug)]
pub struct Renderer {
    /// The CPU-side pixel canvas all drawing lands in.
    pub canvas: Canvas,
    /// The id of the window this renderer was built for.
    pub window_id: u64,
    /// How many text-renderer objects the pool holds.
    pub pool_len: usize,
    /// How many pool objects are used this frame.
    pub num_text: usize,
    /// The registered font source ids, in registration order.
    pub fonts: Vec<u64>,
    /// The sources the current font system was built from, if one was.
    pub font_sys: Option<Vec<u64>>,
}

impl Renderer {
    /// The abstract text-drawing state.
    pub open spec fn text_state(&self) -> TextState {
        TextState {
            pool: self.pool_len as nat,
            used: self.num_text as nat,
            fonts: self.fonts@,
            built: match self.font_sys {
                Some(v) => Some(v@),
                None => None,
            },
        }
    }

    /// Well-formedness: the canvas is well-formed and the used-count
    /// never exceeds the pool size.
    pub open spec fn wf(&self) -> bool {
        &&& self.canvas.wf()
        &&& self.text_state().wf()
    }

    /// Build a renderer for a window: a transparent canvas sized to the
    /// window's dimensions, an empty pool, no fonts, no font system.
    /// Succeeds exactly when the window's dimensions admit a canvas.
    pub fn new(window: &Window) -> (r: Result<Renderer, SurfaceInitError>)
        ensures
            match r {
                Ok(rend) => {
                    &&& window.config.width > 0
                    &&& window.config.height > 0
                    &&& window.config.width * window.config.height <= usize::MAX
                    &&& rend.wf()
                    &&& rend.window_id == window.id
                    &&& rend.canvas.spec_width() == window.config.width
                    &&& rend.canvas.spec_height() == window.config.height
                    &&& forall|i: int|
                        0 <= i < rend.canvas@.len() ==> rend.canvas@[i] == (Rgba {
                            r: 0u8,
                            g: 0u8,
                            b: 0u8,
                            a: 0u8,
                        })
                    &&& rend.text_state() == initial_text_state()
                },
                Err(e) => {
                    &&& !(window.config.width > 0 && window.config.height > 0
                        && window.config.width * window.config.height <= usize::MAX)
                    &&& e == (if window.config.width == 0 || window.config.height == 0 {
                        SurfaceInitError::ZeroSizedCanvas
                    } else {
                        SurfaceInitError::CanvasTooLarge
                    })
                },
            },
    {
        let canvas = match Canvas::new(window.config.width, window.config.height) {
            Ok(c) => c,
            Err(e) => {
                return Err(e);
            },
        };
        Ok(
            Renderer {
                canvas,
                window_id: window.id,
                pool_len: 0,
                num_text: 0,
                fonts: Vec::new(),
                font_sys: None,
            },
        )
    }

    /// Overwrite every canvas pixel with one colour. Touches nothing of
    /// the text state.
    pub fn fill(&mut self, c: Rgba)
        requires
            old(self).wf(),
            c.valid(),
        ensures
            final(self).wf(),
            final(self).window_id == old(self).window_id,
            final(self).text_state() == old(self).text_state(),
            final(self).canvas.spec_width() == old(self).canvas.spec_width(),
            final(self).canvas.spec_height() == old(self).canvas.spec_height(),
            final(self).canvas@ == fill_seq(old(self).canvas@, c),
    {
        self.canvas.fill(c);
    }

    /// Composite a source canvas over the pixel canvas at an integer
    /// offset, clipping whatever falls outside.
    pub fn blit(&mut self, x: i32, y: i32, src: &Canvas)
        requires
            old(self).wf(),
            src.wf(),
        ensures
            final(self).wf(),
            final(self).window_id == old(self).window_id,
            final(self).text_state() == old(self).text_state(),
            final(self).canvas.spec_width() == old(self).canvas.spec_width(),
            final(self).canvas.spec_height() == old(self).canvas.spec_height(),
            final(self).canvas@ == blit_seq(
                old(self).canvas@,
                old(self).canvas.spec_width() as int,
                src@,
                src.spec_width() as int,
                src.spec_height() as int,
                x as int,
                y as int,
            ),
    {
        self.canvas.blit(x, y, src);
    }

    /// Stretch a source image over the whole canvas — scale factors of
    /// canvas width over source width and canvas height over source
    /// height — and composite it at the origin.
    pub fn background(&mut self, src: &Canvas)
        requires
            old(self).wf(),
            src.wf(),
            src.spec_width() >= 1,
            src.spec_height() >= 1,
        ensures
            final(self).wf(),
            final(self).window_id == old(self).window_id,
            final(self).text_state() == old(self).text_state(),
            final(self).canvas.spec_width() == old(self).canvas.spec_width(),
            final(self).canvas.spec_height() == old(self).canvas.spec_height(),
            final(self).canvas@ == background_seq(
                old(self).canvas@,
                old(self).canvas.spec_width() as int,
                old(self).canvas.spec_height() as int,
                src@,
                src.spec_width() as int,
                src.spec_height() as int,
            ),
    {
        self.canvas.background(src);
    }

    /// A copy of a list of font source ids.
    fn copy_ids(v: &Vec<u64>) -> (r: Vec<u64>)
        ensures
            r@ == v@,
    {
        let mut r: Vec<u64> = Vec::new();
        let mut i: usize = 0;
        while i < v.len()
            invariant
                i <= v.len(),
                r@ == v@.subrange(0, i as int),
            decreases v.len() - i,
        {
            r.push(v[i]);
            proof {
                assert(r@ =~= v@.subrange(0, i + 1));
            }
            i = i + 1;
        }
        proof {
            assert(r@ =~= v@);
        }
        r
    }

    /// Register font sources. The new sources are appended to the
    /// registry; the font system is rebuilt from the full accumulated
    /// set exactly when `update` is set, and deferred otherwise.
    pub fn load_fonts(&mut self, sources: &Vec<u64>, update: bool)
        requires
            old(self).wf(),
        ensures
            final(self).wf(),
            final(self).window_id == old(self).window_id,
            final(self).canvas == old(self).canvas,
            final(self).text_state() == step_register(old(self).text_state(), sources@, update),
    {
        let mut i: usize = 0;
        while i < sources.len()
            invariant
                i <= sources.len(),
                self.fonts@ == old(self).text_state().fonts + sources@.subrange(0, i as int),
                self.canvas == old(self).canvas,
                self.window_id == old(self).window_id,
                self.pool_len == old(self).text_state().pool,
                self.num_text == old(self).text_state().used,
                self.font_sys == old(self).font_sys,
                self.text_state().built == old(self).text_state().built,
            decreases sources.len() - i,
        {
            self.fonts.push(sources[i]);
            proof {
                assert(self.fonts@ =~= old(self).text_state().fonts + sources@.subrange(
                    0,
                    i + 1,
                ));
            }
            i = i + 1;
        }
        proof {
            assert(self.fonts@ =~= old(self).text_state().fonts + sources@);
        }
        if update {
            let rebuilt = Self::copy_ids(&self.fonts);
            self.font_sys = Some(rebuilt);
        }
    }

    /// Begin one text draw: build the font system from the registered
    /// sources if none has ever been built, and pick the pool slot the
    /// draw will use, growing the pool by exactly one object if every
    /// object is already in use this frame. The glyph preparation for
    /// the returned slot happens outside; `commit_text` records its
    /// outcome.
    pub fn text_ex(&mut self) -> (plan: TextPlan)
        requires
            old(self).wf(),
            old(self).text_state().used < usize::MAX,
        ensures
            final(self).wf(),
            final(self).window_id == old(self).window_id,
            final(self).canvas == old(self).canvas,
            final(self).text_state() == step_begin_text(old(self).text_state()),
            plan.slot == old(self).text_state().used,
            plan.grew_pool == (old(self).text_state().pool <= old(self).text_state().used),
            plan.built_fonts == (old(self).text_state().built is None),
            final(self).text_state().used < final(self).text_state().pool,
    {
        let built_fonts = self.font_sys.is_none();
        if built_fonts {
            let built = Self::copy_ids(&self.fonts);
            self.font_sys = Some(built);
        }
        let grew_pool = self.pool_len <= self.num_text;
        if grew_pool {
            self.pool_len = self.pool_len + 1;
        }
        TextPlan { slot: self.num_text, grew_pool, built_fonts }
    }

    /// Record the outcome of preparing one text draw's glyphs. On
    /// success one more pool object is in use this frame; on failure the
    /// state is exactly as before and the error is handed back — the
    /// failed text simply does not appear.
    pub fn commit_text(&mut self, prepared: Result<(), TextPrepareError>) -> (r: Result<
        (),
        TextPrepareError,
    >)
        requires
            old(self).wf(),
            old(self).text_state().used < old(self).text_state().pool,
        ensures
            final(self).wf(),
            final(self).window_id == old(self).window_id,
            final(self).canvas == old(self).canvas,
            prepared is Ok ==> final(self).text_state() == step_commit_text(
                old(self).text_state(),
            ) && r is Ok,
            prepared is Err ==> *final(self) == *old(self) && r == prepared,
    {
        match prepared {
            Ok(()) => {
                self.num_text = self.num_text + 1;
                Ok(())
            },
            Err(e) => Err(e),
        }
    }

    /// Record the outcome of presenting the frame. On success the
    /// used-count resets to zero — the pool and the font registry are
    /// kept for the next frame; on failure the state is exactly as
    /// before, so the frame can be retried or the surface rebuilt as the
    /// error demands.
    pub fn update(&mut self, rendered: Result<(), PresentError>) -> (r: Result<(), PresentError>)
        requires
            old(self).wf(),
        ensures
            final(self).wf(),
            final(self).window_id == old(self).window_id,
            final(self).canvas == old(self).canvas,
            rendered is Ok ==> final(self).text_state() == step_present(old(self).text_state())
                && r is Ok,
            rendered is Err ==> *final(self) == *old(self) && r == rendered,
    {
        match rendered {
            Ok(()) => {
                self.num_text = 0;
                Ok(())
            },
            Err(e) => Err(e),
        }
    }

    /// How many pool objects are in use this frame.
    pub fn used_text_count(&self) -> (n: usize)
        ensures
            n == self.text_state().used,
    {
        self.num_text
    }

    /// How many text-renderer objects the pool holds.
    pub fn pool_size(&self) -> (n: usize)
        ensures
            n == self.text_state().pool,
    {
        self.pool_len
    }

    /// How many font sources are registered.
    pub fn fonts_registered(&self) -> (n: usize)
        ensures
            n == self.text_state().fonts.len(),
    {
        self.fonts.len()
    }

    /// Whether a font system has been built.
    pub fn font_system_built(&self) -> (b: bool)
        ensures
            b == (self.text_state().built is Some),
    {
        self.font_sys.is_some()
    }

    /// The id of the window this renderer was built for.
    pub fn window_id(&self) -> (id: u64)
        ensures
            id == self.window_id,
    {
        self.window_id
    }
}

} // verus!
