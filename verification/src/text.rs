//! The per-frame text bookkeeping, as a mathematical state machine: a pool
//! of reusable text-renderer objects that grows on demand and never
//! shrinks, a used-count that resets on presentation, and a font registry
//! whose shaping engine is rebuilt lazily.

use vstd::prelude::*;

verus! {

/// The abstract text-drawing state of a renderer: how many pool objects
/// exist, how many are used this frame, which font sources are
/// registered, and — if a font system has been built — the sources it
/// was built from.
pub struct TextState {
    pub pool: nat,
    pub used: nat,
    pub fonts: Seq<u64>,
    pub built: Option<Seq<u64>>,
}

impl TextState {
    /// The used-count never exceeds the pool size.
    pub open spec fn wf(self) -> bool {
        self.used <= self.pool
    }
}

/// The state of a freshly constructed renderer: empty pool, nothing
/// used, no fonts registered, no font system built.
pub open spec fn initial_text_state() -> TextState {
    TextState { pool: 0, used: 0, fonts: Seq::empty(), built: None }
}

/// Registering fonts appends the new sources; the font system is rebuilt
/// from the full accumulated set exactly when `rebuild` is set, and left
/// alone otherwise.
pub open spec fn step_register(s: TextState, new_sources: Seq<u64>, rebuild: bool) -> TextState {
    TextState {
        fonts: s.fonts + new_sources,
        built: if rebuild {
            Some(s.fonts + new_sources)
        } else {
            s.built
        },
        ..s
    }
}

/// Beginning a text draw: if no font system has ever been built, one is
/// built from the registered sources; if every pool object is already
/// used this frame, the pool grows by exactly one object.
pub open spec fn step_begin_text(s: TextState) -> TextState {
    TextState {
        pool: if s.pool <= s.used {
            s.pool + 1
        } else {
            s.pool
        },
        built: if s.built is None {
            Some(s.fonts)
        } else {
            s.built
        },
        ..s
    }
}

/// Committing a text draw after its glyphs were prepared successfully:
/// one more pool object is in use this frame.
pub open spec fn step_commit_text(s: TextState) -> TextState {
    TextState { used: s.used + 1, ..s }
}

/// One whole successful text draw.
pub open spec fn step_draw_text(s: TextState) -> TextState {
    step_commit_text(step_begin_text(s))
}

/// A successful presentation: the used-count resets to zero; the pool
/// and the font registry are retained for the next frame.
pub open spec fn step_present(s: TextState) -> TextState {
    TextState { used: 0, ..s }
}

/// `n` consecutive successful text draws.
pub open spec fn steps_draw_text(s: TextState, n: nat) -> TextState
    decreases n,
{
    if n == 0 {
        s
    } else {
        step_draw_text(steps_draw_text(s, (n - 1) as nat))
    }
}

/// The pool slot the next text draw will use: pool objects are taken in
/// order, so it is the current used-count.
pub open spec fn next_slot(s: TextState) -> nat {
    s.used
}

/// How a run of text draws evolves the state: `n` draws use `n` more
/// pool objects, and the pool grows only as far as the used-count
/// forces it — to the larger of its old size and the final used-count.
/// Fonts are only ever built once, on the first draw, from the sources
/// registered at that point.
pub proof fn lemma_steps_draw_text(s: TextState, n: nat)
    requires
        s.wf(),
    ensures
        steps_draw_text(s, n).wf(),
        steps_draw_text(s, n).used == s.used + n,
        steps_draw_text(s, n).pool == (if s.pool >= s.used + n {
            s.pool
        } else {
            s.used + n
        }),
        steps_draw_text(s, n).fonts == s.fonts,
        steps_draw_text(s, n).built == (if n >= 1 && s.built is None {
            Some(s.fonts)
        } else {
            s.built
        }),
    decreases n,
{
    if n > 0 {
        lemma_steps_draw_text(s, (n - 1) as nat);
    }
}

/// Pool growth over one frame: starting a frame with nothing used,
/// issuing `n` text draws leaves exactly `n` pool objects used, and a
/// pool of exactly the larger of its old size and `n` — so at least `n`
/// objects exist, and no more are allocated than the draws forced.
pub proof fn lemma_pool_growth(s: TextState, n: nat)
    requires
        s.wf(),
        s.used == 0,
    ensures
        steps_draw_text(s, n).used == n,
        steps_draw_text(s, n).pool >= n,
        steps_draw_text(s, n).pool == (if s.pool >= n {
            s.pool
        } else {
            n
        }),
{
    lemma_steps_draw_text(s, n);
}

/// Pool reuse across frames: after a frame of `n` draws and a successful
/// presentation, a following frame of `m <= n` draws allocates no new
/// pool object at all — the pool never grows beyond what the busiest
/// frame forced.
pub proof fn lemma_pool_reuse_across_frames(s: TextState, n: nat, m: nat)
    requires
        s.wf(),
        s.used == 0,
        m <= n,
    ensures
        steps_draw_text(step_present(steps_draw_text(s, n)), m).pool
            == steps_draw_text(s, n).pool,
{
    lemma_steps_draw_text(s, n);
    lemma_steps_draw_text(step_present(steps_draw_text(s, n)), m);
}

/// Used-count reset: a successful presentation resets the used-count to
/// zero, so the next text draw takes pool slot zero again instead of
/// growing the pool — whatever the used-count was before.
pub proof fn lemma_present_resets(s: TextState)
    requires
        s.wf(),
        s.used > 0,
    ensures
        step_present(s).used == 0,
        next_slot(step_present(s)) == 0,
        step_draw_text(step_present(s)).pool == s.pool,
{
}

/// Font rebuild laziness: registering sources without the rebuild flag
/// builds nothing; the first text draw after it builds the font system
/// from the full accumulated set, exactly once — further draws with no
/// further registration reuse that font system unchanged.
pub proof fn lemma_lazy_font_build(s: TextState, new_sources: Seq<u64>)
    requires
        s.wf(),
        s.built is None,
    ensures
        step_register(s, new_sources, false).built is None,
        step_draw_text(step_register(s, new_sources, false)).built == Some(s.fonts + new_sources),
        step_draw_text(step_draw_text(step_register(s, new_sources, false))).built
            == Some(s.fonts + new_sources),
{
}

} // verus!
