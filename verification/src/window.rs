//! The window model: a native window is identified by an id the platform
//! assigns and described by a configuration the factory resolves. The
//! factory applies the library's defaults first and a caller's
//! customization second, so a caller can override any default.

use vstd::prelude::*;

verus! {

/// The window configuration the factory resolves before the platform
/// creates the native window.
#[derive(Clone, Copy, PartialEq, Eq, Structural, Debug)]
pub struct WindowConfig {
    /// Logical width in pixels.
    pub width: u32,
    /// Logical height in pixels.
    pub height: u32,
    /// Borderless fullscreen requested.
    pub fullscreen: bool,
    pub resizable: bool,
    pub visible: bool,
}

/// The library's default configuration for a window of the given logical
/// size: borderless fullscreen, resizable and visible.
pub open spec fn default_config(width: u32, height: u32) -> WindowConfig {
    WindowConfig { width, height, fullscreen: true, resizable: true, visible: true }
}

/// A window: the platform-assigned id, the title, and the resolved
/// configuration it was created with.
#[derive(Debug)]
pub struct Window {
    pub id: u64,
    pub title: String,
    pub config: WindowConfig,
}

/// The default configuration, executably.
pub fn make_default_config(width: u32, height: u32) -> (c: WindowConfig)
    ensures
        c == default_config(width, height),
{
    WindowConfig { width, height, fullscreen: true, resizable: true, visible: true }
}

/// Create a window with the library's default attributes: titled and
/// sized as asked, borderless fullscreen.
pub fn new_window(id: u64, title: String, width: u32, height: u32) -> (w: Window)
    ensures
        w.id == id,
        w.title@ == title@,
        w.config == default_config(width, height),
{
    Window { id, title, config: make_default_config(width, height) }
}

/// Create a window with caller-customized attributes. The customization
/// runs on the already-resolved defaults, so whatever the caller sets
/// overrides the library's choice.
pub fn new_window_ex<F: FnOnce(WindowConfig) -> WindowConfig>(
    id: u64,
    title: String,
    width: u32,
    height: u32,
    win_func: F,
) -> (w: Window)
    requires
        call_requires(win_func, (default_config(width, height),)),
    ensures
        w.id == id,
        w.title@ == title@,
        call_ensures(win_func, (default_config(width, height),), w.config),
{
    let cfg = make_default_config(width, height);
    let cfg = win_func(cfg);
    Window { id, title, config: cfg }
}

} // verus!
