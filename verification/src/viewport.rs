//! Viewport-rectangle scaling for the picture-in-picture HUD.
//!
//! The HUD's sub-rectangles — the dungeon 3D view and the minimap — are
//! authored against a fixed reference canvas. At runtime the HUD backdrop is
//! displayed scaled-to-fit, so the actual scale is derived from how wide the
//! fitted image really rendered, not from the window size alone. Every
//! authored margin and size is scaled by that ratio, and the letterboxing
//! offset of the fitted image inside the window is added to each rectangle's
//! horizontal origin. A recompute always replaces the previous result
//! atomically; nothing is patched incrementally, so repeated resizes cannot
//! drift.

use vstd::prelude::*;
use vstd::arithmetic::div_mod::lemma_div_is_ordered;
use vstd::arithmetic::div_mod::lemma_div_multiples_vanish;
use vstd::arithmetic::mul::lemma_mul_inequality;

verus! {

/// The authored reference layout of the HUD: the native canvas size and the
/// margins and sizes of the two render regions, all in the canvas's own
/// pixel space. Loaded once from configuration, never mutated.
#[derive(Clone, Copy, Debug, PartialEq, Eq)]
pub struct UIConfig {
    /// The native pixel size of the HUD canvas.
    pub size: (u32, u32),
    /// The offset of the dungeon view inside the canvas.
    pub dungeon_view_margin: (u32, u32),
    /// The authored size of the dungeon view.
    pub dungeon_view_size: (u32, u32),
    /// The offset of the minimap, measured from the dungeon view's right
    /// edge horizontally and from the canvas top vertically.
    pub minimap_margin: (u32, u32),
    /// The authored size of the minimap.
    pub minimap_size: (u32, u32),
}

/// One render region in device pixels.
#[derive(Clone, Copy, Debug, PartialEq, Eq, Structural)]
pub struct ViewportRect {
    pub x: u64,
    pub y: u64,
    pub width: u64,
    pub height: u64,
}

/// The two computed render regions of the HUD.
#[derive(Clone, Copy, Debug, PartialEq, Eq, Structural)]
pub struct RenderRegions {
    pub dungeon: ViewportRect,
    pub minimap: ViewportRect,
}

/// An authored value scaled by the fitted-over-native width ratio, rounded
/// down to whole device pixels.
pub open spec fn spec_scaled(v: int, render_w: int, native_w: int) -> int
    recommends
        native_w >= 1,
{
    v * render_w / native_w
}

/// The regions the scaler computes: every authored margin and size is scaled
/// by `render_w / native_w`, the letterbox padding `window_w - render_w`
/// shifts each horizontal origin, and the minimap's horizontal origin is
/// measured past the dungeon view.
pub open spec fn spec_regions(cfg: UIConfig, window_w: int, render_w: int) -> RenderRegions {
    let nw = cfg.size.0 as int;
    let padding = window_w - render_w;
    let minimap_left = cfg.dungeon_view_margin.0 + cfg.dungeon_view_size.0
        + cfg.minimap_margin.0;
    RenderRegions {
        dungeon: ViewportRect {
            x: (spec_scaled(cfg.dungeon_view_margin.0 as int, render_w, nw) + padding) as u64,
            y: spec_scaled(cfg.dungeon_view_margin.1 as int, render_w, nw) as u64,
            width: spec_scaled(cfg.dungeon_view_size.0 as int, render_w, nw) as u64,
            height: spec_scaled(cfg.dungeon_view_size.1 as int, render_w, nw) as u64,
        },
        minimap: ViewportRect {
            x: (spec_scaled(minimap_left as int, render_w, nw) + padding) as u64,
            y: spec_scaled(cfg.minimap_margin.1 as int, render_w, nw) as u64,
            width: spec_scaled(cfg.minimap_size.0 as int, render_w, nw) as u64,
            height: spec_scaled(cfg.minimap_size.1 as int, render_w, nw) as u64,
        },
    }
}

/// A scaled value never exceeds the fitted width while the authored value
/// stays within the native width, and it is never negative.
proof fn lemma_scaled_bounds(v: int, render_w: int, native_w: int)
    requires
        0 <= v <= native_w,
        0 <= render_w,
        1 <= native_w,
    ensures
        0 <= spec_scaled(v, render_w, native_w) <= render_w,
{
    lemma_mul_inequality(v, native_w, render_w);
    lemma_div_is_ordered(0, v * render_w, native_w);
    lemma_div_is_ordered(v * render_w, native_w * render_w, native_w);
    lemma_div_multiples_vanish(render_w, native_w);
}

/// Scales one authored value by the fitted-over-native width ratio.
fn scaled(v: u64, render_w: u64, native_w: u64) -> (r: u64)
    requires
        v <= u32::MAX,
        render_w <= u32::MAX,
        native_w >= 1,
    ensures
        r == spec_scaled(v as int, render_w as int, native_w as int),
{
    proof {
        assert(v as int * render_w as int <= 0xffff_ffff * 0xffff_ffff) by (nonlinear_arith)
            requires
                0 <= v as int <= 0xffff_ffff && 0 <= render_w as int <= 0xffff_ffff,
        ;
    }
    v * render_w / native_w
}

/// True when the authored regions fit their canvas horizontally: margins and
/// widths, laid side by side, stay within the native width. The authored
/// configuration is pre-validated to satisfy this.
pub open spec fn config_fits(cfg: UIConfig) -> bool {
    &&& cfg.size.0 >= 1
    &&& cfg.dungeon_view_margin.0 + cfg.dungeon_view_size.0 + cfg.minimap_margin.0
        + cfg.minimap_size.0 <= cfg.size.0
}

/// Computes the device-pixel rectangles of the dungeon view and the minimap
/// for the current window.
///
/// `hud_render_width` is the measured width of the fitted HUD backdrop; the
/// scale ratio is `hud_render_width / cfg.size.0`. The fitted image never
/// exceeds the window, so `hud_render_width <= window_width`. The result is
/// exactly `spec_regions(*cfg, window_width, hud_render_width)`, rebuilt
/// whole on every call.
pub fn compute(cfg: &UIConfig, window_width: u32, hud_render_width: u32) -> (r: RenderRegions)
    requires
        config_fits(*cfg),
        hud_render_width <= window_width,
    ensures
        r == spec_regions(*cfg, window_width as int, hud_render_width as int),
{
    let nw = cfg.size.0 as u64;
    let rw = hud_render_width as u64;
    let padding = (window_width - hud_render_width) as u64;

    let dungeon_x = scaled(cfg.dungeon_view_margin.0 as u64, rw, nw);
    let minimap_left = cfg.dungeon_view_margin.0 as u64 + cfg.dungeon_view_size.0 as u64
        + cfg.minimap_margin.0 as u64;
    let minimap_x = scaled(minimap_left, rw, nw);
    proof {
        lemma_scaled_bounds(cfg.dungeon_view_margin.0 as int, rw as int, nw as int);
        lemma_scaled_bounds(minimap_left as int, rw as int, nw as int);
    }

    let dungeon = ViewportRect {
        x: dungeon_x + padding,
        y: scaled(cfg.dungeon_view_margin.1 as u64, rw, nw),
        width: scaled(cfg.dungeon_view_size.0 as u64, rw, nw),
        height: scaled(cfg.dungeon_view_size.1 as u64, rw, nw),
    };
    let minimap = ViewportRect {
        x: minimap_x + padding,
        y: scaled(cfg.minimap_margin.1 as u64, rw, nw),
        width: scaled(cfg.minimap_size.0 as u64, rw, nw),
        height: scaled(cfg.minimap_size.1 as u64, rw, nw),
    };

    RenderRegions { dungeon, minimap }
}

/// Law: the scaler is a pure function of its inputs — recomputing from
/// identical configuration, window width and fitted width yields identical
/// rectangles, bit for bit. Together with `compute`'s postcondition this
/// says a recompute never drifts: the result replaces the old one with the
/// very same value.
pub proof fn lemma_regions_deterministic(
    a: UIConfig,
    b: UIConfig,
    window_a: int,
    window_b: int,
    render_a: int,
    render_b: int,
)
    requires
        a == b,
        window_a == window_b,
        render_a == render_b,
    ensures
        spec_regions(a, window_a, render_a) == spec_regions(b, window_b, render_b),
{
}

} // verus!
