//! Frame clock and viewport sync: once per frame, derives the elapsed
//! time since the previous frame and the display size and framebuffer
//! scale the GUI layer must be fed before a new frame opens.
//!
//! Time is kept in nanoseconds. The framebuffer scale is the exact
//! rational framebuffer-size over logical-size per axis; it is only
//! recomputed when both logical dimensions are strictly positive, so
//! its denominator can never be zero.

use vstd::prelude::*;

verus! {

/// Substitute per-frame delta (one sixtieth of a second, in
/// nanoseconds) used whenever the measured delta is not strictly
/// positive.
pub const FALLBACK_DELTA_NS: u64 = 16_666_667;

/// Framebuffer scale along one axis, as the exact rational
/// `fb / logical`: `fb` framebuffer pixels for every `logical` logical
/// units.
#[derive(Clone, Copy, Debug, PartialEq, Eq, Structural)]
pub struct AxisScale {
    pub fb: u32,
    pub logical: u32,
}

/// The window's reported sizes, read by the host layer each frame.
#[derive(Clone, Copy, Debug, PartialEq, Eq, Structural)]
pub struct WindowMetrics {
    pub logical_w: u32,
    pub logical_h: u32,
    pub fb_w: u32,
    pub fb_h: u32,
}

/// The display size and framebuffer scale last pushed to the GUI layer.
#[derive(Clone, Copy, Debug, PartialEq, Eq, Structural)]
pub struct ViewportMetrics {
    pub display_w: u32,
    pub display_h: u32,
    pub scale_x: AxisScale,
    pub scale_y: AxisScale,
}

/// What the GUI layer must be fed for one frame: the per-frame delta
/// and the viewport just recomputed.
#[derive(Clone, Copy, Debug, PartialEq, Eq, Structural)]
pub struct FrameParams {
    pub delta_ns: u64,
    pub display_w: u32,
    pub display_h: u32,
    pub scale_x: AxisScale,
    pub scale_y: AxisScale,
}

/// A scale is well formed when its denominator is positive — division
/// by it is always defined.
pub open spec fn viewport_wf(vp: ViewportMetrics) -> bool {
    vp.scale_x.logical > 0 && vp.scale_y.logical > 0
}

/// The per-frame delta: the measured elapsed nanoseconds when strictly
/// positive, the fixed fallback otherwise (clock unchanged or stepped
/// backwards) — never zero.
pub open spec fn delta_model(now_ns: u64, last_ns: u64) -> int {
    if now_ns > last_ns {
        now_ns - last_ns
    } else {
        FALLBACK_DELTA_NS as int
    }
}

/// Exactly how one frame updates the viewport: the display size is
/// always the logical size; the scale is recomputed only when both
/// logical dimensions are strictly positive, else left unchanged.
pub open spec fn viewport_step(vp: ViewportMetrics, wm: WindowMetrics) -> ViewportMetrics {
    ViewportMetrics {
        display_w: wm.logical_w,
        display_h: wm.logical_h,
        scale_x: if wm.logical_w > 0 && wm.logical_h > 0 {
            AxisScale { fb: wm.fb_w, logical: wm.logical_w }
        } else {
            vp.scale_x
        },
        scale_y: if wm.logical_w > 0 && wm.logical_h > 0 {
            AxisScale { fb: wm.fb_h, logical: wm.logical_h }
        } else {
            vp.scale_y
        },
    }
}

impl ViewportMetrics {
    /// The viewport of a freshly constructed adapter: no display size
    /// yet, scale one-to-one.
    pub fn initial() -> (vp: ViewportMetrics)
        ensures
            vp == initial_viewport(),
            viewport_wf(vp),
    {
        ViewportMetrics {
            display_w: 0,
            display_h: 0,
            scale_x: AxisScale { fb: 1, logical: 1 },
            scale_y: AxisScale { fb: 1, logical: 1 },
        }
    }

    /// Applies one frame's window metrics, per [`viewport_step`].
    pub fn update(&mut self, wm: &WindowMetrics)
        requires
            viewport_wf(*old(self)),
        ensures
            *final(self) == viewport_step(*old(self), *wm),
            viewport_wf(*final(self)),
    {
        self.display_w = wm.logical_w;
        self.display_h = wm.logical_h;
        if wm.logical_w > 0 && wm.logical_h > 0 {
            self.scale_x = AxisScale { fb: wm.fb_w, logical: wm.logical_w };
            self.scale_y = AxisScale { fb: wm.fb_h, logical: wm.logical_h };
        }
    }
}

/// The viewport of a freshly constructed adapter.
pub open spec fn initial_viewport() -> ViewportMetrics {
    ViewportMetrics {
        display_w: 0,
        display_h: 0,
        scale_x: AxisScale { fb: 1, logical: 1 },
        scale_y: AxisScale { fb: 1, logical: 1 },
    }
}

/// Computes the per-frame delta, per [`delta_model`] — the result is
/// always strictly positive.
pub fn compute_delta_ns(now_ns: u64, last_ns: u64) -> (delta_ns: u64)
    ensures
        delta_ns == delta_model(now_ns, last_ns),
        delta_ns > 0,
{
    if now_ns > last_ns {
        now_ns - last_ns
    } else {
        FALLBACK_DELTA_NS
    }
}

} // verus!
