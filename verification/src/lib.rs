//! Verified core of a GLFW-to-ImGui input and frame-lifecycle adapter.
//!
//! The crate models the adapter's state over plain values: native input
//! events become [`input::InputEvent`] values, frame timing is kept in
//! nanoseconds, cursor handles are opaque integer ids handed in by the
//! host layer, and the framebuffer scale is an exact rational. Every
//! decision the adapter makes — how an event mutates the pending input
//! state, what the per-frame delta and viewport are, which cursor calls
//! the host window must receive — is a verified function here; the host
//! layer reads the clock and the window sizes, performs the window-system
//! calls it is told to make, and feeds the GUI layer the plain values
//! it is handed.

use vstd::prelude::*;

pub mod clipboard;
pub mod clock;
pub mod cursor;
pub mod cursor_sync;
pub mod input;

use clock::{
    compute_delta_ns, delta_model, initial_viewport, viewport_step, viewport_wf, FrameParams,
    ViewportMetrics, WindowMetrics,
};
use cursor::{slots_wf, teardown_model, CursorCache, CursorKind};
use cursor_sync::{sync_model, SyncActions};
use input::{
    captured_spec, initial_input_model, translate_step, CaptureFlags, InputEvent,
    NormalizedInputState,
};

verus! {

/// The adapter: owns the frame clock, the normalized pending-input
/// state, the viewport last pushed to the GUI layer, the cursor
/// resource cache and the applied-cursor state.
///
/// Per frame, the host layer drains the native events through
/// [`ImguiGLFW::handle_event`], opens the frame with
/// [`ImguiGLFW::frame`], builds the UI, and closes with
/// [`ImguiGLFW::draw`], applying the cursor calls the adapter returns
/// before rendering.
pub struct ImguiGLFW {
    /// Timestamp of the previous frame, in nanoseconds.
    pub last_frame_ns: u64,
    /// The pending-input state the GUI layer consumes each frame.
    pub input: NormalizedInputState,
    /// Display size and framebuffer scale last pushed to the GUI layer.
    pub viewport: ViewportMetrics,
    /// The platform cursor handles, one slot per logical kind.
    pub cache: CursorCache,
    /// The cursor kind currently applied to the window, if any.
    pub applied_cursor: Option<CursorKind>,
}

impl ImguiGLFW {
    /// A live adapter: full input tables, live well-formed cursor
    /// cache, positive scale denominators.
    pub open spec fn wf(&self) -> bool {
        &&& self.input.wf()
        &&& self.cache.wf()
        &&& viewport_wf(self.viewport)
    }

    /// Constructs the adapter at clock reading `now_ns`, over the
    /// cursor handles the host layer created (one slot per kind, the
    /// Arrow slot filled — a platform that cannot create an arrow
    /// cursor violates the adapter's construction precondition).
    pub fn new(now_ns: u64, cursor_handles: Vec<Option<u64>>) -> (adapter: ImguiGLFW)
        requires
            slots_wf(cursor_handles@),
        ensures
            adapter.last_frame_ns == now_ns,
            adapter.input@ =~= initial_input_model(),
            adapter.viewport == initial_viewport(),
            adapter.cache.slots@ == cursor_handles@,
            !adapter.cache.torn_down,
            adapter.applied_cursor is None,
            adapter.wf(),
    {
        ImguiGLFW {
            last_frame_ns: now_ns,
            input: NormalizedInputState::new(),
            viewport: ViewportMetrics::initial(),
            cache: CursorCache::initialize(cursor_handles),
            applied_cursor: None,
        }
    }

    /// Applies one native event to the pending-input state, per
    /// [`input::translate_step`], and reports whether the GUI layer
    /// captures it; nothing else of the adapter changes.
    pub fn handle_event(&mut self, event: &InputEvent, capture: CaptureFlags) -> (captured: bool)
        requires
            old(self).wf(),
        ensures
            final(self).input@ =~= translate_step(old(self).input@, *event),
            captured == captured_spec(*event, capture),
            final(self).last_frame_ns == old(self).last_frame_ns,
            final(self).viewport == old(self).viewport,
            final(self).cache == old(self).cache,
            final(self).applied_cursor == old(self).applied_cursor,
            final(self).wf(),
    {
        self.input.translate(event, capture)
    }

    /// Opens a frame at clock reading `now_ns`: advances the frame
    /// clock, recomputes the viewport per [`clock::viewport_step`], and
    /// returns what the GUI layer must be fed — a per-frame delta that
    /// is always strictly positive, and a scale left untouched whenever
    /// a logical dimension is zero.
    pub fn frame(&mut self, now_ns: u64, metrics: &WindowMetrics) -> (params: FrameParams)
        requires
            old(self).wf(),
        ensures
            params.delta_ns == delta_model(now_ns, old(self).last_frame_ns),
            params.delta_ns > 0,
            final(self).last_frame_ns == now_ns,
            final(self).viewport == viewport_step(old(self).viewport, *metrics),
            metrics.logical_w == 0 || metrics.logical_h == 0 ==> final(self).viewport.scale_x
                == old(self).viewport.scale_x && final(self).viewport.scale_y == old(
                self,
            ).viewport.scale_y,
            params.display_w == final(self).viewport.display_w,
            params.display_h == final(self).viewport.display_h,
            params.scale_x == final(self).viewport.scale_x,
            params.scale_y == final(self).viewport.scale_y,
            final(self).input == old(self).input,
            final(self).cache == old(self).cache,
            final(self).applied_cursor == old(self).applied_cursor,
            final(self).wf(),
    {
        let delta_ns = compute_delta_ns(now_ns, self.last_frame_ns);
        self.last_frame_ns = now_ns;
        self.viewport.update(metrics);
        FrameParams {
            delta_ns,
            display_w: self.viewport.display_w,
            display_h: self.viewport.display_h,
            scale_x: self.viewport.scale_x,
            scale_y: self.viewport.scale_y,
        }
    }

    /// Closes a frame: reconciles the GUI layer's cursor report
    /// (`changes_disabled` from its configuration, `requested` and
    /// `software_cursor` from the frame just built) against the applied
    /// cursor, per [`cursor_sync::sync_model`], and returns the host
    /// calls to make — none when the shown cursor is unchanged. The
    /// host layer applies them, then renders the frame's draw data.
    pub fn draw(
        &mut self,
        changes_disabled: bool,
        requested: Option<CursorKind>,
        software_cursor: bool,
    ) -> (actions: SyncActions)
        requires
            old(self).wf(),
        ensures
            (final(self).applied_cursor, actions) == sync_model(
                old(self).applied_cursor,
                old(self).cache.slots@,
                changes_disabled,
                requested,
                software_cursor,
            ),
            final(self).last_frame_ns == old(self).last_frame_ns,
            final(self).input == old(self).input,
            final(self).viewport == old(self).viewport,
            final(self).cache == old(self).cache,
            final(self).wf(),
    {
        if changes_disabled {
            return SyncActions { mode: None, cursor: None };
        }
        let show = match requested {
            Some(_) => !software_cursor,
            None => false,
        };
        if show {
            let kind = match requested {
                Some(k) => k,
                None => CursorKind::Arrow,
            };
            let i = cursor::kind_index(kind);
            let shown = match self.cache.slots[i] {
                Some(_) => kind,
                None => CursorKind::Arrow,
            };
            let unchanged = match self.applied_cursor {
                Some(applied) => applied == shown,
                None => false,
            };
            if unchanged {
                SyncActions { mode: None, cursor: None }
            } else {
                let handle = self.cache.lookup(kind);
                self.applied_cursor = Some(shown);
                SyncActions {
                    mode: Some(cursor_sync::HostCursorMode::Normal),
                    cursor: Some(handle),
                }
            }
        } else {
            let was_applied = match self.applied_cursor {
                Some(_) => true,
                None => false,
            };
            self.applied_cursor = None;
            if was_applied {
                SyncActions { mode: Some(cursor_sync::HostCursorMode::Hidden), cursor: None }
            } else {
                SyncActions { mode: None, cursor: None }
            }
        }
    }

    /// Tears the adapter down: returns every created cursor handle, in
    /// slot order, each exactly once, for the host layer to destroy.
    /// Safe to call again — a second call returns nothing.
    pub fn teardown_cursors(&mut self) -> (released: Vec<u64>)
        ensures
            released@ == teardown_model(old(self).cache.slots@, old(self).cache.torn_down),
            final(self).cache.slots@ == old(self).cache.slots@,
            final(self).cache.torn_down,
            final(self).last_frame_ns == old(self).last_frame_ns,
            final(self).input == old(self).input,
            final(self).viewport == old(self).viewport,
            final(self).applied_cursor == old(self).applied_cursor,
    {
        self.cache.teardown()
    }
}

} // verus!
