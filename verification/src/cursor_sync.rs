//! Cursor-shape synchronizer: once per frame, after UI construction,
//! reconciles the GUI layer's requested cursor against what is already
//! applied to the window and says which host calls — if any — must be
//! made. Re-applying an unchanged cursor is skipped, so an unchanged
//! request costs no host call at all.

use vstd::prelude::*;
use crate::cursor::{kind_index_spec, lookup_spec, CursorKind};

verus! {

/// Host cursor-mode directive.
#[derive(Clone, Copy, Debug, PartialEq, Eq, Structural)]
pub enum HostCursorMode {
    Normal,
    Hidden,
}

/// The host calls one sync step demands: an optional cursor-mode
/// change, and an optional cursor handle to apply to the window.
#[derive(Clone, Copy, Debug, PartialEq, Eq)]
pub struct SyncActions {
    pub mode: Option<HostCursorMode>,
    pub cursor: Option<u64>,
}

/// No host call at all.
pub open spec fn no_actions() -> SyncActions {
    SyncActions { mode: None, cursor: None }
}

/// The kind that will actually be shown for a request: the requested
/// kind when its handle was created, else the Arrow fallback.
pub open spec fn resolved_kind(slots: Seq<Option<u64>>, kind: CursorKind) -> CursorKind {
    if slots[kind_index_spec(kind)] is Some {
        kind
    } else {
        CursorKind::Arrow
    }
}

/// Sync step when the GUI layer wants a hardware cursor shown.
pub open spec fn show_step(
    applied: Option<CursorKind>,
    slots: Seq<Option<u64>>,
    kind: CursorKind,
) -> (Option<CursorKind>, SyncActions) {
    let shown = resolved_kind(slots, kind);
    if applied == Some(shown) {
        (applied, no_actions())
    } else {
        (
            Some(shown),
            SyncActions {
                mode: Some(HostCursorMode::Normal),
                cursor: Some(lookup_spec(slots, kind)),
            },
        )
    }
}

/// Sync step when no hardware cursor is wanted (none requested, or the
/// GUI layer draws its own): hide the host cursor, but only if one is
/// currently applied.
pub open spec fn hide_step(applied: Option<CursorKind>) -> (Option<CursorKind>, SyncActions) {
    if applied is Some {
        (None, SyncActions { mode: Some(HostCursorMode::Hidden), cursor: None })
    } else {
        (None, no_actions())
    }
}

/// Exactly what one per-frame sync does, from the applied-cursor state,
/// the cursor table, and the GUI layer's per-frame cursor report: the
/// new applied-cursor state, and the host calls to make.
pub open spec fn sync_model(
    applied: Option<CursorKind>,
    slots: Seq<Option<u64>>,
    changes_disabled: bool,
    requested: Option<CursorKind>,
    software_cursor: bool,
) -> (Option<CursorKind>, SyncActions) {
    if changes_disabled {
        (applied, no_actions())
    } else {
        match requested {
            Some(kind) => if software_cursor {
                hide_step(applied)
            } else {
                show_step(applied, slots, kind)
            },
            None => hide_step(applied),
        }
    }
}

/// Law: syncing twice with the same per-frame cursor report makes no
/// host call the second time — the first sync brings the applied state
/// up to date, and an unchanged request is then skipped entirely.
pub proof fn lemma_sync_idempotent(
    applied: Option<CursorKind>,
    slots: Seq<Option<u64>>,
    changes_disabled: bool,
    requested: Option<CursorKind>,
    software_cursor: bool,
)
    ensures
        ({
            let first = sync_model(applied, slots, changes_disabled, requested, software_cursor);
            let second = sync_model(
                first.0,
                slots,
                changes_disabled,
                requested,
                software_cursor,
            );
            second.0 == first.0 && second.1 == no_actions()
        }),
{
}

} // verus!
