use imgui_glfw_rs::clipboard::text_is_host_encodable;
use imgui_glfw_rs::cursor::{kind_index, CursorCache, CursorKind, CURSOR_KIND_COUNT};

const ALL_KINDS: [CursorKind; 9] = [
    CursorKind::Arrow,
    CursorKind::TextInput,
    CursorKind::ResizeAll,
    CursorKind::ResizeNS,
    CursorKind::ResizeEW,
    CursorKind::ResizeNESW,
    CursorKind::ResizeNWSE,
    CursorKind::Hand,
    CursorKind::NotAllowed,
];

#[test]
fn kind_indices_cover_the_table() {
    let mut seen = [false; CURSOR_KIND_COUNT];
    for kind in ALL_KINDS {
        let i = kind_index(kind);
        assert!(!seen[i]);
        seen[i] = true;
    }
    assert!(seen.iter().all(|s| *s));
    assert_eq!(kind_index(CursorKind::Arrow), 0);
}

#[test]
fn lookup_returns_cached_or_arrow_handle() {
    // TextInput unavailable; every lookup still returns a real handle.
    let handles = vec![
        Some(1),
        None,
        Some(3),
        Some(4),
        Some(5),
        Some(6),
        Some(7),
        Some(8),
        Some(9),
    ];
    let cache = CursorCache::initialize(handles);
    assert_eq!(cache.lookup(CursorKind::Arrow), 1);
    assert_eq!(cache.lookup(CursorKind::TextInput), 1);
    assert_eq!(cache.lookup(CursorKind::ResizeAll), 3);
    assert_eq!(cache.lookup(CursorKind::NotAllowed), 9);
}

#[test]
fn teardown_after_partial_initialization() {
    // Only the Arrow shape was created: teardown releases exactly it.
    let handles = vec![Some(42), None, None, None, None, None, None, None, None];
    let mut cache = CursorCache::initialize(handles);
    assert_eq!(cache.teardown(), vec![42]);
    assert_eq!(cache.teardown(), Vec::<u64>::new());
}

#[test]
fn clipboard_text_without_nul_is_encodable() {
    assert!(text_is_host_encodable(b"hello clipboard"));
    assert!(text_is_host_encodable(b""));
    assert!(text_is_host_encodable("caf\u{e9}".as_bytes()));
}

#[test]
fn clipboard_text_with_embedded_nul_is_dropped() {
    assert!(!text_is_host_encodable(b"he\0llo"));
    assert!(!text_is_host_encodable(b"\0"));
    assert!(!text_is_host_encodable(b"trailing\0"));
}
