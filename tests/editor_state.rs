use application_catnip::catalog::{syntax_catalog, theme_catalog, SyntaxHandle, ThemeHandle};
use application_catnip::session::{EditorAction, EditorEvent};
use application_catnip::state::{CatnipApp, DocumentLoadError, PersistedSnapshot};

fn session_with_text(text: &str) -> CatnipApp {
    CatnipApp::initialize(PersistedSnapshot {
        label: "notes".to_string(),
        editor_text: text.to_string(),
    })
}

#[test]
fn default_state_has_empty_document_and_catalog_defaults() {
    let app = CatnipApp::default();
    assert_eq!(app.document_text(), "");
    assert_eq!(app.label(), "println!(\"meow\");");
    assert_eq!(app.theme().index(), 5);
    assert_eq!(app.syntax(), SyntaxHandle::Rust);
}

#[test]
fn load_from_empty_store_gives_schema_default() {
    let snapshot = PersistedSnapshot::load(None);
    assert_eq!(snapshot, PersistedSnapshot::default());
    assert_eq!(snapshot.label, "println!(\"meow\");");
    assert_eq!(snapshot.editor_text, "");
    let app = CatnipApp::new(None);
    assert_eq!(app, CatnipApp::default());
}

#[test]
fn undecodable_record_falls_back_to_default() {
    // A record that failed to decode reaches the store as no record at all.
    let app = CatnipApp::new(None);
    assert_eq!(app.project_for_persistence(), PersistedSnapshot::default());
}

#[test]
fn save_then_load_round_trips_durable_fields() {
    let mut app = CatnipApp::default();
    app.edit_text("fn main() {}\n".to_string());
    app.set_theme(ThemeHandle::at(1).unwrap());
    let saved = app.project_for_persistence();
    let restored = CatnipApp::new(Some(saved.clone()));
    assert_eq!(restored.project_for_persistence(), saved);
    assert_eq!(restored.document_text(), "fn main() {}\n");
    assert_eq!(restored.theme().index(), 5);
}

#[test]
fn initialize_takes_snapshot_fields_verbatim() {
    let app = session_with_text("  padded\r\n");
    assert_eq!(app.label(), "notes");
    assert_eq!(app.document_text(), "  padded\r\n");
    assert_eq!(app.syntax(), SyntaxHandle::Rust);
}

#[test]
fn selections_leave_projection_unchanged() {
    let mut app = session_with_text("body");
    let before = app.project_for_persistence();
    for h in theme_catalog() {
        app.set_theme(h);
    }
    app.set_syntax(SyntaxHandle::Lua);
    app.apply(EditorEvent::ThemeSelected(ThemeHandle::at(0).unwrap()));
    app.apply(EditorEvent::SyntaxSelected(SyntaxHandle::Sql));
    assert_eq!(app.project_for_persistence(), before);
    assert_eq!(app.theme().index(), 0);
    assert_eq!(app.syntax(), SyntaxHandle::Sql);
}

#[test]
fn selecting_theme_twice_equals_once() {
    let h = ThemeHandle::at(3).unwrap();
    let mut once = session_with_text("x");
    once.set_theme(h);
    let mut twice = session_with_text("x");
    twice.set_theme(h);
    twice.set_theme(h);
    assert_eq!(once, twice);
}

#[test]
fn selecting_syntax_twice_equals_once() {
    let mut once = session_with_text("x");
    once.set_syntax(SyntaxHandle::Python);
    let mut twice = session_with_text("x");
    twice.set_syntax(SyntaxHandle::Python);
    twice.set_syntax(SyntaxHandle::Python);
    assert_eq!(once, twice);
}

#[test]
fn file_load_replaces_wholesale() {
    let mut app = session_with_text("A");
    let r = app.load_file(Ok("B".to_string()));
    assert_eq!(r, Ok(()));
    assert_eq!(app.document_text(), "B");
}

#[test]
fn file_load_failure_leaves_state_untouched() {
    let mut app = session_with_text("keep me");
    let before = app.clone();
    let r = app.load_file(Err(DocumentLoadError::NotFound));
    assert_eq!(r, Err(DocumentLoadError::NotFound));
    assert_eq!(app, before);
    assert_eq!(app.document_text(), "keep me");
}

#[test]
fn file_read_event_reports_each_error() {
    for e in [DocumentLoadError::NotFound, DocumentLoadError::NotReadable, DocumentLoadError::NotText] {
        let mut app = session_with_text("A");
        let before = app.clone();
        assert_eq!(app.apply(EditorEvent::FileRead(Err(e))), EditorAction::ReportLoadError(e));
        assert_eq!(app, before);
    }
}

#[test]
fn file_read_event_replaces_text() {
    let mut app = session_with_text("A");
    assert_eq!(app.apply(EditorEvent::FileRead(Ok("B".to_string()))), EditorAction::Nothing);
    assert_eq!(app.document_text(), "B");
}

#[test]
fn buffer_edit_event_replaces_text() {
    let mut app = session_with_text("old");
    assert_eq!(app.apply(EditorEvent::BufferEdited("new text".to_string())), EditorAction::Nothing);
    assert_eq!(app.document_text(), "new text");
    assert_eq!(app.label(), "notes");
}

#[test]
fn shutdown_persists_durable_projection() {
    let mut app = session_with_text("draft");
    app.set_syntax(SyntaxHandle::Shell);
    let before = app.clone();
    let action = app.apply(EditorEvent::Shutdown);
    assert_eq!(
        action,
        EditorAction::Persist(PersistedSnapshot {
            label: "notes".to_string(),
            editor_text: "draft".to_string(),
        })
    );
    assert_eq!(app, before);
}

#[test]
fn theme_catalog_lists_every_position() {
    let all = theme_catalog();
    assert_eq!(all.len(), 8);
    for (i, h) in all.iter().enumerate() {
        assert_eq!(h.index(), i);
    }
    assert_eq!(ThemeHandle::default_theme().index(), 5);
}

#[test]
fn theme_handle_only_inside_catalog() {
    assert_eq!(ThemeHandle::at(7).map(|h| h.index()), Some(7));
    assert_eq!(ThemeHandle::at(8), None);
    assert_eq!(ThemeHandle::at(usize::MAX), None);
}

#[test]
fn syntax_catalog_in_order() {
    assert_eq!(
        syntax_catalog(),
        vec![
            SyntaxHandle::Assembly,
            SyntaxHandle::Shell,
            SyntaxHandle::Sql,
            SyntaxHandle::Lua,
            SyntaxHandle::Rust,
            SyntaxHandle::Python,
        ]
    );
    assert_eq!(SyntaxHandle::default_syntax(), SyntaxHandle::Rust);
}
