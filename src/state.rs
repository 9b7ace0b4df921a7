//! The live editor state, its durable projection, and the operations that change it.

use crate::catalog::{SyntaxHandle, ThemeHandle};
use vstd::prelude::*;

verus! {

/// Mathematical view of a persisted snapshot.
pub ghost struct SnapshotView {
    pub label: Seq<char>,
    pub text: Seq<char>,
}

/// Mathematical view of the live editor state.
pub ghost struct EditorView {
    pub label: Seq<char>,
    pub text: Seq<char>,
    pub theme: ThemeHandle,
    pub syntax: SyntaxHandle,
}

/// The label that a fresh snapshot carries.
pub open spec fn default_label() -> Seq<char> {
    "println!(\"meow\");"@
}

/// The schema default of the durable record: the default label and an empty document.
pub open spec fn default_snapshot() -> SnapshotView {
    SnapshotView { label: default_label(), text: Seq::empty() }
}

/// What loading yields from the decoded record, where one could be decoded.
pub open spec fn load_result(decoded: Option<SnapshotView>) -> SnapshotView {
    match decoded {
        Some(s) => s,
        None => default_snapshot(),
    }
}

/// The state built from a snapshot: its fields verbatim, catalog defaults elsewhere.
pub open spec fn initialized(s: SnapshotView) -> EditorView {
    EditorView {
        label: s.label,
        text: s.text,
        theme: ThemeHandle::default_theme_spec(),
        syntax: SyntaxHandle::Rust,
    }
}

impl EditorView {
    /// Exactly the durable fields.
    pub open spec fn durable(self) -> SnapshotView {
        SnapshotView { label: self.label, text: self.text }
    }

    pub open spec fn with_theme(self, h: ThemeHandle) -> EditorView {
        EditorView { theme: h, ..self }
    }

    pub open spec fn with_syntax(self, h: SyntaxHandle) -> EditorView {
        EditorView { syntax: h, ..self }
    }

    pub open spec fn with_text(self, t: Seq<char>) -> EditorView {
        EditorView { text: t, ..self }
    }
}

/// The durable subset of the editor state, as written to and read from storage.
#[derive(Clone, Debug, PartialEq, Eq)]
pub struct PersistedSnapshot {
    pub label: String,
    pub editor_text: String,
}

impl View for PersistedSnapshot {
    type V = SnapshotView;

    open spec fn view(&self) -> SnapshotView {
        SnapshotView { label: self.label@, text: self.editor_text@ }
    }
}

/// View of an optional decoded snapshot.
pub open spec fn decoded_view(decoded: Option<PersistedSnapshot>) -> Option<SnapshotView> {
    match decoded {
        Some(s) => Some(s@),
        None => None,
    }
}

impl Default for PersistedSnapshot {
    fn default() -> (r: PersistedSnapshot)
        ensures
            r@ == default_snapshot(),
    {
        PersistedSnapshot { label: "println!(\"meow\");".to_owned(), editor_text: String::new() }
    }
}

impl PersistedSnapshot {
    /// The snapshot to start from, given what could be decoded from storage: the
    /// decoded record, or the schema default where none exists or it failed to decode.
    pub fn load(decoded: Option<PersistedSnapshot>) -> (r: PersistedSnapshot)
        ensures
            r@ == load_result(decoded_view(decoded)),
    {
        match decoded {
            Some(s) => s,
            None => PersistedSnapshot::default(),
        }
    }
}

/// Why a file could not be loaded into the document.
#[derive(Clone, Copy, Debug, PartialEq, Eq, Structural)]
pub enum DocumentLoadError {
    NotFound,
    NotReadable,
    NotText,
}

/// The live state of an editor session.
#[derive(Clone, Debug, PartialEq, Eq)]
pub struct CatnipApp {
    label: String,
    editor_theme: ThemeHandle,
    editor_syntax: SyntaxHandle,
    editor_text: String,
}

impl View for CatnipApp {
    type V = EditorView;

    closed spec fn view(&self) -> EditorView {
        EditorView {
            label: self.label@,
            text: self.editor_text@,
            theme: self.editor_theme,
            syntax: self.editor_syntax,
        }
    }
}

impl Default for CatnipApp {
    fn default() -> (r: CatnipApp)
        ensures
            r@ == initialized(default_snapshot()),
    {
        CatnipApp::initialize(PersistedSnapshot::default())
    }
}

impl CatnipApp {
    /// Starts a session from what could be decoded from storage, falling back to
    /// the schema default.
    pub fn new(decoded: Option<PersistedSnapshot>) -> (r: CatnipApp)
        ensures
            r@ == initialized(load_result(decoded_view(decoded))),
    {
        CatnipApp::initialize(PersistedSnapshot::load(decoded))
    }

    /// Takes the snapshot's fields verbatim; theme and syntax get the catalog defaults.
    pub fn initialize(snapshot: PersistedSnapshot) -> (r: CatnipApp)
        ensures
            r@ == initialized(snapshot@),
    {
        CatnipApp {
            label: snapshot.label,
            editor_theme: ThemeHandle::default_theme(),
            editor_syntax: SyntaxHandle::default_syntax(),
            editor_text: snapshot.editor_text,
        }
    }

    pub fn label(&self) -> (r: &str)
        ensures
            r@ == self@.label,
    {
        self.label.as_str()
    }

    pub fn document_text(&self) -> (r: &str)
        ensures
            r@ == self@.text,
    {
        self.editor_text.as_str()
    }

    pub fn theme(&self) -> (r: ThemeHandle)
        ensures
            r == self@.theme,
    {
        self.editor_theme
    }

    pub fn syntax(&self) -> (r: SyntaxHandle)
        ensures
            r == self@.syntax,
    {
        self.editor_syntax
    }

    pub fn set_theme(&mut self, h: ThemeHandle)
        ensures
            final(self)@ == old(self)@.with_theme(h),
    {
        self.editor_theme = h;
    }

    pub fn set_syntax(&mut self, h: SyntaxHandle)
        ensures
            final(self)@ == old(self)@.with_syntax(h),
    {
        self.editor_syntax = h;
    }

    /// Replaces the document with the full buffer value that the display reported.
    pub fn edit_text(&mut self, text: String)
        ensures
            final(self)@ == old(self)@.with_text(text@),
    {
        self.editor_text = text;
    }

    /// Commits the outcome of reading a file: on success the document becomes the
    /// file's contents exactly; on failure the state is untouched and the error is
    /// handed back.
    pub fn load_file(&mut self, read: Result<String, DocumentLoadError>) -> (r: Result<
        (),
        DocumentLoadError,
    >)
        ensures
            match read {
                Ok(t) => final(self)@ == old(self)@.with_text(t@) && r is Ok,
                Err(e) => final(self)@ == old(self)@ && r == Err::<(), DocumentLoadError>(e),
            },
    {
        match read {
            Ok(t) => {
                self.editor_text = t;
                Ok(())
            },
            Err(e) => Err(e),
        }
    }

    /// Exactly the durable fields of the state.
    pub fn project_for_persistence(&self) -> (r: PersistedSnapshot)
        ensures
            r@ == self@.durable(),
    {
        PersistedSnapshot { label: self.label.clone(), editor_text: self.editor_text.clone() }
    }
}

} // verus!
