//! One step of an editor session: an event from the display comes in, the state
//! moves on, and an action goes back out for the surrounding program to perform.

use crate::catalog::{SyntaxHandle, ThemeHandle};
use crate::state::{CatnipApp, DocumentLoadError, EditorView, PersistedSnapshot};
use vstd::prelude::*;

verus! {

/// What the display reports during one frame.
#[derive(Debug, PartialEq, Eq)]
pub enum EditorEvent {
    /// The buffer now holds this full text.
    BufferEdited(String),
    ThemeSelected(ThemeHandle),
    SyntaxSelected(SyntaxHandle),
    /// The outcome of reading the file that the user picked.
    FileRead(Result<String, DocumentLoadError>),
    /// The session is ending.
    Shutdown,
}

/// What the surrounding program must do after a step.
#[derive(Clone, Debug, PartialEq, Eq)]
pub enum EditorAction {
    Nothing,
    /// Tell the user that the file could not be loaded.
    ReportLoadError(DocumentLoadError),
    /// Write this snapshot to storage.
    Persist(PersistedSnapshot),
}

/// The state after one event.
pub open spec fn next_view(s: EditorView, e: EditorEvent) -> EditorView {
    match e {
        EditorEvent::BufferEdited(t) => s.with_text(t@),
        EditorEvent::ThemeSelected(h) => s.with_theme(h),
        EditorEvent::SyntaxSelected(h) => s.with_syntax(h),
        EditorEvent::FileRead(Ok(t)) => s.with_text(t@),
        EditorEvent::FileRead(Err(_)) => s,
        EditorEvent::Shutdown => s,
    }
}

/// The state after a sequence of events, taken in order.
pub open spec fn run(s: EditorView, events: Seq<EditorEvent>) -> EditorView
    decreases events.len(),
{
    if events.len() == 0 {
        s
    } else {
        run(next_view(s, events[0]), events.drop_first())
    }
}

/// Whether an event only picks a catalog entry.
pub open spec fn is_selection(e: EditorEvent) -> bool {
    e is ThemeSelected || e is SyntaxSelected
}

impl CatnipApp {
    /// Applies one event and says what the surrounding program must do next.
    pub fn apply(&mut self, event: EditorEvent) -> (r: EditorAction)
        ensures
            final(self)@ == next_view(old(self)@, event),
            match event {
                EditorEvent::FileRead(Err(e)) => r == EditorAction::ReportLoadError(e),
                EditorEvent::Shutdown => r matches EditorAction::Persist(p) && p@ == old(
                    self,
                )@.durable(),
                _ => r == EditorAction::Nothing,
            },
    {
        match event {
            EditorEvent::BufferEdited(t) => {
                self.edit_text(t);
                EditorAction::Nothing
            },
            EditorEvent::ThemeSelected(h) => {
                self.set_theme(h);
                EditorAction::Nothing
            },
            EditorEvent::SyntaxSelected(h) => {
                self.set_syntax(h);
                EditorAction::Nothing
            },
            EditorEvent::FileRead(read) => match self.load_file(read) {
                Ok(()) => EditorAction::Nothing,
                Err(e) => EditorAction::ReportLoadError(e),
            },
            EditorEvent::Shutdown => EditorAction::Persist(self.project_for_persistence()),
        }
    }
}

} // verus!
