//! Laws that relate the operations of the editor state and its persistence.

use crate::catalog::{SyntaxHandle, ThemeHandle, DEFAULT_THEME_INDEX};
use crate::session::{is_selection, next_view, run, EditorEvent};
use crate::state::{default_snapshot, initialized, load_result, EditorView, SnapshotView};
use vstd::prelude::*;

verus! {

/// Saving a durable projection and loading it back, then starting a session from
/// it, gives back exactly that projection.
pub proof fn round_trip(p: SnapshotView)
    ensures
        initialized(load_result(Some(p))).durable() == p,
{
}

/// Loading from an empty store gives the schema default, and a session started
/// from it has an empty document and the catalog defaults for theme and syntax.
pub proof fn default_on_empty_store()
    ensures
        load_result(None) == default_snapshot(),
        initialized(load_result(None)).text.len() == 0,
        initialized(load_result(None)).theme.position() == DEFAULT_THEME_INDEX,
        initialized(load_result(None)).syntax == SyntaxHandle::Rust,
{
    ThemeHandle::default_theme_position();
}

/// No sequence of theme and syntax selections changes the durable projection.
pub proof fn selections_are_transient(s: EditorView, events: Seq<EditorEvent>)
    requires
        forall|i: int| 0 <= i < events.len() ==> is_selection(#[trigger] events[i]),
    ensures
        run(s, events).durable() == s.durable(),
    decreases events.len(),
{
    if events.len() > 0 {
        assert(is_selection(events[0]));
        let rest = events.drop_first();
        assert forall|i: int| 0 <= i < rest.len() implies is_selection(#[trigger] rest[i]) by {
            assert(rest[i] == events[i + 1]);
        }
        selections_are_transient(next_view(s, events[0]), rest);
    }
}

/// Selecting the same theme twice leaves the state as selecting it once does.
pub proof fn theme_selection_idempotent(s: EditorView, h: ThemeHandle)
    ensures
        s.with_theme(h).with_theme(h) == s.with_theme(h),
{
}

/// Selecting the same syntax twice leaves the state as selecting it once does.
pub proof fn syntax_selection_idempotent(s: EditorView, h: SyntaxHandle)
    ensures
        s.with_syntax(h).with_syntax(h) == s.with_syntax(h),
{
}

} // verus!
