//! Editor state and preference persistence for a small desktop code editor.
//!
//! The live state holds the document text, a label, and the selected theme and
//! highlighting language. Only the text fields are durable: theme and syntax are
//! reset to the catalog defaults at every start.

pub mod catalog;
pub mod state;
pub mod session;
pub mod laws;
