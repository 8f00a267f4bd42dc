//! Clipboard access for Wayland, with an X11/XWayland fallback.
//!
//! The library holds what a clipboard watcher and a clipboard writer decide; it performs no
//! input or output itself.  Each part is a function or a small state machine from what was
//! observed (an event of the compositor, the outcome of a call, a command) to what is to be done
//! next.  The program around it performs the action and reports back.

pub mod backend;
pub mod builder;
pub mod content;
pub mod error;
pub mod globals;
pub mod last_seen;
pub mod mime;
pub mod offers;
pub mod optional;
pub mod polling;
pub mod preference;
pub mod round_trip;
pub mod setup;
pub mod text;
pub mod writer;
pub mod x11;

pub use crate::builder::{ClipboardWatcherBuilder, SettingsView};
pub use crate::content::{ClipboardContent, ClipboardEvent, ContentView, EventView};
pub use crate::error::{Error, ErrorView};
pub use crate::mime::{normalize_wayland_mime, MimeType, MimeView};
