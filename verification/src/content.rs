//! What a watcher tells its user.
use vstd::prelude::*;

use crate::error::{Error, ErrorView};
use crate::mime::{MimeType, MimeView};
use crate::preference::copy_texts;

verus! {

/// A snapshot of clipboard content.
#[derive(Debug)]
pub struct ClipboardContent {
    pub data: Vec<u8>,
    pub mime_type: MimeType,
    pub available_types: Vec<String>,
}

/// A [`ClipboardContent`] as mathematical values.
#[verifier::ext_equal]
pub struct ContentView {
    pub data: Seq<u8>,
    pub mime_type: MimeView,
    pub available_types: Seq<Seq<char>>,
}

impl View for ClipboardContent {
    type V = ContentView;

    open spec fn view(&self) -> ContentView {
        ContentView {
            data: self.data@,
            mime_type: self.mime_type@,
            available_types: self.available_types.deep_view(),
        }
    }
}

impl Clone for ClipboardContent {
    fn clone(&self) -> (copy: Self)
        ensures
            copy@ == self@,
    {
        let data = self.data.clone();
        assert(data@ =~= self.data@);
        ClipboardContent {
            data,
            mime_type: self.mime_type.clone(),
            available_types: copy_texts(&self.available_types),
        }
    }
}

/// Events emitted by the clipboard watcher.
#[derive(Debug)]
pub enum ClipboardEvent {
    /// The clipboard holds new content.
    Changed(ClipboardContent),
    /// The clipboard holds nothing any more.
    Cleared,
    /// The watcher failed.
    Error(Error),
}

/// A [`ClipboardEvent`] as a mathematical value.
#[verifier::ext_equal]
pub enum EventView {
    Changed(ContentView),
    Cleared,
    Error(ErrorView),
}

impl View for ClipboardEvent {
    type V = EventView;

    open spec fn view(&self) -> EventView {
        match *self {
            ClipboardEvent::Changed(content) => EventView::Changed(content@),
            ClipboardEvent::Cleared => EventView::Cleared,
            ClipboardEvent::Error(error) => EventView::Error(error@),
        }
    }
}

/// The mathematical values hold what the content and the events hold.
pub proof fn law_content_views(content: ClipboardContent, error: Error)
    ensures
        content@.data == content.data@,
        content@.mime_type == content.mime_type@,
        content@.available_types == content.available_types.deep_view(),
        ClipboardEvent::Changed(content)@ == EventView::Changed(content@),
        ClipboardEvent::Cleared@ == EventView::Cleared,
        ClipboardEvent::Error(error)@ == EventView::Error(error@),
{
}

} // verus!
