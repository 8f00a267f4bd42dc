//! Telling new clipboard content from content that was reported already.
//!
//! A watcher that has to poll sees the same content again and again.  It remembers what it saw
//! last and reports only what differs.
use vstd::prelude::*;

use crate::content::{ClipboardContent, ClipboardEvent, ContentView, EventView};
use crate::mime::{MimeType, MimeView};
use crate::optional;
use crate::text::same_bytes;

verus! {

/// The content that a polling watcher saw last, if the clipboard was not empty.
pub struct LastSeen {
    pub content: Option<(MimeType, Vec<u8>)>,
}

/// A [`LastSeen`] as a mathematical value.
#[verifier::ext_equal]
pub struct LastView {
    pub content: Option<(MimeView, Seq<u8>)>,
}

impl View for LastSeen {
    type V = LastView;

    open spec fn view(&self) -> LastView {
        LastView {
            content: match self.content {
                Some((mime_type, data)) => Some((mime_type@, data@)),
                None => None,
            },
        }
    }
}

/// What one look at the clipboard has shown.
pub enum Sighting {
    /// The clipboard holds content that its owner calls by a MIME type's name.
    Content { mime_type: MimeView, data: Seq<u8>, name: Seq<char> },
    /// The clipboard is empty.
    Gone,
}

impl LastView {
    /// Before the first look.
    pub open spec fn nothing() -> LastView {
        LastView { content: None }
    }

    /// What is remembered after a look.
    pub open spec fn after(self, sighting: Sighting) -> LastView {
        match sighting {
            Sighting::Content { mime_type, data, .. } => LastView {
                content: Some((mime_type, data)),
            },
            Sighting::Gone => LastView::nothing(),
        }
    }

    /// What is reported after a look: what is now remembered, if it was not remembered before.
    pub open spec fn news(self, sighting: Sighting) -> Option<EventView> {
        if self.after(sighting) == self {
            None
        } else {
            match sighting {
                Sighting::Content { mime_type, data, name } => Some(
                    EventView::Changed(
                        ContentView { data, mime_type, available_types: seq![name] },
                    ),
                ),
                Sighting::Gone => Some(EventView::Cleared),
            }
        }
    }

    /// What is remembered after a look that may have shown nothing of use.
    pub open spec fn after_look(self, sighting: Option<Sighting>) -> LastView {
        match sighting {
            Some(sighting) => self.after(sighting),
            None => self,
        }
    }

    /// What is reported after a look that may have shown nothing of use.
    pub open spec fn look_event(self, sighting: Option<Sighting>) -> Option<EventView> {
        match sighting {
            Some(sighting) => self.news(sighting),
            None => None,
        }
    }

    /// What is remembered after several looks.
    pub open spec fn after_looks(self, looks: Seq<Option<Sighting>>) -> LastView
        decreases looks.len(),
    {
        if looks.len() == 0 {
            self
        } else {
            self.after_looks(looks.drop_last()).after_look(looks.last())
        }
    }

    /// All that is reported in the course of several looks, in order.
    pub open spec fn events(self, looks: Seq<Option<Sighting>>) -> Seq<EventView>
        decreases looks.len(),
    {
        if looks.len() == 0 {
            Seq::empty()
        } else {
            self.events(looks.drop_last()) + optional::as_seq(
                self.after_looks(looks.drop_last()).look_event(looks.last()),
            )
        }
    }

    /// What somebody who was told of an event knows of the clipboard.
    pub open spec fn told_by(event: EventView) -> LastView {
        match event {
            EventView::Changed(content) => LastView {
                content: Some((content.mime_type, content.data)),
            },
            _ => LastView::nothing(),
        }
    }

    /// What somebody who knew of `self` and was then told of several events knows of the clipboard.
    pub open spec fn told_by_all(self, events: Seq<EventView>) -> LastView {
        if events.len() == 0 {
            self
        } else {
            LastView::told_by(events.last())
        }
    }
}

impl LastSeen {
    /// Before the first look.
    pub fn new() -> (last: Self)
        ensures
            last@ == LastView::nothing(),
    {
        LastSeen { content: None }
    }

    /// Notes that the clipboard holds `data` of a type that its owner calls `name`, and reports it
    /// unless it was seen last time too.
    pub fn observe(&mut self, mime_type: MimeType, data: Vec<u8>, name: String) -> (event: Option<
        ClipboardEvent,
    >)
        ensures
            ({
                let sighting = Sighting::Content { mime_type: mime_type@, data: data@, name: name@ };
                &&& final(self)@ == old(self)@.after(sighting)
                &&& optional::viewed(event) == old(self)@.news(sighting)
            }),
    {
        let changed = match &self.content {
            Some((old_mime, old_data)) => {
                *old_mime != mime_type || !same_bytes(old_data.as_slice(), data.as_slice())
            },
            None => true,
        };
        if changed {
            let event_data = data.clone();
            assert(event_data@ =~= data@);
            self.content = Some((mime_type.clone(), data));
            let available_types = vec![name];
            assert(available_types.deep_view() =~= seq![name@]);
            Some(
                ClipboardEvent::Changed(
                    ClipboardContent { data: event_data, mime_type, available_types },
                ),
            )
        } else {
            None
        }
    }

    /// Notes that the clipboard is empty, and reports it unless it was empty last time too.
    pub fn forget(&mut self) -> (event: Option<ClipboardEvent>)
        ensures
            final(self)@ == old(self)@.after(Sighting::Gone),
            optional::viewed(event) == old(self)@.news(Sighting::Gone),
    {
        match self.content.take() {
            Some(_) => Some(ClipboardEvent::Cleared),
            None => None,
        }
    }
}

/// Content that was seen last time is not reported again, nor is a clipboard that was empty last
/// time; everything else is.
pub proof fn law_only_changes_are_reported(last: LastView, sighting: Sighting)
    ensures
        last.news(sighting) is None <==> last.after(sighting) == last,
        last.after(sighting).news(sighting) is None,
{
}

/// Whether an event is what a sighting gives rise to, if it gives rise to any.
pub open spec fn tells(event: EventView, sighting: Sighting) -> bool {
    match sighting {
        Sighting::Content { mime_type, data, name } => event == EventView::Changed(
            ContentView { data, mime_type, available_types: seq![name] },
        ),
        Sighting::Gone => event == EventView::Cleared,
    }
}

/// Every event tells of one of the looks.
pub proof fn law_events_tell_of_looks(last: LastView, looks: Seq<Option<Sighting>>, i: int)
    requires
        0 <= i < last.events(looks).len(),
    ensures
        exists|k: int|
            0 <= k < looks.len() && (#[trigger] looks[k] matches Some(sighting) && tells(
                last.events(looks)[i],
                sighting,
            )),
    decreases looks.len(),
{
    let before = looks.drop_last();
    let earlier = last.events(before);
    if i < earlier.len() {
        law_events_tell_of_looks(last, before, i);
        let k = choose|k: int|
            0 <= k < before.len() && (#[trigger] before[k] matches Some(sighting) && tells(
                earlier[i],
                sighting,
            ));
        assert(looks[k] == before[k]);
        assert(last.events(looks)[i] == earlier[i]);
    } else {
        assert(looks[looks.len() - 1] == looks.last());
    }
}

/// Whoever is told of every event knows at every moment what the watcher saw last.
pub proof fn law_events_tell_what_was_seen(last: LastView, looks: Seq<Option<Sighting>>)
    ensures
        last.told_by_all(last.events(looks)) == last.after_looks(looks),
    decreases looks.len(),
{
    if looks.len() > 0 {
        let before = looks.drop_last();
        let middle = last.after_looks(before);
        law_events_tell_what_was_seen(last, before);
        match middle.look_event(looks.last()) {
            Some(event) => {
                assert(last.events(looks).last() == event);
            },
            None => {
                assert(last.events(looks) =~= last.events(before));
            },
        }
    }
}

/// No event repeats the one before it: two reports of content in a row differ in type or data, and
/// the clipboard is not reported as emptied twice in a row.  The first event does not repeat what
/// was known at the outset.
pub proof fn law_events_never_repeat(last: LastView, looks: Seq<Option<Sighting>>, i: int)
    requires
        0 <= i < last.events(looks).len(),
    ensures
        LastView::told_by(last.events(looks)[i]) != last.told_by_all(last.events(looks).take(i)),
    decreases looks.len(),
{
    let before = looks.drop_last();
    let middle = last.after_looks(before);
    let earlier = last.events(before);
    let all = last.events(looks);
    if i < earlier.len() {
        law_events_never_repeat(last, before, i);
        assert(all.take(i) =~= earlier.take(i));
        assert(all[i] == earlier[i]);
    } else {
        law_events_tell_what_was_seen(last, before);
        assert(all.take(i) =~= earlier);
        assert(all[i] == middle.look_event(looks.last())->0);
    }
}

/// Content that is seen is what is remembered, and is reported exactly if something else, or nothing,
/// was remembered before; the report holds its bytes, its type, and the one name it has.
pub proof fn law_seen_content_is_remembered(
    last: LastView,
    mime_type: MimeView,
    data: Seq<u8>,
    name: Seq<char>,
)
    ensures
        ({
            let sighting = Sighting::Content { mime_type, data, name };
            &&& last.after(sighting).content == Some((mime_type, data))
            &&& last.content == Some((mime_type, data)) ==> last.news(sighting) is None
            &&& last.content != Some((mime_type, data)) ==> (last.news(sighting) matches Some(
                EventView::Changed(content),
            ) && content.data == data && content.mime_type == mime_type
                && content.available_types.len() == 1 && content.available_types[0] == name)
        }),
{
}

/// An empty clipboard leaves nothing remembered, whatever it held, and is reported exactly if
/// something was remembered before.
pub proof fn law_nothing_is_remembered_of_an_empty_clipboard(last: LastView)
    ensures
        last.after(Sighting::Gone).content is None,
        last.content is Some ==> last.news(Sighting::Gone) == Some(EventView::Cleared),
        last.content is None ==> last.news(Sighting::Gone) is None,
        LastView::nothing().content is None,
{
}

/// A look that has shown nothing of use leaves everything as it was, and any other one counts for
/// what it has shown.
pub proof fn law_useless_look_changes_nothing(last: LastView, sighting: Sighting)
    ensures
        last.after_look(None) == last,
        last.look_event(None) is None,
        last.after_look(Some(sighting)) == last.after(sighting),
        last.look_event(Some(sighting)) == last.news(sighting),
{
}

/// Whatever the content is, it is reported anew when it comes back after the clipboard was empty.
pub proof fn law_returning_content_is_news(
    last: LastView,
    mime_type: MimeView,
    data: Seq<u8>,
    name: Seq<char>,
)
    ensures
        ({
            let sighting = Sighting::Content { mime_type, data, name };
            let seen = last.after(sighting);
            let emptied = seen.after(Sighting::Gone);
            &&& seen.news(Sighting::Gone) == Some(EventView::Cleared)
            &&& emptied.news(Sighting::Gone) is None
            &&& emptied.news(sighting) is Some
            &&& emptied.after(sighting).news(sighting) is None
        }),
{
}

/// The mathematical value holds what is remembered.
pub proof fn law_last_seen_view(last: LastSeen)
    ensures
        last.content is None ==> last@.content is None,
        last.content matches Some((mime_type, data)) ==> last@.content == Some(
            (mime_type@, data@),
        ),
{
}

} // verus!
