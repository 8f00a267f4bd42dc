//! Watching a Wayland clipboard that can only be polled.
use vstd::prelude::*;

use crate::content::{ClipboardEvent, ContentView, EventView};
use crate::error::{Error, ErrorView};
use crate::last_seen::{LastSeen, LastView, Sighting};
use crate::mime::{normalize_wayland_mime, MimeView};
use crate::optional;
use crate::preference::contains_text;

verus! {

/// How long to wait between two looks at the polled Wayland clipboard, in milliseconds.
pub const POLL_INTERVAL_MILLIS: u64 = 200;

/// Which of the two clipboards of a desktop is meant.
#[derive(Debug, Clone, Copy, PartialEq, Eq, Structural)]
pub enum ClipboardKind {
    Regular,
    Primary,
}

impl ClipboardKind {
    /// The clipboard that is polled.
    pub fn watched(watch_primary: bool) -> (kind: Self)
        ensures
            kind == (if watch_primary {
                ClipboardKind::Primary
            } else {
                ClipboardKind::Regular
            }),
    {
        if watch_primary {
            ClipboardKind::Primary
        } else {
            ClipboardKind::Regular
        }
    }
}

/// Which content to ask for.
#[derive(Debug, Clone, Copy, PartialEq, Eq, Structural)]
pub enum PasteRequest {
    /// Whatever there is.
    Any,
    /// Text only.
    Text,
}

impl PasteRequest {
    /// The content that serves a list of preferences: only text, unless images are wanted too.
    pub fn for_preferences(preferences: &Vec<String>) -> (request: Self)
        ensures
            request == (if preferences.deep_view().contains("image/png"@) {
                PasteRequest::Any
            } else {
                PasteRequest::Text
            }),
    {
        if contains_text(preferences, "image/png") {
            PasteRequest::Any
        } else {
            PasteRequest::Text
        }
    }
}

/// Why the clipboard gave nothing.
pub enum PasteFailure {
    /// It is empty.
    ClipboardEmpty,
    /// It has no content of the kind that was asked for.
    NoMimeType,
    /// It could not be asked; the text says why.
    Other(String),
}

/// A [`PasteFailure`] as a mathematical value.
pub enum FailureView {
    ClipboardEmpty,
    NoMimeType,
    Other(Seq<char>),
}

impl View for PasteFailure {
    type V = FailureView;

    open spec fn view(&self) -> FailureView {
        match *self {
            PasteFailure::ClipboardEmpty => FailureView::ClipboardEmpty,
            PasteFailure::NoMimeType => FailureView::NoMimeType,
            PasteFailure::Other(reason) => FailureView::Other(reason@),
        }
    }
}

/// Whether the clipboard can be used, judged by the first question that it was asked.  That it has
/// nothing to give does not speak against it.
pub fn check_probe(answer: Result<(), PasteFailure>) -> (usable: Result<(), Error>)
    ensures
        match answer {
            Err(PasteFailure::Other(reason)) => usable matches Err(error) && error@
                == ErrorView::WaylandConnect(reason@),
            _ => usable is Ok,
        },
{
    match answer {
        Ok(_) => Ok(()),
        Err(PasteFailure::ClipboardEmpty) => Ok(()),
        Err(PasteFailure::NoMimeType) => Ok(()),
        Err(PasteFailure::Other(reason)) => Err(Error::WaylandConnect(reason)),
    }
}

/// What one look at the polled clipboard has given.
pub enum Reading {
    /// Content, under the name by which its owner calls its type.
    Content { mime: String, data: Vec<u8> },
    /// Content that could not be read.
    Unreadable,
    /// Nothing.
    Refused(PasteFailure),
}

/// A [`Reading`] as a mathematical value.
pub enum ReadingView {
    Content { mime: Seq<char>, data: Seq<u8> },
    Unreadable,
    Refused(FailureView),
}

impl View for Reading {
    type V = ReadingView;

    open spec fn view(&self) -> ReadingView {
        match *self {
            Reading::Content { mime, data } => ReadingView::Content { mime: mime@, data: data@ },
            Reading::Unreadable => ReadingView::Unreadable,
            Reading::Refused(failure) => ReadingView::Refused(failure@),
        }
    }
}

impl ReadingView {
    /// What the look has shown: content without a byte and content that could not be read show
    /// nothing.
    pub open spec fn sighting(self) -> Option<Sighting> {
        match self {
            ReadingView::Content { mime, data } => if data.len() > 0 {
                Some(
                    Sighting::Content {
                        mime_type: MimeView::of_wayland_name(mime),
                        data,
                        name: mime,
                    },
                )
            } else {
                None
            },
            ReadingView::Unreadable => None,
            ReadingView::Refused(FailureView::Other(_)) => None,
            ReadingView::Refused(_) => Some(Sighting::Gone),
        }
    }

    /// Why the clipboard is of no more use, if it is not.
    pub open spec fn breakdown(self) -> Option<Seq<char>> {
        match self {
            ReadingView::Refused(FailureView::Other(reason)) => Some(reason),
            _ => None,
        }
    }
}

/// When a watcher ends after a look.
#[derive(Debug, Clone, Copy, PartialEq, Eq, Structural)]
pub enum Ending {
    /// It goes on.
    Never,
    /// It ends if nobody listens any more.
    Undelivered,
    /// It ends.
    Always,
}

impl Ending {
    /// Whether the watcher goes on, where `delivered` says whether its report, if it made one, could
    /// be delivered.
    pub open spec fn lets_go_on(self, delivered: bool) -> bool {
        self is Never || (self is Undelivered && delivered)
    }

    /// Whether the watcher goes on, where `delivered` says whether its report, if it made one, could
    /// be delivered.
    pub fn goes_on(self, delivered: bool) -> (go_on: bool)
        ensures
            go_on == self.lets_go_on(delivered),
    {
        match self {
            Ending::Never => true,
            Ending::Undelivered => delivered,
            Ending::Always => false,
        }
    }
}

/// What a polling watcher does after a look.
pub enum PollReaction {
    /// It waits for the next look.
    Quiet,
    /// It reports an event and, unless nobody listens any more, waits for the next look.
    Emit(ClipboardEvent),
    /// It reports an event and ends.
    Abort(ClipboardEvent),
}

/// A [`PollReaction`] as a mathematical value.
#[verifier::ext_equal]
pub enum PollReactionView {
    Quiet,
    Emit(EventView),
    Abort(EventView),
}

impl View for PollReaction {
    type V = PollReactionView;

    open spec fn view(&self) -> PollReactionView {
        match *self {
            PollReaction::Quiet => PollReactionView::Quiet,
            PollReaction::Emit(event) => PollReactionView::Emit(event@),
            PollReaction::Abort(event) => PollReactionView::Abort(event@),
        }
    }
}

impl PollReactionView {
    /// Reporting an event, if there is one to report.
    pub open spec fn reporting(event: Option<EventView>) -> PollReactionView {
        match event {
            Some(event) => PollReactionView::Emit(event),
            None => PollReactionView::Quiet,
        }
    }

    /// The event to report.
    pub open spec fn report(self) -> Option<EventView> {
        match self {
            PollReactionView::Quiet => None,
            PollReactionView::Emit(event) => Some(event),
            PollReactionView::Abort(event) => Some(event),
        }
    }

    /// When the watcher ends.
    pub open spec fn ending(self) -> Ending {
        match self {
            PollReactionView::Quiet => Ending::Never,
            PollReactionView::Emit(_) => Ending::Undelivered,
            PollReactionView::Abort(_) => Ending::Always,
        }
    }
}

impl PollReaction {
    /// When the watcher ends.
    pub fn ending(&self) -> (ending: Ending)
        ensures
            ending == self@.ending(),
    {
        match self {
            PollReaction::Quiet => Ending::Never,
            PollReaction::Emit(_) => Ending::Undelivered,
            PollReaction::Abort(_) => Ending::Always,
        }
    }

    /// Whether the watcher goes on, where `delivered` says whether its report, if it made one, could
    /// be delivered: not after a breakdown, and not when nobody listens any more.
    pub fn goes_on(&self, delivered: bool) -> (go_on: bool)
        ensures
            go_on == (self@ is Quiet || (self@ is Emit && delivered)),
    {
        self.ending().goes_on(delivered)
    }

    /// The event to report.
    pub fn into_report(self) -> (event: Option<ClipboardEvent>)
        ensures
            optional::viewed(event) == self@.report(),
    {
        match self {
            PollReaction::Quiet => None,
            PollReaction::Emit(event) => Some(event),
            PollReaction::Abort(event) => Some(event),
        }
    }
}

impl LastView {
    /// What a watcher does that saw `self` last and now gets `reading`.
    pub open spec fn poll_reaction(self, reading: ReadingView) -> PollReactionView {
        match reading.breakdown() {
            Some(reason) => PollReactionView::Abort(
                EventView::Error(ErrorView::WaylandConnect(reason)),
            ),
            None => PollReactionView::reporting(self.look_event(reading.sighting())),
        }
    }
}

/// A watcher of a Wayland clipboard that can only be polled.
pub struct PollingWatcher {
    /// The clipboard to look at.
    pub clipboard: ClipboardKind,
    /// What to ask it for.
    pub request: PasteRequest,
    /// What was seen last.
    pub last: LastSeen,
}

impl PollingWatcher {
    /// A watcher that has not looked yet.
    pub fn new(mime_preferences: &Vec<String>, watch_primary: bool) -> (watcher: Self)
        ensures
            watcher.clipboard == (if watch_primary {
                ClipboardKind::Primary
            } else {
                ClipboardKind::Regular
            }),
            watcher.request == (if mime_preferences.deep_view().contains("image/png"@) {
                PasteRequest::Any
            } else {
                PasteRequest::Text
            }),
            watcher.last@ == LastView::nothing(),
    {
        PollingWatcher {
            clipboard: ClipboardKind::watched(watch_primary),
            request: PasteRequest::for_preferences(mime_preferences),
            last: LastSeen::new(),
        }
    }

    /// Handles what one look at the clipboard has given.
    pub fn poll(&mut self, reading: Reading) -> (reaction: PollReaction)
        ensures
            final(self).clipboard == old(self).clipboard,
            final(self).request == old(self).request,
            final(self).last@ == old(self).last@.after_look(reading@.sighting()),
            reaction@ == old(self).last@.poll_reaction(reading@),
    {
        let event = match reading {
            Reading::Content { mime, data } => {
                if data.len() == 0 {
                    None
                } else {
                    let mime_type = normalize_wayland_mime(mime.as_str());
                    self.last.observe(mime_type, data, mime)
                }
            },
            Reading::Unreadable => None,
            Reading::Refused(PasteFailure::Other(reason)) => {
                return PollReaction::Abort(ClipboardEvent::Error(Error::WaylandConnect(reason)));
            },
            Reading::Refused(_) => self.last.forget(),
        };
        match event {
            Some(event) => PollReaction::Emit(event),
            None => PollReaction::Quiet,
        }
    }
}

/// The looks that several readings stand for.
pub open spec fn sightings(readings: Seq<ReadingView>) -> Seq<Option<Sighting>> {
    readings.map_values(|reading: ReadingView| reading.sighting())
}

/// Whether the clipboard could no longer be asked in the course of several readings.
pub open spec fn broke_down(readings: Seq<ReadingView>) -> bool {
    exists|i: int| 0 <= i < readings.len() && (#[trigger] readings[i]).breakdown() is Some
}

/// All that a watcher that saw `last` reports in the course of several readings, in order.  It ends
/// with the first reading that shows that the clipboard can no longer be asked.
pub open spec fn poll_events(last: LastView, readings: Seq<ReadingView>) -> Seq<EventView>
    decreases readings.len(),
{
    if readings.len() == 0 {
        Seq::empty()
    } else {
        let before = readings.drop_last();
        let earlier = poll_events(last, before);
        if broke_down(before) {
            earlier
        } else {
            match last.after_looks(sightings(before)).poll_reaction(readings.last()) {
                PollReactionView::Quiet => earlier,
                PollReactionView::Emit(event) => earlier.push(event),
                PollReactionView::Abort(event) => earlier.push(event),
            }
        }
    }
}

/// The error that a watcher ends with.
pub open spec fn last_word(reading: ReadingView) -> EventView {
    EventView::Error(ErrorView::WaylandConnect(reading.breakdown()->0))
}

/// While the clipboard can be asked, a watcher reports what the looks that the readings stand for
/// give rise to.
proof fn lemma_poll_events_are_events(last: LastView, readings: Seq<ReadingView>)
    requires
        !broke_down(readings),
    ensures
        poll_events(last, readings) == last.events(sightings(readings)),
    decreases readings.len(),
{
    if readings.len() > 0 {
        let before = readings.drop_last();
        assert forall|i: int| 0 <= i < before.len() implies (#[trigger] before[i]).breakdown()
            is None by {
            assert(before[i] == readings[i]);
        }
        lemma_poll_events_are_events(last, before);
        assert(sightings(readings).drop_last() =~= sightings(before));
        assert(sightings(readings).last() == readings.last().sighting());
        assert(readings[readings.len() - 1].breakdown() is None);
        assert(poll_events(last, readings) =~= last.events(sightings(readings)));
    }
}

/// The events up to a breakdown are those of the readings before it, and the error.
proof fn lemma_poll_events_up_to_breakdown(
    last: LastView,
    readings: Seq<ReadingView>,
) -> (n: int)
    requires
        broke_down(readings),
    ensures
        0 <= n < readings.len(),
        !broke_down(readings.take(n)),
        readings[n].breakdown() is Some,
        poll_events(last, readings) == last.events(sightings(readings.take(n))).push(
            last_word(readings[n]),
        ),
    decreases readings.len(),
{
    let before = readings.drop_last();
    if broke_down(before) {
        let n = lemma_poll_events_up_to_breakdown(last, before);
        assert(before.take(n) =~= readings.take(n));
        n
    } else {
        let n = readings.len() - 1;
        let i = choose|i: int|
            0 <= i < readings.len() && (#[trigger] readings[i]).breakdown() is Some;
        if i < n {
            assert(before[i] == readings[i]);
        }
        assert(readings.take(n) =~= before);
        lemma_poll_events_are_events(last, before);
        n
    }
}

/// No event repeats the one before it: two reports of content in a row differ in type or data.
pub proof fn law_polling_never_repeats(readings: Seq<ReadingView>, i: int)
    requires
        0 < i < poll_events(LastView::nothing(), readings).len(),
        !(poll_events(LastView::nothing(), readings)[i] is Error),
    ensures
        ({
            let events = poll_events(LastView::nothing(), readings);
            LastView::told_by(events[i]) != LastView::told_by(events[i - 1])
        }),
{
    lemma_changes_differ(readings, i);
}

/// Two events in a row, unless the second one is an error, tell different things; so does the first
/// event from an empty clipboard.
proof fn lemma_changes_differ(readings: Seq<ReadingView>, i: int)
    requires
        0 <= i < poll_events(LastView::nothing(), readings).len(),
        !(poll_events(LastView::nothing(), readings)[i] is Error),
    ensures
        ({
            let events = poll_events(LastView::nothing(), readings);
            LastView::told_by(events[i]) != (if i == 0 {
                LastView::nothing()
            } else {
                LastView::told_by(events[i - 1])
            })
        }),
{
    let last = LastView::nothing();
    let events = poll_events(last, readings);
    let asked = if broke_down(readings) {
        let n = lemma_poll_events_up_to_breakdown(last, readings);
        readings.take(n)
    } else {
        lemma_poll_events_are_events(last, readings);
        readings
    };
    let changes = last.events(sightings(asked));
    assert(i < changes.len() && events[i] == changes[i]);
    crate::last_seen::law_events_never_repeat(last, sightings(asked), i);
    if i > 0 {
        assert(changes.take(i).last() == events[i - 1]);
    }
}

/// An emptied clipboard is reported directly after content, never first and never twice in a row,
/// however many readings find it empty.
pub proof fn law_emptying_follows_content(readings: Seq<ReadingView>, i: int)
    requires
        0 <= i < poll_events(LastView::nothing(), readings).len(),
        poll_events(LastView::nothing(), readings)[i] is Cleared,
    ensures
        i > 0,
        poll_events(LastView::nothing(), readings)[i - 1] is Changed,
{
    lemma_changes_differ(readings, i);
}

/// Once an emptied clipboard was reported, any content is reported when it is seen, be it the
/// content that was there before.
pub proof fn law_content_is_reported_after_emptying(
    last: LastView,
    readings: Seq<ReadingView>,
    mime: Seq<char>,
    data: Seq<u8>,
)
    requires
        poll_events(last, readings).len() > 0,
        poll_events(last, readings).last() is Cleared,
        data.len() > 0,
    ensures
        poll_events(last, readings.push(ReadingView::Content { mime, data })) == poll_events(
            last,
            readings,
        ).push(
            EventView::Changed(
                ContentView {
                    data,
                    mime_type: MimeView::of_wayland_name(mime),
                    available_types: seq![mime],
                },
            ),
        ),
{
    if broke_down(readings) {
        let n = lemma_poll_events_up_to_breakdown(last, readings);
        assert(poll_events(last, readings).last() == last_word(readings[n]));
    } else {
        lemma_poll_events_are_events(last, readings);
        crate::last_seen::law_events_tell_what_was_seen(last, sightings(readings));
        let reading = ReadingView::Content { mime, data };
        assert(readings.push(reading).drop_last() =~= readings);
        assert(readings.push(reading).last() == reading);
    }
}

/// An error is the last event of a watcher, and the watcher ends with one exactly if the clipboard
/// could no longer be asked.
pub proof fn law_error_is_the_last_event(last: LastView, readings: Seq<ReadingView>, i: int)
    requires
        0 <= i < poll_events(last, readings).len(),
    ensures
        poll_events(last, readings)[i] is Error <==> broke_down(readings) && i == poll_events(
            last,
            readings,
        ).len() - 1,
{
    let events = poll_events(last, readings);
    if broke_down(readings) {
        let n = lemma_poll_events_up_to_breakdown(last, readings);
        let changes = last.events(sightings(readings.take(n)));
        if i < changes.len() {
            lemma_changes_tell_of_readings(last, readings.take(n), i);
            assert(events[i] == changes[i]);
        }
    } else {
        lemma_poll_events_are_events(last, readings);
        lemma_changes_tell_of_readings(last, readings, i);
    }
}

/// Looks at the clipboard give rise to no error, and content that they report is content of one of
/// them.
proof fn lemma_changes_tell_of_readings(last: LastView, readings: Seq<ReadingView>, i: int)
    requires
        0 <= i < last.events(sightings(readings)).len(),
    ensures
        !(last.events(sightings(readings))[i] is Error),
        last.events(sightings(readings))[i] matches EventView::Changed(content)
            ==> content.data.len() > 0,
{
    let looks = sightings(readings);
    crate::last_seen::law_events_tell_of_looks(last, looks, i);
    let k = choose|k: int|
        0 <= k < looks.len() && (#[trigger] looks[k] matches Some(sighting)
            && crate::last_seen::tells(last.events(looks)[i], sighting));
    assert(looks[k] == readings[k].sighting());
}

/// After the clipboard could no longer be asked a watcher reports nothing more, whatever readings
/// there might be.
pub proof fn law_nothing_follows_a_breakdown(
    last: LastView,
    readings: Seq<ReadingView>,
    more: Seq<ReadingView>,
)
    requires
        broke_down(readings),
    ensures
        poll_events(last, readings + more) == poll_events(last, readings),
    decreases more.len(),
{
    if more.len() == 0 {
        assert(readings + more =~= readings);
    } else {
        let before = readings + more.drop_last();
        law_nothing_follows_a_breakdown(last, readings, more.drop_last());
        assert((readings + more).drop_last() =~= before);
        let i = choose|i: int|
            0 <= i < readings.len() && (#[trigger] readings[i]).breakdown() is Some;
        assert(before[i] == readings[i]);
    }
}

/// A polling watcher never reports content without a byte.
pub proof fn law_polled_content_has_bytes(last: LastView, readings: Seq<ReadingView>, i: int)
    requires
        0 <= i < poll_events(last, readings).len(),
    ensures
        poll_events(last, readings)[i] matches EventView::Changed(content) ==> content.data.len()
            > 0,
{
    if broke_down(readings) {
        let n = lemma_poll_events_up_to_breakdown(last, readings);
        if i < last.events(sightings(readings.take(n))).len() {
            lemma_changes_tell_of_readings(last, readings.take(n), i);
        }
    } else {
        lemma_poll_events_are_events(last, readings);
        lemma_changes_tell_of_readings(last, readings, i);
    }
}

/// A polling watcher ends only when the clipboard can no longer be asked, and then says why.
pub proof fn law_polling_ends_with_its_reason(last: LastView, reading: ReadingView)
    ensures
        (last.poll_reaction(reading) is Abort) == (reading.breakdown() is Some),
        last.poll_reaction(reading) matches PollReactionView::Abort(event) ==> event
            == EventView::Error(ErrorView::WaylandConnect(reading.breakdown()->0)),
        reading.breakdown() is Some ==> last.after_look(reading.sighting()) == last,
{
}

/// A reading, with whether a report that is made because of it can be delivered.
pub struct Turn {
    pub reading: ReadingView,
    pub delivered: bool,
}

/// The readings of several turns.
pub open spec fn readings_of(turns: Seq<Turn>) -> Seq<ReadingView> {
    turns.map_values(|turn: Turn| turn.reading)
}

/// What a watcher that saw `last` does in the last of several turns, if it has not ended before.
pub open spec fn last_reaction(last: LastView, turns: Seq<Turn>) -> PollReactionView {
    last.after_looks(sightings(readings_of(turns.drop_last()))).poll_reaction(
        turns.last().reading,
    )
}

/// Whether a watcher that saw `last` has ended after several turns.
pub open spec fn has_ended(last: LastView, turns: Seq<Turn>) -> bool
    decreases turns.len(),
{
    turns.len() > 0 && (has_ended(last, turns.drop_last()) || !last_reaction(
        last,
        turns,
    ).ending().lets_go_on(turns.last().delivered))
}

/// All that a watcher that saw `last` reports, or tries to, in several turns, in order.
pub open spec fn reports(last: LastView, turns: Seq<Turn>) -> Seq<EventView>
    decreases turns.len(),
{
    if turns.len() == 0 {
        Seq::empty()
    } else {
        let earlier = reports(last, turns.drop_last());
        if has_ended(last, turns.drop_last()) {
            earlier
        } else {
            earlier + optional::as_seq(last_reaction(last, turns).report())
        }
    }
}

/// A watcher that has not ended ends in a turn exactly if the clipboard can no longer be asked, or
/// if it has something to report that cannot be delivered.
pub proof fn law_watcher_ends_when_unheard(last: LastView, turns: Seq<Turn>)
    requires
        turns.len() > 0,
        !has_ended(last, turns.drop_last()),
    ensures
        has_ended(last, turns) <==> turns.last().reading.breakdown() is Some || (last_reaction(
            last,
            turns,
        ).report() is Some && !turns.last().delivered),
{
}

/// A watcher that has ended reports nothing more, whatever turns there might be.
pub proof fn law_nothing_follows_the_end(last: LastView, turns: Seq<Turn>, more: Seq<Turn>)
    requires
        has_ended(last, turns),
    ensures
        has_ended(last, turns + more),
        reports(last, turns + more) == reports(last, turns),
    decreases more.len(),
{
    if more.len() == 0 {
        assert(turns + more =~= turns);
    } else {
        law_nothing_follows_the_end(last, turns, more.drop_last());
        assert((turns + more).drop_last() =~= turns + more.drop_last());
    }
}

/// While every report is delivered, a watcher reports all the events of its readings, and ends only
/// when the clipboard can no longer be asked.
pub proof fn law_heard_watcher_reports_all(last: LastView, turns: Seq<Turn>)
    requires
        forall|i: int| 0 <= i < turns.len() ==> (#[trigger] turns[i]).delivered,
    ensures
        reports(last, turns) == poll_events(last, readings_of(turns)),
        has_ended(last, turns) == broke_down(readings_of(turns)),
    decreases turns.len(),
{
    let readings = readings_of(turns);
    if turns.len() > 0 {
        let before = turns.drop_last();
        assert forall|i: int| 0 <= i < before.len() implies (#[trigger] before[i]).delivered by {
            assert(before[i] == turns[i]);
        }
        law_heard_watcher_reports_all(last, before);
        assert(readings.drop_last() =~= readings_of(before));
        assert(readings.last() == turns.last().reading);
        assert(turns[turns.len() - 1].delivered);
        if broke_down(readings_of(before)) {
            let i = choose|i: int|
                0 <= i < before.len() && (#[trigger] readings_of(before)[i]).breakdown() is Some;
            assert(readings[i] == readings_of(before)[i]);
        } else {
            if readings.last().breakdown() is Some {
                assert(readings[readings.len() - 1].breakdown() is Some);
            } else {
                assert forall|i: int| 0 <= i < readings.len() implies (
                #[trigger] readings[i]).breakdown() is None by {
                    if i < before.len() {
                        assert(readings_of(before)[i] == readings[i]);
                    }
                }
            }
        }
        assert(reports(last, turns) =~= poll_events(last, readings));
    }
}

/// The clipboard is looked at five times a second.
pub proof fn law_polling_is_frequent()
    ensures
        POLL_INTERVAL_MILLIS * 5 == 1000,
{
}

/// Whatever content was seen last, a clipboard that turns out to be empty, or to have nothing of the
/// kind that is asked for, is reported as emptied, and the content is forgotten; a clipboard that was
/// empty already is not reported again.
pub proof fn law_emptied_clipboard_is_reported(last: LastView, reading: ReadingView)
    requires
        reading == ReadingView::Refused(FailureView::ClipboardEmpty) || reading
            == ReadingView::Refused(FailureView::NoMimeType),
    ensures
        last.content is Some ==> last.poll_reaction(reading) == PollReactionView::Emit(
            EventView::Cleared,
        ),
        last.content is None ==> last.poll_reaction(reading) is Quiet,
        last.after_look(reading.sighting()).content is None,
{
}

/// Content with at least one byte is remembered, and is reported exactly if it differs in type or
/// bytes from what was seen last; the report holds its bytes and its name.
pub proof fn law_new_content_is_reported(last: LastView, mime: Seq<char>, data: Seq<u8>)
    requires
        data.len() > 0,
    ensures
        ({
            let reading = ReadingView::Content { mime, data };
            let seen = (MimeView::of_wayland_name(mime), data);
            &&& last.after_look(reading.sighting()).content == Some(seen)
            &&& last.content == Some(seen) ==> last.poll_reaction(reading) is Quiet
            &&& last.content != Some(seen) ==> (last.poll_reaction(reading)
                matches PollReactionView::Emit(EventView::Changed(content)) && content.data == data
                && content.mime_type == seen.0 && content.available_types.len() == 1
                && content.available_types[0] == mime)
        }),
{
}

/// A reading without a byte and one that failed half-way change nothing: nothing is reported, and
/// what was seen last stays remembered.
pub proof fn law_useless_readings_change_nothing(last: LastView, mime: Seq<char>)
    ensures
        ({
            let empty = ReadingView::Content { mime, data: Seq::empty() };
            &&& last.poll_reaction(empty) is Quiet
            &&& last.after_look(empty.sighting()) == last
            &&& last.poll_reaction(ReadingView::Unreadable) is Quiet
            &&& last.after_look(ReadingView::Unreadable.sighting()) == last
        }),
{
}

/// A clipboard that can no longer be asked ends the watcher, whatever was seen last, with an error
/// that holds the reason.
pub proof fn law_breakdown_is_an_error(last: LastView, reason: Seq<char>)
    ensures
        ({
            let reading = ReadingView::Refused(FailureView::Other(reason));
            &&& last.poll_reaction(reading) == PollReactionView::Abort(
                EventView::Error(ErrorView::WaylandConnect(reason)),
            )
            &&& last.after_look(reading.sighting()) == last
        }),
{
}

/// Content that is copied again after the clipboard was empty is reported again, whatever content
/// it is and whatever was seen before.
pub proof fn law_recopied_content_is_reported(last: LastView, mime: Seq<char>, data: Seq<u8>)
    requires
        data.len() > 0,
    ensures
        ({
            let copied = ReadingView::Content { mime, data };
            let gone = ReadingView::Refused(FailureView::ClipboardEmpty);
            let seen = last.after_look(copied.sighting());
            let emptied = seen.after_look(gone.sighting());
            &&& seen.poll_reaction(copied) is Quiet
            &&& seen.poll_reaction(gone) == PollReactionView::Emit(EventView::Cleared)
            &&& emptied.poll_reaction(gone) is Quiet
            &&& emptied.poll_reaction(copied) is Emit
        }),
{
}

/// A watcher that keeps quiet reports nothing and goes on.  Of the other two reactions each reports its
/// event; after one the watcher goes on exactly if the event was delivered, after the other never.
pub proof fn law_reactions_say_what_follows(event: EventView, delivered: bool)
    ensures
        PollReactionView::Quiet.report() is None,
        PollReactionView::Emit(event).report() == Some(event),
        PollReactionView::Abort(event).report() == Some(event),
        PollReactionView::Quiet.ending().lets_go_on(delivered),
        PollReactionView::Emit(event).ending().lets_go_on(delivered) == delivered,
        !PollReactionView::Abort(event).ending().lets_go_on(delivered),
        Ending::Never.lets_go_on(delivered),
        Ending::Undelivered.lets_go_on(delivered) == delivered,
        !Ending::Always.lets_go_on(delivered),
        PollReactionView::Quiet.ending() is Never,
        PollReactionView::Emit(event).ending() is Undelivered,
        PollReactionView::Abort(event).ending() is Always,
{
}

/// The mathematical values hold what the readings and reactions hold.
pub proof fn law_polling_views(
    reason: String,
    mime: String,
    data: Vec<u8>,
    failure: PasteFailure,
    event: ClipboardEvent,
)
    ensures
        PasteFailure::ClipboardEmpty@ == FailureView::ClipboardEmpty,
        PasteFailure::NoMimeType@ == FailureView::NoMimeType,
        PasteFailure::Other(reason)@ == FailureView::Other(reason@),
        (Reading::Content { mime, data })@ == (ReadingView::Content { mime: mime@, data: data@ }),
        Reading::Unreadable@ == ReadingView::Unreadable,
        Reading::Refused(failure)@ == ReadingView::Refused(failure@),
        PollReaction::Quiet@ == PollReactionView::Quiet,
        PollReaction::Emit(event)@ == PollReactionView::Emit(event@),
        PollReaction::Abort(event)@ == PollReactionView::Abort(event@),
{
}

} // verus!
