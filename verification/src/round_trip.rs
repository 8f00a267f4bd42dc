//! What a writer puts on the clipboard is what a watcher sees there.
//!
//! The laws of this module join the two sides.  Between them stands the compositor or the X server,
//! which is taken to hand on what it is given: the types that are announced, the requests, the
//! bytes.
use vstd::prelude::*;

use crate::builder::SettingsView;
use crate::content::{ContentView, EventView};
use crate::last_seen::LastView;
use crate::mime::MimeView;
use crate::offers::{Offer, OutcomeView, WatcherView};
use crate::polling::{PollReactionView, ReadingView};
use crate::writer::{CommandView, SourceActionView, SourceEventView, WriterView};
use crate::x11::{X11PreferenceView, X11TargetView, X11WatcherView};

verus! {

/// Content that is put on the clipboard of a Wayland compositor is read back byte for byte, by a
/// watcher that wants any of its types: the watcher asks for the most preferred of them, is granted
/// the request, and reports the bytes under that type together with all the types that were
/// announced.  A watcher that wants none of them asks for nothing.
pub proof fn law_written_content_is_read_back<S, M, D, O>(
    writer: WriterView<S, M, D>,
    watcher: WatcherView<O>,
    command: CommandView,
    offer: Offer<O>,
    selected: Offer<O>,
)
    requires
        writer.ready(),
        !(command is Shutdown),
        selected.id == offer.id,
    ensures
        ({
            let content = command.content()->0;
            let written = writer.after_set(content);
            let announced = writer.announcement(content)->0;
            let outcome = watcher.after_description(offer, announced).selection_reaction(
                Some(selected),
            ).outcome;
            &&& writer.announcement(content) == Some(command.mime_types())
            &&& match crate::preference::first_available(
                watcher.preferences,
                command.mime_types(),
            ) {
                None => outcome == OutcomeView::<O>::Nothing,
                Some(wanted) => outcome matches OutcomeView::Receive { offer: source, mime, transfer }
                    && {
                    &&& source == offer
                    &&& mime == wanted
                    &&& written.source_action(SourceEventView::Send(mime))
                        == SourceActionView::Write(command.data()->0)
                    &&& transfer.report(command.data()->0, true) == Some(
                        EventView::Changed(
                            ContentView {
                                data: command.data()->0,
                                mime_type: MimeView::of_name(wanted),
                                available_types: command.mime_types(),
                            },
                        ),
                    )
                },
            }
        }),
{
    crate::offers::law_described_selection_is_read(watcher, offer, command.mime_types(), selected);
    crate::preference::law_best_is_preferred(watcher.preferences, command.mime_types());
}

/// The names that have a part in the default settings differ from one another.
proof fn lemma_default_names()
    ensures
        "text/plain;charset=utf-8"@ != "text/plain"@,
        "text/plain;charset=utf-8"@ != "image/png"@,
        "text/plain"@ != "image/png"@,
        MimeView::of_name("text/plain;charset=utf-8"@) == MimeView::TextPlainUtf8,
        MimeView::of_name("text/plain"@) == MimeView::TextPlain,
        MimeView::of_name("image/png"@) == MimeView::ImagePng,
{
    crate::mime::lemma_name_lengths();
}

/// A watcher with the default settings asks for UTF-8 text where there is text that a writer has
/// put on the clipboard, and for an image where there is an image.
pub proof fn law_defaults_want_what_writers_offer(command: CommandView)
    requires
        !(command is Shutdown),
    ensures
        crate::preference::first_available(
            SettingsView::defaults().preferences,
            command.mime_types(),
        ) == Some(
            if command is SetText {
                MimeView::TextPlainUtf8.name()
            } else {
                MimeView::ImagePng.name()
            },
        ),
{
    lemma_default_names();
    reveal_with_fuel(crate::preference::first_available, 4);
    let wanted = SettingsView::defaults().preferences;
    let offered = command.mime_types();
    assert(wanted.first() == "text/plain;charset=utf-8"@);
    assert(wanted.drop_first().first() == "text/plain"@);
    assert(wanted.drop_first().drop_first().first() == "image/png"@);
    if command is SetText {
        assert(offered[0] == "text/plain;charset=utf-8"@);
    } else {
        assert(offered[0] == "image/png"@);
        assert(!offered.contains("text/plain;charset=utf-8"@));
        assert(!offered.contains("text/plain"@));
    }
}

/// The bytes that a text is put on the clipboard as are valid UTF-8 and decode to that text.
pub proof fn law_written_text_decodes(text: Seq<char>)
    ensures
        vstd::utf8::valid_utf8(CommandView::SetText(text).data()->0),
        vstd::utf8::decode_utf8(CommandView::SetText(text).data()->0) == text,
        CommandView::SetText(text).data()->0.len() == 0 <==> text.len() == 0,
{
    vstd::utf8::encode_utf8_valid_utf8(text);
    vstd::utf8::encode_utf8_decode_utf8(text);
    let bytes = vstd::utf8::encode_utf8(text);
    if bytes.len() == 0 {
        assert(vstd::utf8::decode_utf8(bytes).len() == 0);
    }
    if text.len() == 0 {
        assert(bytes.len() == 0);
    }
}

/// What each target of an X server gives once `data` is stored under one of them.
pub open spec fn stored(
    targets: Seq<X11TargetView>,
    target: u32,
    data: Seq<u8>,
) -> Seq<Option<Seq<u8>>> {
    targets.map_values(
        |tried: X11TargetView|
            if tried.target == target {
                Some(data)
            } else {
                None
            },
    )
}

/// What a watcher with the default settings wants of an X server that has an atom for images.
pub open spec fn default_x11_preferences(png_atom: u32) -> Seq<X11PreferenceView> {
    SettingsView::defaults().preferences.map_values(
        |mime: Seq<char>|
            X11PreferenceView {
                mime,
                atom: if crate::x11::is_text(MimeView::of_name(mime)) {
                    None
                } else {
                    Some(png_atom)
                },
            },
    )
}

/// Every target stands for a preference that has it.
proof fn lemma_targets_have_preferences(
    preferences: Seq<X11PreferenceView>,
    utf8_string: u32,
    i: int,
)
    requires
        0 <= i < crate::x11::targets_of(preferences, utf8_string).len(),
    ensures
        exists|k: int|
            0 <= k < preferences.len() && (#[trigger] preferences[k]).target(utf8_string) == Some(
                crate::x11::targets_of(preferences, utf8_string)[i],
            ),
    decreases preferences.len(),
{
    let before = preferences.drop_last();
    let earlier = crate::x11::targets_of(before, utf8_string);
    if i < earlier.len() {
        lemma_targets_have_preferences(before, utf8_string, i);
        let k = choose|k: int|
            0 <= k < before.len() && (#[trigger] before[k]).target(utf8_string) == Some(earlier[i]);
        assert(preferences[k] == before[k]);
    } else {
        assert(preferences[preferences.len() - 1] == preferences.last());
    }
}

/// Where no preference has a target, none of the targets to try is that one.
proof fn lemma_target_is_absent(
    preferences: Seq<X11PreferenceView>,
    utf8_string: u32,
    target: u32,
)
    requires
        forall|j: int|
            0 <= j < preferences.len() ==> !asks_for(
                #[trigger] preferences[j],
                utf8_string,
                target,
            ),
    ensures
        forall|i: int|
            0 <= i < crate::x11::targets_of(preferences, utf8_string).len() ==> (
            #[trigger] crate::x11::targets_of(preferences, utf8_string)[i]).target != target,
{
    let targets = crate::x11::targets_of(preferences, utf8_string);
    assert forall|i: int| 0 <= i < targets.len() implies (#[trigger] targets[i]).target
        != target by {
        lemma_targets_have_preferences(preferences, utf8_string, i);
        let k = choose|k: int|
            0 <= k < preferences.len() && (#[trigger] preferences[k]).target(utf8_string) == Some(
                targets[i],
            );
        assert(!asks_for(preferences[k], utf8_string, target));
    }
}

/// Whether a preference is served by asking for a target.
pub open spec fn asks_for(preference: X11PreferenceView, utf8_string: u32, target: u32) -> bool {
    preference.target(utf8_string) matches Some(tried) && tried.target == target
}

/// Content that is put on the clipboard of an X server is seen by a watcher under the first of its
/// preferences that asks for the target under which the content is stored: with the same bytes, and
/// as the type that the preference stands for.  It is reported unless the watcher has just seen the
/// same.
pub proof fn law_stored_content_is_seen(
    watcher: X11WatcherView,
    preferences: Seq<X11PreferenceView>,
    command: CommandView,
    utf8_string: u32,
    png_atom: u32,
    first: int,
)
    requires
        watcher.targets == crate::x11::targets_of(preferences, utf8_string),
        command.x11_store(utf8_string, png_atom) matches Some(store) && store.data.len() > 0,
        0 <= first < preferences.len(),
        asks_for(
            preferences[first],
            utf8_string,
            command.x11_store(utf8_string, png_atom)->0.target,
        ),
        forall|j: int|
            0 <= j < first ==> !asks_for(
                #[trigger] preferences[j],
                utf8_string,
                command.x11_store(utf8_string, png_atom)->0.target,
            ),
    ensures
        ({
            let store = command.x11_store(utf8_string, png_atom)->0;
            let mime_type = MimeView::of_name(preferences[first].mime);
            let seen = LastView { content: Some((mime_type, store.data)) };
            let look = watcher.look(stored(watcher.targets, store.target, store.data));
            &&& look.0.last == seen
            &&& look.1 == (if watcher.last == seen {
                None
            } else {
                Some(
                    EventView::Changed(
                        ContentView {
                            data: store.data,
                            mime_type,
                            available_types: seq![preferences[first].mime],
                        },
                    ),
                )
            })
        }),
{
    let store = command.x11_store(utf8_string, png_atom)->0;
    let before = preferences.take(first);
    let rest = preferences.skip(first + 1);
    let upto = preferences.take(first + 1);
    let earlier = crate::x11::targets_of(before, utf8_string);
    assert forall|j: int| 0 <= j < before.len() implies !asks_for(
        #[trigger] before[j],
        utf8_string,
        store.target,
    ) by {
        assert(before[j] == preferences[j]);
    }
    lemma_target_is_absent(before, utf8_string, store.target);
    assert(upto + rest =~= preferences);
    assert(upto.drop_last() =~= before);
    assert(upto.last() == preferences[first]);
    crate::x11::law_targets_keep_the_order(upto, rest, utf8_string);
    let index = earlier.len() as int;
    assert(watcher.targets[index] == preferences[first].target(utf8_string)->0);
    let answers = stored(watcher.targets, store.target, store.data);
    assert forall|i: int| 0 <= i < index implies !X11WatcherView::gives(#[trigger] answers[i]) by {
        assert(watcher.targets[i] == earlier[i]);
    }
    crate::x11::law_look_takes_the_first_target(watcher, answers, index);
}

/// A watcher none of whose preferences asks for the target under which content is stored does not
/// see the content.
pub proof fn law_unwanted_content_is_not_seen(
    watcher: X11WatcherView,
    preferences: Seq<X11PreferenceView>,
    utf8_string: u32,
    target: u32,
    data: Seq<u8>,
)
    requires
        watcher.targets == crate::x11::targets_of(preferences, utf8_string),
        forall|j: int|
            0 <= j < preferences.len() ==> !asks_for(
                #[trigger] preferences[j],
                utf8_string,
                target,
            ),
    ensures
        ({
            let look = watcher.look(stored(watcher.targets, target, data));
            look.0.last == watcher.last && look.1 is None
        }),
{
    lemma_target_is_absent(preferences, utf8_string, target);
    let answers = stored(watcher.targets, target, data);
    crate::x11::law_look_at_nothing_is_silent(watcher, answers);
}

/// With the default settings, text on the clipboard of an X server is seen as UTF-8 text, and an
/// image as an image.
pub proof fn law_defaults_see_text_and_images(
    watcher: X11WatcherView,
    command: CommandView,
    utf8_string: u32,
    png_atom: u32,
)
    requires
        watcher.targets == crate::x11::targets_of(default_x11_preferences(png_atom), utf8_string),
        command is SetText || utf8_string != png_atom,
        command.data() matches Some(data) && data.len() > 0,
    ensures
        ({
            let store = command.x11_store(utf8_string, png_atom)->0;
            let mime_type = if command is SetText {
                MimeView::TextPlainUtf8
            } else {
                MimeView::ImagePng
            };
            let look = watcher.look(stored(watcher.targets, store.target, store.data));
            look.0.last == (LastView { content: Some((mime_type, command.data()->0)) })
        }),
{
    lemma_default_names();
    let wanted = default_x11_preferences(png_atom);
    assert(wanted[0].mime == "text/plain;charset=utf-8"@);
    assert(wanted[1].mime == "text/plain"@);
    assert(wanted[2].mime == "image/png"@);
    let first: int = if command is SetText {
        0
    } else {
        2
    };
    law_stored_content_is_seen(watcher, wanted, command, utf8_string, png_atom, first);
}

/// Content that was put on the clipboard and comes back when the clipboard is polled, under
/// whatever name, is seen with the same bytes and as the type that the name stands for; it is
/// reported unless the watcher has just seen the same.
pub proof fn law_polled_content_is_seen(last: LastView, command: CommandView, name: Seq<char>)
    requires
        command.data() matches Some(data) && data.len() > 0,
    ensures
        ({
            let reading = ReadingView::Content { mime: name, data: command.data()->0 };
            let mime_type = MimeView::of_wayland_name(name);
            let seen = LastView { content: Some((mime_type, command.data()->0)) };
            &&& last.after_look(reading.sighting()) == seen
            &&& last.poll_reaction(reading) == (if last == seen {
                PollReactionView::Quiet
            } else {
                PollReactionView::Emit(
                    EventView::Changed(
                        ContentView {
                            data: command.data()->0,
                            mime_type,
                            available_types: seq![name],
                        },
                    ),
                )
            })
        }),
{
}

} // verus!
