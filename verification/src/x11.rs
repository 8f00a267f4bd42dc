//! Watching the clipboard of an X server.
//!
//! The X server tells no one that the clipboard has changed, so it is polled.  Content is asked for
//! by *target*: an atom, that is a number that the server has given to a name.  The targets are
//! tried in the order of preference until one of them gives content.
use vstd::prelude::*;

use crate::content::{ClipboardEvent, EventView};
use crate::error::{Error, ErrorView};
use crate::last_seen::{LastSeen, LastView, Sighting};
use crate::mime::{MimeType, MimeView};
use crate::optional;
use crate::polling::Ending;

verus! {

/// How long to wait between two looks at the X11 clipboard, in milliseconds.
pub const X11_POLL_INTERVAL_MILLIS: u64 = 150;

/// How long to wait for the content of one target, in milliseconds.
pub const X11_LOAD_TIMEOUT_MILLIS: u64 = 100;

/// The error when the X server cannot be reached; `reason` says why.
pub fn x11_connect_failed(reason: String) -> (error: Error)
    ensures
        error@ == ErrorView::X11Connect(reason@),
{
    Error::X11Connect(reason)
}

/// Whether `mime` is one of the types of text that have a target of their own.
pub open spec fn is_text(mime: MimeView) -> bool {
    mime is TextPlain || mime is TextPlainUtf8
}

/// Whether the server has to be asked for the atom of a MIME type: text needs none, it has a target
/// of its own.
pub fn needs_atom(mime: &str) -> (needed: bool)
    ensures
        needed == !is_text(MimeView::of_name(mime@)),
{
    match MimeType::from_mime(mime) {
        MimeType::TextPlain => false,
        MimeType::TextPlainUtf8 => false,
        _ => true,
    }
}

/// A MIME type that is wanted, with the atom that the server has for it, if it was asked and has
/// one.
pub struct X11Preference {
    pub mime: String,
    pub atom: Option<u32>,
}

/// An [`X11Preference`] as a mathematical value.
#[verifier::ext_equal]
pub struct X11PreferenceView {
    pub mime: Seq<char>,
    pub atom: Option<u32>,
}

impl View for X11Preference {
    type V = X11PreferenceView;

    open spec fn view(&self) -> X11PreferenceView {
        X11PreferenceView { mime: self.mime@, atom: self.atom }
    }
}

impl DeepView for X11Preference {
    type V = X11PreferenceView;

    open spec fn deep_view(&self) -> X11PreferenceView {
        self@
    }
}

/// A target to try, with the MIME type that it stands for.
pub struct X11Target {
    pub mime: String,
    pub mime_type: MimeType,
    pub target: u32,
}

/// An [`X11Target`] as a mathematical value.
#[verifier::ext_equal]
pub struct X11TargetView {
    pub mime: Seq<char>,
    pub mime_type: MimeView,
    pub target: u32,
}

impl View for X11Target {
    type V = X11TargetView;

    open spec fn view(&self) -> X11TargetView {
        X11TargetView { mime: self.mime@, mime_type: self.mime_type@, target: self.target }
    }
}

impl DeepView for X11Target {
    type V = X11TargetView;

    open spec fn deep_view(&self) -> X11TargetView {
        self@
    }
}

impl X11PreferenceView {
    /// The target for a wanted type: the one of UTF-8 text for text, the type's own atom for
    /// anything else, and none where the server has no atom for it.
    pub open spec fn target(self, utf8_string: u32) -> Option<X11TargetView> {
        let mime_type = MimeView::of_name(self.mime);
        if is_text(mime_type) {
            Some(X11TargetView { mime: self.mime, mime_type, target: utf8_string })
        } else {
            match self.atom {
                Some(target) => Some(X11TargetView { mime: self.mime, mime_type, target }),
                None => None,
            }
        }
    }
}

/// The targets for several wanted types, in the same order, without the types that have none.
pub open spec fn targets_of(
    preferences: Seq<X11PreferenceView>,
    utf8_string: u32,
) -> Seq<X11TargetView>
    decreases preferences.len(),
{
    if preferences.len() == 0 {
        Seq::empty()
    } else {
        targets_of(preferences.drop_last(), utf8_string) + optional::as_seq(
            preferences.last().target(utf8_string),
        )
    }
}

/// The target for a wanted type, where `utf8_string` is the target of UTF-8 text.
pub fn x11_target(preference: &X11Preference, utf8_string: u32) -> (target: Option<X11Target>)
    ensures
        optional::viewed(target) == preference@.target(utf8_string),
{
    let mime_type = MimeType::from_mime(preference.mime.as_str());
    let target = match mime_type {
        MimeType::TextPlain => utf8_string,
        MimeType::TextPlainUtf8 => utf8_string,
        _ => match preference.atom {
            Some(target) => target,
            None => {
                return None;
            },
        },
    };
    Some(X11Target { mime: preference.mime.clone(), mime_type, target })
}

/// The targets for several wanted types, where `utf8_string` is the target of UTF-8 text.
pub fn x11_targets(preferences: &Vec<X11Preference>, utf8_string: u32) -> (targets: Vec<X11Target>)
    ensures
        targets.deep_view() == targets_of(preferences.deep_view(), utf8_string),
{
    let ghost wanted = preferences.deep_view();
    let mut targets: Vec<X11Target> = Vec::new();
    let mut i: usize = 0;
    assert(targets.deep_view() =~= targets_of(wanted.take(0), utf8_string));
    while i < preferences.len()
        invariant
            i <= preferences@.len(),
            wanted == preferences.deep_view(),
            targets.deep_view() == targets_of(wanted.take(i as int), utf8_string),
        decreases preferences@.len() - i,
    {
        let ghost earlier = targets.deep_view();
        assert(wanted.take(i + 1).drop_last() =~= wanted.take(i as int));
        assert(wanted.take(i + 1).last() == preferences@[i as int]@);
        match x11_target(&preferences[i], utf8_string) {
            Some(target) => {
                targets.push(target);
                assert(targets.deep_view() =~= earlier + seq![target@]);
            },
            None => {
                assert(targets.deep_view() =~= earlier + Seq::empty());
            },
        }
        i = i + 1;
    }
    assert(wanted.take(i as int) =~= wanted);
    targets
}

/// What a watcher of the X11 clipboard does next.
pub enum X11Action {
    /// It asks for the content of a target.
    Load(u32),
    /// It has ended a look; it reports an event, if there is one to report, and waits for the next
    /// look.
    Finish(Option<ClipboardEvent>),
}

/// An [`X11Action`] as a mathematical value.
#[verifier::ext_equal]
pub enum X11ActionView {
    Load(u32),
    Finish(Option<EventView>),
}

impl View for X11Action {
    type V = X11ActionView;

    open spec fn view(&self) -> X11ActionView {
        match *self {
            X11Action::Load(target) => X11ActionView::Load(target),
            X11Action::Finish(Some(event)) => X11ActionView::Finish(Some(event@)),
            X11Action::Finish(None) => X11ActionView::Finish(None),
        }
    }
}

impl X11ActionView {
    /// When the watcher ends.
    pub open spec fn ending(self) -> Ending {
        match self {
            X11ActionView::Finish(Some(_)) => Ending::Undelivered,
            _ => Ending::Never,
        }
    }
}

impl X11Action {
    /// When the watcher ends.
    pub fn ending(&self) -> (ending: Ending)
        ensures
            ending == self@.ending(),
    {
        match self {
            X11Action::Finish(Some(_)) => Ending::Undelivered,
            _ => Ending::Never,
        }
    }

    /// Whether the watcher goes on, where `delivered` says whether its report, if it made one, could
    /// be delivered: not when nobody listens any more.
    pub fn goes_on(&self, delivered: bool) -> (go_on: bool)
        ensures
            go_on == (delivered || !(self@ matches X11ActionView::Finish(Some(_)))),
    {
        self.ending().goes_on(delivered)
    }
}

/// A watcher of the X11 clipboard.
pub struct X11Watcher {
    /// The targets to try, the most wanted first.
    pub targets: Vec<X11Target>,
    /// What was seen last.
    pub last: LastSeen,
    /// The target that is being tried, as an index; the number of targets between two looks.
    pub trying: usize,
}

/// An [`X11Watcher`] as a mathematical value.
#[verifier::ext_equal]
pub struct X11WatcherView {
    pub targets: Seq<X11TargetView>,
    pub last: LastView,
    pub trying: int,
}

impl View for X11Watcher {
    type V = X11WatcherView;

    open spec fn view(&self) -> X11WatcherView {
        X11WatcherView {
            targets: self.targets.deep_view(),
            last: self.last@,
            trying: self.trying as int,
        }
    }
}

impl X11WatcherView {
    /// Whether a look has begun and not ended.
    pub open spec fn looking(self) -> bool {
        0 <= self.trying < self.targets.len()
    }

    /// Between two looks.
    pub open spec fn resting(targets: Seq<X11TargetView>, last: LastView) -> X11WatcherView {
        X11WatcherView { targets, last, trying: targets.len() as int }
    }

    /// Trying the target at `index`; past the last target the look ends with nothing to report.
    pub open spec fn at(self, index: int) -> X11WatcherView {
        X11WatcherView { trying: index, ..self }
    }

    /// What is done when the target at `index` comes next.
    pub open spec fn action_at(self, index: int) -> X11ActionView {
        if index < self.targets.len() {
            X11ActionView::Load(self.targets[index].target)
        } else {
            X11ActionView::Finish(None)
        }
    }

    /// What the target at `index` has shown by giving `data`: nothing, where it gave no byte.
    pub open spec fn sighting(self, index: int, data: Option<Seq<u8>>) -> Option<Sighting> {
        match data {
            Some(data) => if data.len() > 0 {
                Some(
                    Sighting::Content {
                        mime_type: self.targets[index].mime_type,
                        data,
                        name: self.targets[index].mime,
                    },
                )
            } else {
                None
            },
            None => None,
        }
    }

    /// The state once the target that is being tried has given `data`, or nothing.
    pub open spec fn after_load(self, data: Option<Seq<u8>>) -> X11WatcherView {
        if !self.looking() {
            self
        } else {
            match self.sighting(self.trying, data) {
                Some(sighting) => X11WatcherView::resting(self.targets, self.last.after(sighting)),
                None => self.at(self.trying + 1),
            }
        }
    }

    /// What is done once the target that is being tried has given `data`, or nothing.
    pub open spec fn load_action(self, data: Option<Seq<u8>>) -> X11ActionView {
        if !self.looking() {
            X11ActionView::Finish(None)
        } else {
            match self.sighting(self.trying, data) {
                Some(sighting) => X11ActionView::Finish(self.last.news(sighting)),
                None => self.action_at(self.trying + 1),
            }
        }
    }
}

impl X11Watcher {
    /// A watcher that has not looked yet.
    pub fn new(targets: Vec<X11Target>) -> (watcher: Self)
        ensures
            watcher@ == X11WatcherView::resting(targets.deep_view(), LastView::nothing()),
    {
        let trying = targets.len();
        X11Watcher { targets, last: LastSeen::new(), trying }
    }

    /// What to do about the target at `trying`.
    fn action(&self) -> (action: X11Action)
        ensures
            action@ == self@.action_at(self@.trying),
    {
        if self.trying < self.targets.len() {
            X11Action::Load(self.targets[self.trying].target)
        } else {
            X11Action::Finish(None)
        }
    }

    /// Begins a look at the clipboard.
    pub fn begin(&mut self) -> (action: X11Action)
        ensures
            final(self)@ == old(self)@.at(0),
            action@ == old(self)@.action_at(0),
    {
        self.trying = 0;
        self.action()
    }

    /// Handles what the target that is being tried has given: `None` where it gave nothing.
    /// Between two looks no target is being tried, and nothing happens.
    pub fn loaded(&mut self, data: Option<Vec<u8>>) -> (action: X11Action)
        ensures
            ({
                let bytes = optional::viewed(data);
                &&& final(self)@ == old(self)@.after_load(bytes)
                &&& action@ == old(self)@.load_action(bytes)
            }),
    {
        if self.trying >= self.targets.len() {
            return X11Action::Finish(None);
        }
        match data {
            Some(data) => {
                if data.len() > 0 {
                    let mime_type = self.targets[self.trying].mime_type.clone();
                    let name = self.targets[self.trying].mime.clone();
                    self.trying = self.targets.len();
                    return X11Action::Finish(self.last.observe(mime_type, data, name));
                }
            },
            None => {},
        }
        self.trying = self.trying + 1;
        self.action()
    }
}

impl X11WatcherView {
    /// Whether `answers` holds what each target gives.
    pub open spec fn answered_by(self, answers: Seq<Option<Seq<u8>>>) -> bool {
        answers.len() == self.targets.len()
    }

    /// Whether a target gives content.
    pub open spec fn gives(answer: Option<Seq<u8>>) -> bool {
        answer matches Some(data) && data.len() > 0
    }

    /// The state and the event at the end of a look that has come to the target at `trying`, where
    /// `answers` holds what each target gives.
    pub open spec fn rest_of_look(self, answers: Seq<Option<Seq<u8>>>) -> (
        X11WatcherView,
        Option<EventView>,
    )
        decreases self.targets.len() - self.trying,
    {
        if !self.looking() {
            (self, None)
        } else {
            match self.load_action(answers[self.trying]) {
                X11ActionView::Load(_) => self.after_load(answers[self.trying]).rest_of_look(
                    answers,
                ),
                X11ActionView::Finish(event) => (self.after_load(answers[self.trying]), event),
            }
        }
    }

    /// The state and the event at the end of a look, where `answers` holds what each target gives.
    pub open spec fn look(self, answers: Seq<Option<Seq<u8>>>) -> (
        X11WatcherView,
        Option<EventView>,
    ) {
        self.at(0).rest_of_look(answers)
    }

    /// What the first target, from the one at `from` on, has shown that gives content.
    pub open spec fn first_sighting(self, answers: Seq<Option<Seq<u8>>>, from: int) -> Option<
        Sighting,
    >
        decreases self.targets.len() - from,
    {
        if from >= self.targets.len() {
            None
        } else if X11WatcherView::gives(answers[from]) {
            self.sighting(from, answers[from])
        } else {
            self.first_sighting(answers, from + 1)
        }
    }

    /// The state after several looks.
    pub open spec fn after_looks(self, rounds: Seq<Seq<Option<Seq<u8>>>>) -> X11WatcherView
        decreases rounds.len(),
    {
        if rounds.len() == 0 {
            self
        } else {
            self.after_looks(rounds.drop_last()).look(rounds.last()).0
        }
    }

    /// All that is reported in the course of several looks, in order.
    pub open spec fn events(self, rounds: Seq<Seq<Option<Seq<u8>>>>) -> Seq<EventView>
        decreases rounds.len(),
    {
        if rounds.len() == 0 {
            Seq::empty()
        } else {
            self.events(rounds.drop_last()) + optional::as_seq(
                self.after_looks(rounds.drop_last()).look(rounds.last()).1,
            )
        }
    }

    /// What several looks have shown.
    pub open spec fn sightings(self, rounds: Seq<Seq<Option<Seq<u8>>>>) -> Seq<Option<Sighting>> {
        rounds.map_values(|answers: Seq<Option<Seq<u8>>>| self.first_sighting(answers, 0))
    }
}

/// The rest of a look passes over the targets that give nothing and ends with the first one that
/// gives content.
proof fn lemma_rest_of_look(watcher: X11WatcherView, answers: Seq<Option<Seq<u8>>>)
    requires
        watcher.answered_by(answers),
        0 <= watcher.trying <= watcher.targets.len(),
    ensures
        ({
            let sighting = watcher.first_sighting(answers, watcher.trying);
            watcher.rest_of_look(answers) == (
                X11WatcherView::resting(watcher.targets, watcher.last.after_look(sighting)),
                watcher.last.look_event(sighting),
            )
        }),
    decreases watcher.targets.len() - watcher.trying,
{
    if watcher.looking() && !X11WatcherView::gives(answers[watcher.trying]) {
        let next = watcher.at(watcher.trying + 1);
        lemma_rest_of_look(next, answers);
        lemma_sighting_depends_on_targets(watcher, next, answers, watcher.trying + 1);
    }
}

/// What the targets show does not depend on how far a look has come, nor on what was seen last.
proof fn lemma_sighting_depends_on_targets(
    watcher: X11WatcherView,
    other: X11WatcherView,
    answers: Seq<Option<Seq<u8>>>,
    from: int,
)
    requires
        watcher.targets == other.targets,
    ensures
        watcher.first_sighting(answers, from) == other.first_sighting(answers, from),
    decreases watcher.targets.len() - from,
{
    if from < watcher.targets.len() && !X11WatcherView::gives(answers[from]) {
        lemma_sighting_depends_on_targets(watcher, other, answers, from + 1);
    }
}

/// The first target that gives content is found, wherever the search begins before it.
proof fn lemma_first_sighting(
    watcher: X11WatcherView,
    answers: Seq<Option<Seq<u8>>>,
    from: int,
    first: int,
)
    requires
        0 <= from <= first <= watcher.targets.len(),
        forall|i: int| from <= i < first ==> !X11WatcherView::gives(#[trigger] answers[i]),
        first < watcher.targets.len() ==> X11WatcherView::gives(answers[first]),
    ensures
        watcher.first_sighting(answers, from) == (if first < watcher.targets.len() {
            watcher.sighting(first, answers[first])
        } else {
            None
        }),
    decreases first - from,
{
    if from < first {
        assert(!X11WatcherView::gives(answers[from]));
        lemma_first_sighting(watcher, answers, from + 1, first);
    }
}

/// A look reports the content of the first target, in the order of preference, that gives any: as
/// content of the type that the target stands for, and only if it differs from what was seen last.
pub proof fn law_look_takes_the_first_target(
    watcher: X11WatcherView,
    answers: Seq<Option<Seq<u8>>>,
    first: int,
)
    requires
        watcher.answered_by(answers),
        0 <= first < watcher.targets.len(),
        X11WatcherView::gives(answers[first]),
        forall|i: int| 0 <= i < first ==> !X11WatcherView::gives(#[trigger] answers[i]),
    ensures
        ({
            let sighting = Sighting::Content {
                mime_type: watcher.targets[first].mime_type,
                data: answers[first]->0,
                name: watcher.targets[first].mime,
            };
            watcher.look(answers) == (
                X11WatcherView::resting(watcher.targets, watcher.last.after(sighting)),
                watcher.last.news(sighting),
            )
        }),
{
    lemma_rest_of_look(watcher.at(0), answers);
    lemma_first_sighting(watcher.at(0), answers, 0, first);
}

/// A look at a clipboard that gives nothing reports nothing, and what was seen last stays
/// remembered: the same content is not reported again when it is back.
pub proof fn law_look_at_nothing_is_silent(watcher: X11WatcherView, answers: Seq<Option<Seq<u8>>>)
    requires
        watcher.answered_by(answers),
        forall|i: int| 0 <= i < answers.len() ==> !X11WatcherView::gives(#[trigger] answers[i]),
    ensures
        watcher.look(answers) == (
            X11WatcherView::resting(watcher.targets, watcher.last),
            None::<EventView>,
        ),
{
    lemma_rest_of_look(watcher.at(0), answers);
    lemma_first_sighting(watcher.at(0), answers, 0, watcher.targets.len() as int);
}

/// What a watcher reports in the course of several looks is what the sightings that they stand for
/// give rise to.
proof fn lemma_x11_events_are_events(
    watcher: X11WatcherView,
    rounds: Seq<Seq<Option<Seq<u8>>>>,
)
    requires
        forall|k: int| 0 <= k < rounds.len() ==> watcher.answered_by(#[trigger] rounds[k]),
    ensures
        watcher.after_looks(rounds).targets == watcher.targets,
        watcher.after_looks(rounds).last == watcher.last.after_looks(watcher.sightings(rounds)),
        watcher.events(rounds) == watcher.last.events(watcher.sightings(rounds)),
    decreases rounds.len(),
{
    if rounds.len() > 0 {
        let before = rounds.drop_last();
        assert forall|k: int| 0 <= k < before.len() implies watcher.answered_by(
            #[trigger] before[k],
        ) by {
            assert(before[k] == rounds[k]);
        }
        lemma_x11_events_are_events(watcher, before);
        let middle = watcher.after_looks(before);
        assert(watcher.answered_by(rounds[rounds.len() - 1]));
        lemma_rest_of_look(middle.at(0), rounds.last());
        lemma_sighting_depends_on_targets(watcher, middle.at(0), rounds.last(), 0);
        assert(watcher.sightings(rounds).drop_last() =~= watcher.sightings(before));
        assert(watcher.sightings(rounds).last() == watcher.first_sighting(rounds.last(), 0));
    }
}

/// A watcher of the X11 clipboard never reports the same content, under the same type, twice in a
/// row.
pub proof fn law_x11_never_repeats(
    watcher: X11WatcherView,
    rounds: Seq<Seq<Option<Seq<u8>>>>,
    i: int,
)
    requires
        forall|k: int| 0 <= k < rounds.len() ==> watcher.answered_by(#[trigger] rounds[k]),
        0 < i < watcher.events(rounds).len(),
    ensures
        LastView::told_by(watcher.events(rounds)[i]) != LastView::told_by(
            watcher.events(rounds)[i - 1],
        ),
{
    lemma_x11_events_are_events(watcher, rounds);
    crate::last_seen::law_events_never_repeat(watcher.last, watcher.sightings(rounds), i);
    assert(watcher.events(rounds).take(i).last() == watcher.events(rounds)[i - 1]);
}

/// What the targets show is content with at least one byte.
proof fn lemma_sightings_are_content(
    watcher: X11WatcherView,
    answers: Seq<Option<Seq<u8>>>,
    from: int,
)
    ensures
        watcher.first_sighting(answers, from) matches Some(sighting) ==> (sighting matches
            Sighting::Content { data, .. } && data.len() > 0),
    decreases watcher.targets.len() - from,
{
    if from < watcher.targets.len() && !X11WatcherView::gives(answers[from]) {
        lemma_sightings_are_content(watcher, answers, from + 1);
    }
}

/// A watcher of the X11 clipboard reports content that has at least one byte, and nothing else:
/// never that the clipboard was emptied, and no error.
pub proof fn law_x11_reports_content_only(
    watcher: X11WatcherView,
    rounds: Seq<Seq<Option<Seq<u8>>>>,
    i: int,
)
    requires
        forall|k: int| 0 <= k < rounds.len() ==> watcher.answered_by(#[trigger] rounds[k]),
        0 <= i < watcher.events(rounds).len(),
    ensures
        watcher.events(rounds)[i] matches EventView::Changed(content) && content.data.len() > 0,
{
    let looks = watcher.sightings(rounds);
    lemma_x11_events_are_events(watcher, rounds);
    crate::last_seen::law_events_tell_of_looks(watcher.last, looks, i);
    let k = choose|k: int|
        0 <= k < looks.len() && (#[trigger] looks[k] matches Some(sighting)
            && crate::last_seen::tells(watcher.last.events(looks)[i], sighting));
    assert(looks[k] == watcher.first_sighting(rounds[k], 0));
    lemma_sightings_are_content(watcher, rounds[k], 0);
}

/// What each target gives in a look, with whether a report that is made because of it can be
/// delivered.
pub struct Round {
    pub answers: Seq<Option<Seq<u8>>>,
    pub delivered: bool,
}

/// What each target gives in each of several rounds.
pub open spec fn answers_of(rounds: Seq<Round>) -> Seq<Seq<Option<Seq<u8>>>> {
    rounds.map_values(|round: Round| round.answers)
}

impl X11WatcherView {
    /// What is reported in the last of several rounds, if the watcher has not ended before.
    pub open spec fn last_report(self, rounds: Seq<Round>) -> Option<EventView> {
        self.after_looks(answers_of(rounds.drop_last())).look(rounds.last().answers).1
    }

    /// Whether the watcher has ended after several rounds.
    pub open spec fn has_ended(self, rounds: Seq<Round>) -> bool
        decreases rounds.len(),
    {
        rounds.len() > 0 && (self.has_ended(rounds.drop_last()) || !X11ActionView::Finish(
            self.last_report(rounds),
        ).ending().lets_go_on(rounds.last().delivered))
    }

    /// All that is reported, or tried to, in several rounds, in order.
    pub open spec fn reports(self, rounds: Seq<Round>) -> Seq<EventView>
        decreases rounds.len(),
    {
        if rounds.len() == 0 {
            Seq::empty()
        } else {
            let earlier = self.reports(rounds.drop_last());
            if self.has_ended(rounds.drop_last()) {
                earlier
            } else {
                earlier + optional::as_seq(self.last_report(rounds))
            }
        }
    }
}

/// A watcher that has not ended ends in a round exactly if it has something to report that cannot be
/// delivered.
pub proof fn law_x11_watcher_ends_when_unheard(watcher: X11WatcherView, rounds: Seq<Round>)
    requires
        rounds.len() > 0,
        !watcher.has_ended(rounds.drop_last()),
    ensures
        watcher.has_ended(rounds) <==> watcher.last_report(rounds) is Some
            && !rounds.last().delivered,
{
}

/// A watcher that has ended reports nothing more, whatever rounds there might be.
pub proof fn law_x11_nothing_follows_the_end(
    watcher: X11WatcherView,
    rounds: Seq<Round>,
    more: Seq<Round>,
)
    requires
        watcher.has_ended(rounds),
    ensures
        watcher.has_ended(rounds + more),
        watcher.reports(rounds + more) == watcher.reports(rounds),
    decreases more.len(),
{
    if more.len() == 0 {
        assert(rounds + more =~= rounds);
    } else {
        law_x11_nothing_follows_the_end(watcher, rounds, more.drop_last());
        assert((rounds + more).drop_last() =~= rounds + more.drop_last());
    }
}

/// While every report is delivered, a watcher reports all the events of its looks and does not end.
pub proof fn law_x11_heard_watcher_reports_all(watcher: X11WatcherView, rounds: Seq<Round>)
    requires
        forall|i: int| 0 <= i < rounds.len() ==> (#[trigger] rounds[i]).delivered,
    ensures
        watcher.reports(rounds) == watcher.events(answers_of(rounds)),
        !watcher.has_ended(rounds),
    decreases rounds.len(),
{
    if rounds.len() > 0 {
        let before = rounds.drop_last();
        assert forall|i: int| 0 <= i < before.len() implies (#[trigger] before[i]).delivered by {
            assert(before[i] == rounds[i]);
        }
        law_x11_heard_watcher_reports_all(watcher, before);
        assert(answers_of(rounds).drop_last() =~= answers_of(before));
        assert(answers_of(rounds).last() == rounds.last().answers);
        assert(rounds[rounds.len() - 1].delivered);
    }
}

/// Every kind of text is asked for by the target of UTF-8 text, whatever atom the server has for
/// it; a type other than text is tried only under its own atom.
pub proof fn law_text_has_one_target(preference: X11PreferenceView, utf8_string: u32)
    ensures
        is_text(MimeView::of_name(preference.mime)) ==> (preference.target(utf8_string) matches Some(
            target,
        ) && target.target == utf8_string),
        !is_text(MimeView::of_name(preference.mime)) ==> (match preference.target(utf8_string) {
            Some(target) => preference.atom == Some(target.target),
            None => preference.atom is None,
        }),
{
}

/// The targets come in the order of the preferences: those for a list of preferences are those for
/// its first part, followed by those for the rest.
pub proof fn law_targets_keep_the_order(
    first: Seq<X11PreferenceView>,
    rest: Seq<X11PreferenceView>,
    utf8_string: u32,
)
    ensures
        targets_of(first + rest, utf8_string) == targets_of(first, utf8_string) + targets_of(
            rest,
            utf8_string,
        ),
    decreases rest.len(),
{
    if rest.len() == 0 {
        assert(first + rest =~= first);
        assert(targets_of(first, utf8_string) + targets_of(rest, utf8_string) =~= targets_of(
            first,
            utf8_string,
        ));
    } else {
        law_targets_keep_the_order(first, rest.drop_last(), utf8_string);
        assert((first + rest).drop_last() =~= first + rest.drop_last());
        assert((first + rest).last() == rest.last());
        assert(targets_of(first + rest, utf8_string) =~= targets_of(first, utf8_string)
            + targets_of(rest, utf8_string));
    }
}

/// The clipboard is given a tenth of a second to answer, and the pause between two looks is half as
/// long again.
pub proof fn law_x11_waits()
    ensures
        X11_LOAD_TIMEOUT_MILLIS * 10 == 1000,
        X11_POLL_INTERVAL_MILLIS * 2 == X11_LOAD_TIMEOUT_MILLIS * 3,
{
}

/// Text under each of its three names has a target of its own, and the server is asked for the atom
/// of every other type.
pub proof fn law_text_names(name: Seq<char>)
    ensures
        is_text(MimeView::of_name(name)) <==> name == "text/plain"@ || name
            == "text/plain;charset=utf-8"@ || name == "text/plain; charset=utf-8"@,
{
    crate::mime::lemma_name_lengths();
}

/// A wanted type keeps its name and the type that the name stands for.  It has a target exactly if
/// it is text or the server has an atom for it: that of UTF-8 text, or the atom.
pub proof fn law_preference_has_its_target(preference: X11PreferenceView, utf8_string: u32)
    ensures
        ({
            let name = preference.mime;
            let text = name == "text/plain"@ || name == "text/plain;charset=utf-8"@ || name
                == "text/plain; charset=utf-8"@;
            match preference.target(utf8_string) {
                Some(tried) => {
                    &&& tried.mime == name
                    &&& tried.mime_type == MimeView::of_name(name)
                    &&& text ==> tried.target == utf8_string
                    &&& !text ==> preference.atom == Some(tried.target)
                },
                None => !text && preference.atom is None,
            }
        }),
{
    law_text_names(preference.mime);
}

/// One preference more, behind the others, means one target more, behind the others, if the
/// preference has a target, and none more if it has not.
pub proof fn law_each_preference_is_tried_once(
    preferences: Seq<X11PreferenceView>,
    preference: X11PreferenceView,
    utf8_string: u32,
)
    ensures
        targets_of(Seq::empty(), utf8_string).len() == 0,
        preference.target(utf8_string) matches Some(tried) ==> targets_of(
            preferences.push(preference),
            utf8_string,
        ) == targets_of(preferences, utf8_string).push(tried),
        preference.target(utf8_string) is None ==> targets_of(
            preferences.push(preference),
            utf8_string,
        ) == targets_of(preferences, utf8_string),
{
    assert(preferences.push(preference).drop_last() =~= preferences);
    assert(targets_of(preferences.push(preference), utf8_string) =~= targets_of(
        preferences,
        utf8_string,
    ) + optional::as_seq(preference.target(utf8_string)));
}

/// A new watcher has the targets it was given, has seen nothing, and is between two looks.
pub proof fn law_new_x11_watcher_rests(targets: Seq<X11TargetView>, last: LastView)
    ensures
        X11WatcherView::resting(targets, last).targets == targets,
        X11WatcherView::resting(targets, last).last == last,
        X11WatcherView::resting(targets, last).trying == targets.len(),
        !X11WatcherView::resting(targets, last).looking(),
{
}

/// A look begins with the first target, whatever was seen last and however far a look had come; with
/// no targets it ends at once.
pub proof fn law_look_begins_with_the_first_target(watcher: X11WatcherView)
    ensures
        watcher.at(0).targets == watcher.targets,
        watcher.at(0).last == watcher.last,
        watcher.at(0).trying == 0,
        watcher.targets.len() > 0 ==> watcher.action_at(0) == X11ActionView::Load(
            watcher.targets[0].target,
        ),
        watcher.targets.len() == 0 ==> watcher.action_at(0) == X11ActionView::Finish(None),
{
}

/// The target that is asked for is the one that is being tried, whatever was seen last.
pub proof fn law_each_target_is_asked_for_itself(watcher: X11WatcherView, index: int)
    ensures
        0 <= index < watcher.targets.len() ==> watcher.action_at(index) == X11ActionView::Load(
            watcher.targets[index].target,
        ),
        index >= watcher.targets.len() ==> watcher.action_at(index) == X11ActionView::Finish(None),
{
}

/// After a target that gave nothing, or no byte, the next one is asked for; after the last one the
/// look ends without a report.  What was seen last stays remembered.
pub proof fn law_next_target_is_asked_for(watcher: X11WatcherView, data: Option<Seq<u8>>)
    requires
        0 <= watcher.trying < watcher.targets.len(),
        data matches Some(bytes) ==> bytes.len() == 0,
    ensures
        ({
            let next = watcher.trying + 1;
            let after = watcher.after_load(data);
            &&& after.targets == watcher.targets
            &&& after.last == watcher.last
            &&& after.trying == next
            &&& next < watcher.targets.len() ==> watcher.load_action(data) == X11ActionView::Load(
                watcher.targets[next].target,
            )
            &&& next == watcher.targets.len() ==> watcher.load_action(data)
                == X11ActionView::Finish(None)
        }),
{
}

/// A target that gives content ends the look.  The content is remembered as content of the type that
/// the target stands for, and is reported, under the name of that target, exactly if it differs in
/// type or bytes from what was seen last.
pub proof fn law_content_ends_the_look(watcher: X11WatcherView, data: Seq<u8>)
    requires
        0 <= watcher.trying < watcher.targets.len(),
        data.len() > 0,
    ensures
        ({
            let tried = watcher.targets[watcher.trying];
            let after = watcher.after_load(Some(data));
            let action = watcher.load_action(Some(data));
            &&& after.targets == watcher.targets
            &&& after.trying == watcher.targets.len()
            &&& after.last.content == Some((tried.mime_type, data))
            &&& watcher.last.content == Some((tried.mime_type, data)) ==> action
                == X11ActionView::Finish(None)
            &&& watcher.last.content != Some((tried.mime_type, data)) ==> (action
                matches X11ActionView::Finish(Some(EventView::Changed(content))) && content.data
                == data && content.mime_type == tried.mime_type && content.available_types.len()
                == 1 && content.available_types[0] == tried.mime)
        }),
{
}

/// Between two looks an answer changes nothing.
pub proof fn law_stray_answer_changes_nothing(watcher: X11WatcherView, data: Option<Seq<u8>>)
    requires
        watcher.trying >= watcher.targets.len(),
    ensures
        watcher.after_load(data) == watcher,
        watcher.load_action(data) == X11ActionView::Finish(None),
{
}

/// A watcher goes on exactly if it has nothing to report or the report was delivered.
pub proof fn law_x11_actions_say_what_follows(target: u32, event: EventView, delivered: bool)
    ensures
        X11ActionView::Load(target).ending().lets_go_on(delivered),
        X11ActionView::Finish(None).ending().lets_go_on(delivered),
        X11ActionView::Finish(Some(event)).ending().lets_go_on(delivered) == delivered,
        X11ActionView::Load(target).ending() is Never,
        X11ActionView::Finish(None).ending() is Never,
        X11ActionView::Finish(Some(event)).ending() is Undelivered,
{
}

/// The rest of a look at a clipboard: the targets that are asked for, in order, and the state and the
/// event at its end.
#[verifier::ext_equal]
pub struct Course {
    pub asked: Seq<u32>,
    pub after: X11WatcherView,
    pub event: Option<EventView>,
}

impl X11WatcherView {
    /// How a look goes on with `action`, where `clipboard` says what each target gives: whichever
    /// target is asked for, the answer is what that target gives.
    pub open spec fn course(
        self,
        action: X11ActionView,
        clipboard: spec_fn(u32) -> Option<Seq<u8>>,
    ) -> Course
        decreases self.targets.len() - self.trying,
    {
        match action {
            X11ActionView::Finish(event) => Course { asked: Seq::empty(), after: self, event },
            X11ActionView::Load(target) => if !self.looking() {
                Course { asked: seq![target], after: self, event: None }
            } else {
                let answer = clipboard(target);
                let rest = self.after_load(answer).course(self.load_action(answer), clipboard);
                Course { asked: seq![target] + rest.asked, after: rest.after, event: rest.event }
            },
        }
    }

    /// A look from its beginning.
    pub open spec fn whole_course(self, clipboard: spec_fn(u32) -> Option<Seq<u8>>) -> Course {
        self.at(0).course(self.action_at(0), clipboard)
    }
}

/// The atoms of several targets, in order.
pub open spec fn atoms(targets: Seq<X11TargetView>) -> Seq<u32> {
    targets.map_values(|tried: X11TargetView| tried.target)
}

/// A look that has come to the target that is being tried asks for one target after the other up to
/// the first one that gives content.
proof fn lemma_course(
    watcher: X11WatcherView,
    clipboard: spec_fn(u32) -> Option<Seq<u8>>,
    first: int,
)
    requires
        0 <= watcher.trying <= first <= watcher.targets.len(),
        forall|i: int|
            watcher.trying <= i < first ==> (clipboard((#[trigger] watcher.targets[i]).target)
                matches Some(bytes) ==> bytes.len() == 0),
        first < watcher.targets.len() ==> (clipboard(watcher.targets[first].target) matches Some(
            bytes,
        ) && bytes.len() > 0),
    ensures
        ({
            let course = watcher.course(watcher.action_at(watcher.trying), clipboard);
            if first < watcher.targets.len() {
                let tried = watcher.targets[first];
                let data = clipboard(tried.target)->0;
                &&& course.asked == atoms(watcher.targets.subrange(watcher.trying, first + 1))
                &&& course.after == (X11WatcherView {
                    targets: watcher.targets,
                    last: LastView { content: Some((tried.mime_type, data)) },
                    trying: watcher.targets.len() as int,
                })
                &&& course.event == (if watcher.last.content == Some((tried.mime_type, data)) {
                    None
                } else {
                    Some(
                        EventView::Changed(
                            crate::content::ContentView {
                                data,
                                mime_type: tried.mime_type,
                                available_types: seq![tried.mime],
                            },
                        ),
                    )
                })
            } else {
                &&& course.asked == atoms(watcher.targets.subrange(watcher.trying, first))
                &&& course.after == watcher.at(first)
                &&& course.event is None
            }
        }),
    decreases first - watcher.trying,
{
    let course = watcher.course(watcher.action_at(watcher.trying), clipboard);
    let trying = watcher.trying;
    if trying == watcher.targets.len() {
        assert(course.asked =~= atoms(watcher.targets.subrange(trying, first)));
    } else {
        let answer = clipboard(watcher.targets[trying].target);
        let next = watcher.after_load(answer);
        let rest = next.course(watcher.load_action(answer), clipboard);
        if trying == first {
            law_content_ends_the_look(watcher, answer->0);
            assert(rest.asked =~= Seq::empty());
            assert(course.asked =~= atoms(watcher.targets.subrange(trying, first + 1)));
        } else {
            law_next_target_is_asked_for(watcher, answer);
            assert(next == watcher.at(trying + 1));
            assert(watcher.load_action(answer) == next.action_at(trying + 1));
            lemma_course(next, clipboard, first);
            let end = if first < watcher.targets.len() {
                first + 1
            } else {
                first
            };
            assert(course.asked =~= atoms(watcher.targets.subrange(trying, end)));
        }
    }
}

/// A look asks for the targets one after the other, each by its own atom, and stops at the first one
/// under which the clipboard has content.  Whatever was seen last, that content is then remembered as
/// content of the type that the target stands for, and reported unless it is what was seen last.
pub proof fn law_look_finds_the_content(
    watcher: X11WatcherView,
    clipboard: spec_fn(u32) -> Option<Seq<u8>>,
    first: int,
)
    requires
        0 <= first < watcher.targets.len(),
        forall|i: int|
            0 <= i < first ==> (clipboard((#[trigger] watcher.targets[i]).target) matches Some(
                bytes,
            ) ==> bytes.len() == 0),
        clipboard(watcher.targets[first].target) matches Some(bytes) && bytes.len() > 0,
    ensures
        ({
            let course = watcher.whole_course(clipboard);
            let tried = watcher.targets[first];
            let data = clipboard(tried.target)->0;
            &&& course.asked.len() == first + 1
            &&& forall|i: int|
                0 <= i <= first ==> #[trigger] course.asked[i] == watcher.targets[i].target
            &&& course.after.targets == watcher.targets
            &&& course.after.last.content == Some((tried.mime_type, data))
            &&& course.event is None <==> watcher.last.content == Some((tried.mime_type, data))
            &&& course.event matches Some(event) ==> (event matches EventView::Changed(content)
                && content.data == data && content.mime_type == tried.mime_type
                && content.available_types == seq![tried.mime])
        }),
{
    lemma_course(watcher.at(0), clipboard, first);
}

/// A look at a clipboard that has nothing under any of the targets asks for all of them, each by its
/// own atom, reports nothing, and leaves what was seen last remembered.
pub proof fn law_look_at_an_empty_clipboard(
    watcher: X11WatcherView,
    clipboard: spec_fn(u32) -> Option<Seq<u8>>,
)
    requires
        forall|i: int|
            0 <= i < watcher.targets.len() ==> (clipboard((#[trigger] watcher.targets[i]).target)
                matches Some(bytes) ==> bytes.len() == 0),
    ensures
        ({
            let course = watcher.whole_course(clipboard);
            &&& course.asked.len() == watcher.targets.len()
            &&& forall|i: int|
                0 <= i < watcher.targets.len() ==> #[trigger] course.asked[i]
                    == watcher.targets[i].target
            &&& course.after.targets == watcher.targets
            &&& course.after.last == watcher.last
            &&& course.event is None
        }),
{
    lemma_course(watcher.at(0), clipboard, watcher.targets.len() as int);
}

/// The mathematical values hold what the preferences, targets, actions and watchers hold.
pub proof fn law_x11_views(
    preference: X11Preference,
    tried: X11Target,
    target: u32,
    event: ClipboardEvent,
    watcher: X11Watcher,
)
    ensures
        preference@.mime == preference.mime@,
        preference@.atom == preference.atom,
        preference.deep_view() == preference@,
        tried@.mime == tried.mime@,
        tried@.mime_type == tried.mime_type@,
        tried@.target == tried.target,
        tried.deep_view() == tried@,
        X11Action::Load(target)@ == X11ActionView::Load(target),
        X11Action::Finish(Some(event))@ == X11ActionView::Finish(Some(event@)),
        X11Action::Finish(None)@ == X11ActionView::Finish(None),
        watcher@.targets == watcher.targets.deep_view(),
        watcher@.last == watcher.last@,
        watcher@.trying == watcher.trying,
{
}

} // verus!
