//! Following the selection of a Wayland compositor.
//!
//! The compositor describes the content of a selection by an *offer*: it introduces the offer,
//! names the MIME types that the offer has, and then makes it the selection.  An offer is an object
//! of the connection; here it is only handed on, so its type is a parameter.  What tells one offer
//! from another is a number.
use vstd::prelude::*;

use crate::content::{ClipboardContent, ClipboardEvent, ContentView, EventView};
use crate::mime::{MimeType, MimeView};
use crate::optional;
use crate::preference::best_mime;

verus! {

/// An offer: an object of the connection, with the number that it has there.
pub struct Offer<O> {
    pub id: u32,
    pub object: O,
}

/// An offer that has been introduced but is not the selection yet.
pub struct PendingOffer<O> {
    pub offer: Offer<O>,
    pub mime_types: Vec<String>,
}

/// A [`PendingOffer`] as a mathematical value.
#[verifier::ext_equal]
pub struct OfferView<O> {
    pub offer: Offer<O>,
    pub mime_types: Seq<Seq<char>>,
}

impl<O> View for PendingOffer<O> {
    type V = OfferView<O>;

    open spec fn view(&self) -> OfferView<O> {
        OfferView { offer: self.offer, mime_types: self.mime_types.deep_view() }
    }
}

/// What a watcher remembers between two events of the compositor.
pub struct WatcherState<O> {
    /// The offer that is being described.
    pub pending_offer: Option<PendingOffer<O>>,
    /// The offer that is the selection.
    pub current_offer: Option<Offer<O>>,
    /// The MIME types that the watcher wants, the most wanted first.
    pub mime_preferences: Vec<String>,
    /// Whether the primary selection is watched too.
    pub watch_primary: bool,
}

/// A [`WatcherState`] as a mathematical value.
#[verifier::ext_equal]
pub struct WatcherView<O> {
    pub pending: Option<OfferView<O>>,
    pub current: Option<Offer<O>>,
    pub preferences: Seq<Seq<char>>,
    pub watch_primary: bool,
}

impl<O> View for WatcherState<O> {
    type V = WatcherView<O>;

    open spec fn view(&self) -> WatcherView<O> {
        WatcherView {
            pending: optional::viewed(self.pending_offer),
            current: self.current_offer,
            preferences: self.mime_preferences.deep_view(),
            watch_primary: self.watch_primary,
        }
    }
}

/// An event of the compositor's data-control device.
pub enum DeviceEvent<O> {
    /// An offer is introduced.
    DataOffer(Offer<O>),
    /// An offer, or nothing, becomes the selection.
    Selection(Option<Offer<O>>),
    /// An offer, or nothing, becomes the primary selection.
    PrimarySelection(Option<Offer<O>>),
    /// The device is of no more use.
    Finished,
}

/// What is known of content that is being read.
pub struct Transfer {
    pub mime_type: MimeType,
    pub available_types: Vec<String>,
}

/// A [`Transfer`] as a mathematical value.
#[verifier::ext_equal]
pub struct TransferView {
    pub mime_type: MimeView,
    pub available_types: Seq<Seq<char>>,
}

impl View for Transfer {
    type V = TransferView;

    open spec fn view(&self) -> TransferView {
        TransferView {
            mime_type: self.mime_type@,
            available_types: self.available_types.deep_view(),
        }
    }
}

impl TransferView {
    /// What is reported once reading has ended with `data`, either at its end (`complete`) or
    /// because of an error: the content, unless an error came before its first byte.
    pub open spec fn report(self, data: Seq<u8>, complete: bool) -> Option<EventView> {
        if complete || data.len() > 0 {
            Some(
                EventView::Changed(
                    ContentView {
                        data,
                        mime_type: self.mime_type,
                        available_types: self.available_types,
                    },
                ),
            )
        } else {
            None
        }
    }
}

impl Transfer {
    /// What is reported once reading has ended with `data`, either at its end (`complete`) or
    /// because of an error.
    pub fn finish(self, data: Vec<u8>, complete: bool) -> (event: Option<ClipboardEvent>)
        ensures
            optional::viewed(event) == self@.report(data@, complete),
    {
        if complete || data.len() > 0 {
            Some(
                ClipboardEvent::Changed(
                    ClipboardContent {
                        data,
                        mime_type: self.mime_type,
                        available_types: self.available_types,
                    },
                ),
            )
        } else {
            None
        }
    }
}

/// A request to read the content of an offer.
pub struct Receive<O> {
    /// The offer to read from.
    pub offer: Offer<O>,
    /// The MIME type to ask for.
    pub mime: String,
    /// What to report the content as.
    pub transfer: Transfer,
}

/// What a watcher does when the selection has changed, once the old offer is gone.
pub enum Outcome<O> {
    Nothing,
    Emit(ClipboardEvent),
    Receive(Receive<O>),
}

/// An [`Outcome`] as a mathematical value.
#[verifier::ext_equal]
pub enum OutcomeView<O> {
    Nothing,
    Emit(EventView),
    Receive { offer: Offer<O>, mime: Seq<char>, transfer: TransferView },
}

impl<O> View for Outcome<O> {
    type V = OutcomeView<O>;

    open spec fn view(&self) -> OutcomeView<O> {
        match *self {
            Outcome::Nothing => OutcomeView::Nothing,
            Outcome::Emit(event) => OutcomeView::Emit(event@),
            Outcome::Receive(receive) => OutcomeView::Receive {
                offer: receive.offer,
                mime: receive.mime@,
                transfer: receive.transfer@,
            },
        }
    }
}

/// What a watcher does about an event: first it destroys an offer, if there is one to destroy.
pub struct Reaction<O> {
    pub destroy: Option<Offer<O>>,
    pub outcome: Outcome<O>,
}

/// A [`Reaction`] as a mathematical value.
#[verifier::ext_equal]
pub struct ReactionView<O> {
    pub destroy: Option<Offer<O>>,
    pub outcome: OutcomeView<O>,
}

impl<O> View for Reaction<O> {
    type V = ReactionView<O>;

    open spec fn view(&self) -> ReactionView<O> {
        ReactionView { destroy: self.destroy, outcome: self.outcome@ }
    }
}

impl<O> ReactionView<O> {
    /// Doing nothing.
    pub open spec fn idle() -> ReactionView<O> {
        ReactionView { destroy: None, outcome: OutcomeView::Nothing }
    }
}

impl<O> WatcherView<O> {
    /// The state before the first event.
    pub open spec fn initial(preferences: Seq<Seq<char>>, watch_primary: bool) -> WatcherView<O> {
        WatcherView { pending: None, current: None, preferences, watch_primary }
    }

    /// The state once `id` has become the selection.  No offer is being described any more; the
    /// selection is kept as the current offer unless none was being described.
    pub open spec fn after_selection(self, id: Option<Offer<O>>) -> WatcherView<O> {
        WatcherView {
            pending: None,
            current: if self.pending is Some {
                id
            } else {
                None
            },
            ..self
        }
    }

    /// What is done when `id` becomes the selection.  It is read only if it is the offer that was
    /// being described: of any other offer no types are known.
    pub open spec fn selection_reaction(self, id: Option<Offer<O>>) -> ReactionView<O> {
        ReactionView {
            destroy: self.current,
            outcome: match (id, self.pending) {
                (None, _) => OutcomeView::Emit(EventView::Cleared),
                (Some(_), None) => OutcomeView::Nothing,
                (Some(offer), Some(pending)) => if pending.offer.id != offer.id {
                    OutcomeView::Nothing
                } else {
                    match crate::preference::first_available(
                        self.preferences,
                        pending.mime_types,
                    ) {
                        None => OutcomeView::Nothing,
                        Some(mime) => OutcomeView::Receive {
                            offer: pending.offer,
                            mime,
                            transfer: TransferView {
                                mime_type: MimeView::of_name(mime),
                                available_types: pending.mime_types,
                            },
                        },
                    }
                },
            },
        }
    }

    /// Whether `event` changes a selection that is watched, and to what.
    pub open spec fn watched_selection(self, event: DeviceEvent<O>) -> Option<Option<Offer<O>>> {
        match event {
            DeviceEvent::Selection(id) => Some(id),
            DeviceEvent::PrimarySelection(id) => if self.watch_primary {
                Some(id)
            } else {
                None
            },
            _ => None,
        }
    }

    /// The state after an event.
    pub open spec fn after_event(self, event: DeviceEvent<O>) -> WatcherView<O> {
        match (event, self.watched_selection(event)) {
            (_, Some(id)) => self.after_selection(id),
            (DeviceEvent::DataOffer(offer), None) => WatcherView {
                pending: Some(OfferView { offer, mime_types: Seq::empty() }),
                ..self
            },
            _ => self,
        }
    }

    /// What is done about an event.
    pub open spec fn event_reaction(self, event: DeviceEvent<O>) -> ReactionView<O> {
        match self.watched_selection(event) {
            Some(id) => self.selection_reaction(id),
            None => ReactionView::idle(),
        }
    }

    /// The state once the pending offer is known to have a MIME type.
    pub open spec fn after_mime(self, mime: Seq<char>) -> WatcherView<O> {
        match self.pending {
            Some(pending) => WatcherView {
                pending: Some(
                    OfferView {
                        offer: pending.offer,
                        mime_types: pending.mime_types.push(mime),
                    },
                ),
                ..self
            },
            None => self,
        }
    }
}

impl<O> WatcherState<O> {
    /// The state before the first event.
    pub fn new(mime_preferences: Vec<String>, watch_primary: bool) -> (state: Self)
        ensures
            state@ == WatcherView::<O>::initial(mime_preferences.deep_view(), watch_primary),
    {
        WatcherState { pending_offer: None, current_offer: None, mime_preferences, watch_primary }
    }

    /// Handles an event of the data-control device.
    pub fn device_event(&mut self, event: DeviceEvent<O>) -> (reaction: Reaction<O>)
        ensures
            final(self)@ == old(self)@.after_event(event),
            reaction@ == old(self)@.event_reaction(event),
    {
        match event {
            DeviceEvent::DataOffer(offer) => {
                self.pending_offer = Some(PendingOffer { offer, mime_types: Vec::new() });
                Reaction { destroy: None, outcome: Outcome::Nothing }
            },
            DeviceEvent::Selection(id) => self.handle_selection(id),
            DeviceEvent::PrimarySelection(id) => {
                if self.watch_primary {
                    self.handle_selection(id)
                } else {
                    Reaction { destroy: None, outcome: Outcome::Nothing }
                }
            },
            DeviceEvent::Finished => Reaction { destroy: None, outcome: Outcome::Nothing },
        }
    }

    /// Handles a change of the selection: `id` is the offer that is the selection from now on.
    pub fn handle_selection(&mut self, id: Option<Offer<O>>) -> (reaction: Reaction<O>)
        ensures
            final(self)@ == old(self)@.after_selection(id),
            reaction@ == old(self)@.selection_reaction(id),
    {
        let destroy = self.current_offer.take();
        match id {
            None => {
                self.pending_offer = None;
                Reaction { destroy, outcome: Outcome::Emit(ClipboardEvent::Cleared) }
            },
            Some(offer) => {
                match self.pending_offer.take() {
                    None => Reaction { destroy, outcome: Outcome::Nothing },
                    Some(pending) => {
                        let outcome = if pending.offer.id != offer.id {
                            Outcome::Nothing
                        } else {
                            match best_mime(&self.mime_preferences, &pending.mime_types) {
                                None => Outcome::Nothing,
                                Some(mime) => {
                                    let transfer = Transfer {
                                        mime_type: MimeType::from_mime(mime.as_str()),
                                        available_types: pending.mime_types,
                                    };
                                    Outcome::Receive(
                                        Receive { offer: pending.offer, mime, transfer },
                                    )
                                },
                            }
                        };
                        self.current_offer = Some(offer);
                        Reaction { destroy, outcome }
                    },
                }
            },
        }
    }

    /// Notes that the offer that is being described has a MIME type.
    pub fn offer_mime(&mut self, mime: String)
        ensures
            final(self)@ == old(self)@.after_mime(mime@),
    {
        match self.pending_offer.take() {
            Some(mut pending) => {
                pending.mime_types.push(mime);
                self.pending_offer = Some(pending);
            },
            None => {},
        }
    }
}

/// One thing that the compositor tells a watcher.
pub enum Step<O> {
    /// An event of the data-control device.
    Device(DeviceEvent<O>),
    /// The offer that is being described has a MIME type.
    Mime(Seq<char>),
}

impl<O> WatcherView<O> {
    /// The state after one step.
    pub open spec fn after_step(self, step: Step<O>) -> WatcherView<O> {
        match step {
            Step::Device(event) => self.after_event(event),
            Step::Mime(mime) => self.after_mime(mime),
        }
    }

    /// The state after several steps.
    pub open spec fn after_steps(self, steps: Seq<Step<O>>) -> WatcherView<O>
        decreases steps.len(),
    {
        if steps.len() == 0 {
            self
        } else {
            self.after_steps(steps.drop_last()).after_step(steps.last())
        }
    }

    /// The current offer, as a sequence of at most one element.
    pub open spec fn holding(self) -> Seq<Offer<O>> {
        optional::as_seq(self.current)
    }

    /// The offers, at most one, that one step destroys.
    pub open spec fn step_destroys(self, step: Step<O>) -> Seq<Offer<O>> {
        match step {
            Step::Device(event) => optional::as_seq(self.event_reaction(event).destroy),
            Step::Mime(_) => Seq::empty(),
        }
    }

    /// The offers, at most one, that one step makes the current one.
    pub open spec fn step_keeps(self, step: Step<O>) -> Seq<Offer<O>> {
        match step {
            Step::Device(event) => match self.watched_selection(event) {
                Some(id) => self.after_selection(id).holding(),
                None => Seq::empty(),
            },
            Step::Mime(_) => Seq::empty(),
        }
    }

    /// The offers that several steps destroy, in order.
    pub open spec fn destroyed(self, steps: Seq<Step<O>>) -> Seq<Offer<O>>
        decreases steps.len(),
    {
        if steps.len() == 0 {
            Seq::empty()
        } else {
            self.destroyed(steps.drop_last()) + self.after_steps(
                steps.drop_last(),
            ).step_destroys(steps.last())
        }
    }

    /// The offers that several steps make the current one, in order.
    pub open spec fn kept(self, steps: Seq<Step<O>>) -> Seq<Offer<O>>
        decreases steps.len(),
    {
        if steps.len() == 0 {
            Seq::empty()
        } else {
            self.kept(steps.drop_last()) + self.after_steps(steps.drop_last()).step_keeps(
                steps.last(),
            )
        }
    }

    /// The state once an offer has been introduced with its MIME types.
    pub open spec fn after_description(self, offer: Offer<O>, names: Seq<Seq<char>>) -> WatcherView<O>
        decreases names.len(),
    {
        if names.len() == 0 {
            self.after_event(DeviceEvent::DataOffer(offer))
        } else {
            self.after_description(offer, names.drop_last()).after_mime(names.last())
        }
    }
}

/// Every offer that ever was the current one is destroyed once, in the order in which they were
/// the current one, except the one that still is.
pub proof fn law_kept_offers_are_destroyed<O>(state: WatcherView<O>, steps: Seq<Step<O>>)
    ensures
        state.holding() + state.kept(steps) == state.destroyed(steps) + state.after_steps(
            steps,
        ).holding(),
    decreases steps.len(),
{
    let holding = state.holding();
    if steps.len() == 0 {
        assert(holding + state.kept(steps) =~= holding);
        assert(state.destroyed(steps) + holding =~= holding);
    } else {
        let before = steps.drop_last();
        let step = steps.last();
        let middle = state.after_steps(before);
        let after = state.after_steps(steps);
        law_kept_offers_are_destroyed(state, before);
        assert(holding + state.kept(steps) =~= (holding + state.kept(before)) + middle.step_keeps(
            step,
        ));
        assert(middle.holding() + middle.step_keeps(step) =~= middle.step_destroys(step)
            + after.holding());
        assert((state.destroyed(before) + middle.holding()) + middle.step_keeps(step)
            =~= state.destroyed(before) + (middle.holding() + middle.step_keeps(step)));
        assert(state.destroyed(before) + (middle.step_destroys(step) + after.holding())
            =~= state.destroyed(steps) + after.holding());
    }
}

/// What a watcher wants to see stays as it was when the watcher was made.
pub proof fn law_settings_stay<O>(state: WatcherView<O>, steps: Seq<Step<O>>)
    ensures
        state.after_steps(steps).preferences == state.preferences,
        state.after_steps(steps).watch_primary == state.watch_primary,
    decreases steps.len(),
{
    if steps.len() > 0 {
        law_settings_stay(state, steps.drop_last());
    }
}

/// A watcher that does not watch the primary selection takes no notice of it.
pub proof fn law_primary_is_ignored_unless_watched<O>(state: WatcherView<O>, id: Option<Offer<O>>)
    requires
        !state.watch_primary,
    ensures
        state.after_event(DeviceEvent::PrimarySelection(id)) == state,
        state.event_reaction(DeviceEvent::PrimarySelection(id)) == ReactionView::<O>::idle(),
{
}

/// A watcher that watches the primary selection treats both selections alike.
pub proof fn law_watched_primary_is_a_selection<O>(state: WatcherView<O>, id: Option<Offer<O>>)
    requires
        state.watch_primary,
    ensures
        state.after_event(DeviceEvent::PrimarySelection(id)) == state.after_event(
            DeviceEvent::Selection(id),
        ),
        state.event_reaction(DeviceEvent::PrimarySelection(id)) == state.event_reaction(
            DeviceEvent::Selection(id),
        ),
{
}

/// An offer that has been introduced with its MIME types is the pending one, with those types in
/// that order, whatever offer was pending before.
pub proof fn law_description_is_remembered<O>(
    state: WatcherView<O>,
    offer: Offer<O>,
    names: Seq<Seq<char>>,
)
    ensures
        state.after_description(offer, names) == (WatcherView {
            pending: Some(OfferView { offer, mime_types: names }),
            ..state
        }),
    decreases names.len(),
{
    if names.len() == 0 {
        assert(names =~= Seq::<Seq<char>>::empty());
    } else {
        law_description_is_remembered(state, offer, names.drop_last());
        assert(names.drop_last().push(names.last()) =~= names);
    }
}

/// An offer is introduced and described in silence: nothing is destroyed, read or reported, and the
/// current offer stays.
pub proof fn law_description_is_silent<O>(
    state: WatcherView<O>,
    offer: Offer<O>,
    names: Seq<Seq<char>>,
)
    ensures
        state.event_reaction(DeviceEvent::DataOffer(offer)) == ReactionView::<O>::idle(),
        state.after_description(offer, names).current == state.current,
{
    law_description_is_remembered(state, offer, names);
}

/// A MIME type that is named while no offer is being described changes nothing.
pub proof fn law_stray_mime_changes_nothing<O>(state: WatcherView<O>, mime: Seq<char>)
    requires
        state.pending is None,
    ensures
        state.after_mime(mime) == state,
{
}

/// A selection that was described beforehand is read in the most preferred type that it has, and
/// not at all where it has none that is wanted; it is reported with all the types that it has.
pub proof fn law_described_selection_is_read<O>(
    state: WatcherView<O>,
    offer: Offer<O>,
    names: Seq<Seq<char>>,
    selected: Offer<O>,
)
    requires
        selected.id == offer.id,
    ensures
        state.after_description(offer, names).selection_reaction(Some(selected)) == (ReactionView {
            destroy: state.current,
            outcome: match crate::preference::first_available(state.preferences, names) {
                Some(mime) => OutcomeView::Receive {
                    offer,
                    mime,
                    transfer: TransferView {
                        mime_type: MimeView::of_name(mime),
                        available_types: names,
                    },
                },
                None => OutcomeView::Nothing,
            },
        }),
        state.after_description(offer, names).after_selection(Some(selected)) == (WatcherView {
            pending: None,
            current: Some(selected),
            ..state
        }),
{
    law_description_is_remembered(state, offer, names);
}

/// Nothing is read when the selection is another offer than the one that was described, and no
/// event is reported; what was described is forgotten.
pub proof fn law_another_offer_is_not_read<O>(
    state: WatcherView<O>,
    offer: Offer<O>,
    names: Seq<Seq<char>>,
    selected: Offer<O>,
)
    requires
        selected.id != offer.id,
    ensures
        state.after_description(offer, names).selection_reaction(Some(selected)) == (ReactionView {
            destroy: state.current,
            outcome: OutcomeView::<O>::Nothing,
        }),
        state.after_description(offer, names).after_selection(Some(selected)) == (WatcherView {
            pending: None,
            current: Some(selected),
            ..state
        }),
{
    law_description_is_remembered(state, offer, names);
}

/// Whatever is read is the selection: an offer is read only when the offer that becomes the
/// selection has its number.
pub proof fn law_only_the_selection_is_read<O>(state: WatcherView<O>, id: Option<Offer<O>>)
    ensures
        state.selection_reaction(id).outcome matches OutcomeView::Receive { offer, .. } ==> (
        id matches Some(selected) && selected.id == offer.id),
{
}

/// An emptied selection is reported at once, and the offer that was being described is forgotten.
pub proof fn law_emptied_selection_is_reported<O>(state: WatcherView<O>)
    ensures
        state.selection_reaction(None).outcome == OutcomeView::<O>::Emit(EventView::Cleared),
        state.after_selection(None).pending is None,
        state.after_selection(None).current is None,
{
}

/// Content that was read to its end is reported even when it is empty; after an error it is
/// reported, as far as it was read, unless nothing was.
pub proof fn law_partial_content_is_reported(transfer: TransferView, data: Seq<u8>)
    ensures
        transfer.report(data, true) is Some,
        transfer.report(data, false) is Some <==> data.len() > 0,
        transfer.report(data, false) is Some ==> transfer.report(data, false) == transfer.report(
            data,
            true,
        ),
{
}

/// Every change of the selection is acted upon, whatever state the watcher is in: the former
/// selection is destroyed, no offer is being described any more, and the new selection is kept if an
/// offer was being described.
pub proof fn law_every_selection_counts<O>(state: WatcherView<O>, id: Option<Offer<O>>)
    ensures
        ({
            let event = DeviceEvent::Selection(id);
            let after = state.after_event(event);
            &&& state.event_reaction(event) == state.selection_reaction(id)
            &&& after == state.after_selection(id)
            &&& state.event_reaction(event).destroy == state.current
            &&& after.pending is None
            &&& state.pending is Some ==> after.current == id
            &&& state.pending is None ==> after.current is None
            &&& after.preferences == state.preferences
            &&& after.watch_primary == state.watch_primary
        }),
{
}

/// Whatever went before, an offer that is introduced, described and made the selection is read: in
/// the first of the preferred types that it has, as content of that type and of all the types that
/// it has.  The former selection is destroyed and this one takes its place.
pub proof fn law_every_copy_is_read<O>(
    state: WatcherView<O>,
    offer: Offer<O>,
    names: Seq<Seq<char>>,
    selected: Offer<O>,
    best: int,
)
    requires
        selected.id == offer.id,
        0 <= best < state.preferences.len(),
        names.contains(state.preferences[best]),
        forall|j: int| 0 <= j < best ==> !names.contains(#[trigger] state.preferences[j]),
    ensures
        ({
            let described = state.after_description(offer, names);
            let event = DeviceEvent::Selection(Some(selected));
            let reaction = described.event_reaction(event);
            &&& reaction.destroy == state.current
            &&& reaction.outcome == (OutcomeView::Receive {
                offer,
                mime: state.preferences[best],
                transfer: TransferView {
                    mime_type: MimeView::of_name(state.preferences[best]),
                    available_types: names,
                },
            })
            &&& described.after_event(event) == (WatcherView {
                pending: None,
                current: Some(selected),
                preferences: state.preferences,
                watch_primary: state.watch_primary,
            })
        }),
{
    law_description_is_remembered(state, offer, names);
    crate::preference::law_first_available_is_chosen(state.preferences, names, best);
}

/// An offer that has none of the preferred types becomes the selection without being read.
pub proof fn law_unwanted_copy_is_not_read<O>(
    state: WatcherView<O>,
    offer: Offer<O>,
    names: Seq<Seq<char>>,
    selected: Offer<O>,
)
    requires
        forall|j: int|
            0 <= j < state.preferences.len() ==> !names.contains(#[trigger] state.preferences[j]),
    ensures
        ({
            let described = state.after_description(offer, names);
            let event = DeviceEvent::Selection(Some(selected));
            &&& described.event_reaction(event).destroy == state.current
            &&& described.event_reaction(event).outcome is Nothing
            &&& described.after_event(event).current == Some(selected)
            &&& described.after_event(event).pending is None
        }),
{
    law_description_is_remembered(state, offer, names);
    crate::preference::law_best_is_preferred(state.preferences, names);
}

/// One copy after the other is read: that a copy was read does not keep the next one from being
/// read, and the next one destroys the offer of the one before.
pub proof fn law_copies_follow_each_other<O>(
    state: WatcherView<O>,
    first: Offer<O>,
    first_names: Seq<Seq<char>>,
    second: Offer<O>,
    second_names: Seq<Seq<char>>,
    best: int,
)
    requires
        0 <= best < state.preferences.len(),
        second_names.contains(state.preferences[best]),
        forall|j: int| 0 <= j < best ==> !second_names.contains(#[trigger] state.preferences[j]),
    ensures
        ({
            let copied = state.after_description(first, first_names).after_event(
                DeviceEvent::Selection(Some(first)),
            );
            let reaction = copied.after_description(second, second_names).event_reaction(
                DeviceEvent::Selection(Some(second)),
            );
            &&& reaction.destroy == Some(first)
            &&& reaction.outcome matches OutcomeView::Receive { offer, mime, .. } && offer == second
                && mime == state.preferences[best]
        }),
{
    let copied = state.after_description(first, first_names).after_event(
        DeviceEvent::Selection(Some(first)),
    );
    law_description_is_remembered(state, first, first_names);
    law_every_copy_is_read(copied, second, second_names, second, best);
}

/// When another offer than the one that was described becomes the selection, nothing is read or
/// reported; the former selection is destroyed and the new one takes its place.
pub proof fn law_mismatched_selection_is_silent<O>(state: WatcherView<O>, selected: Offer<O>)
    requires
        state.pending matches Some(pending) && pending.offer.id != selected.id,
    ensures
        ({
            let event = DeviceEvent::Selection(Some(selected));
            &&& state.event_reaction(event).destroy == state.current
            &&& state.event_reaction(event).outcome is Nothing
            &&& state.after_event(event).current == Some(selected)
            &&& state.after_event(event).pending is None
        }),
{
}

/// When an offer becomes the selection while none is being described, nothing is read or reported
/// and the offer is not kept; the former selection is destroyed all the same.
pub proof fn law_undescribed_selection_is_silent<O>(state: WatcherView<O>, selected: Offer<O>)
    requires
        state.pending is None,
    ensures
        ({
            let event = DeviceEvent::Selection(Some(selected));
            &&& state.event_reaction(event).destroy == state.current
            &&& state.event_reaction(event).outcome is Nothing
            &&& state.after_event(event).current is None
            &&& state.after_event(event).pending is None
        }),
{
}

/// Whatever state the watcher is in, an emptied selection is reported, and nothing is left of the
/// offers.
pub proof fn law_every_emptying_is_reported<O>(state: WatcherView<O>)
    ensures
        ({
            let event = DeviceEvent::Selection(None);
            &&& state.event_reaction(event).destroy == state.current
            &&& state.event_reaction(event).outcome == OutcomeView::<O>::Emit(EventView::Cleared)
            &&& state.after_event(event).current is None
            &&& state.after_event(event).pending is None
        }),
{
}

/// The primary selection is a selection like the other where it is watched, and nothing at all
/// where it is not.
pub proof fn law_primary_counts_if_watched<O>(state: WatcherView<O>, id: Option<Offer<O>>)
    ensures
        ({
            let primary = DeviceEvent::PrimarySelection(id);
            &&& state.watch_primary ==> {
                &&& state.event_reaction(primary) == state.selection_reaction(id)
                &&& state.after_event(primary) == state.after_selection(id)
            }
            &&& !state.watch_primary ==> {
                &&& state.event_reaction(primary).destroy is None
                &&& state.event_reaction(primary).outcome is Nothing
                &&& state.after_event(primary) == state
            }
        }),
{
}

/// An offer that is introduced is from then on the one that is being described, without any type as
/// yet; nothing else changes and nothing is done.
pub proof fn law_introduction_starts_a_description<O>(state: WatcherView<O>, offer: Offer<O>)
    ensures
        ({
            let event = DeviceEvent::DataOffer(offer);
            let after = state.after_event(event);
            &&& after.pending matches Some(pending) && pending.offer == offer
                && pending.mime_types.len() == 0
            &&& after.current == state.current
            &&& after.preferences == state.preferences
            &&& after.watch_primary == state.watch_primary
            &&& state.event_reaction(event).destroy is None
            &&& state.event_reaction(event).outcome is Nothing
        }),
{
}

/// A device that is of no more use changes nothing, and nothing is done.
pub proof fn law_finished_device_is_left_alone<O>(state: WatcherView<O>)
    ensures
        state.after_event(DeviceEvent::Finished) == state,
        state.event_reaction(DeviceEvent::Finished).destroy is None,
        state.event_reaction(DeviceEvent::Finished).outcome is Nothing,
{
}

/// A MIME type that is named while an offer is being described comes last among the types of that
/// offer, even if it was named before; nothing else changes.
pub proof fn law_named_type_comes_last<O>(state: WatcherView<O>, mime: Seq<char>)
    requires
        state.pending is Some,
    ensures
        ({
            let before = state.pending->0;
            let after = state.after_mime(mime);
            &&& after.pending matches Some(pending) && pending.offer == before.offer
                && pending.mime_types == before.mime_types + seq![mime]
            &&& after.current == state.current
            &&& after.preferences == state.preferences
            &&& after.watch_primary == state.watch_primary
        }),
{
    assert(state.pending->0.mime_types.push(mime) =~= state.pending->0.mime_types + seq![mime]);
}

/// A new watcher has seen no offer, and wants what it was told to want.
pub proof fn law_new_watcher_has_no_offers<O>(preferences: Seq<Seq<char>>, watch_primary: bool)
    ensures
        WatcherView::<O>::initial(preferences, watch_primary).pending is None,
        WatcherView::<O>::initial(preferences, watch_primary).current is None,
        WatcherView::<O>::initial(preferences, watch_primary).preferences == preferences,
        WatcherView::<O>::initial(preferences, watch_primary).watch_primary == watch_primary,
{
}

/// What was read is reported byte for byte, as content of the type that was asked for and with all
/// the types that there were; only an error before the first byte leaves nothing to report.
pub proof fn law_read_bytes_are_reported(transfer: TransferView, data: Seq<u8>, complete: bool)
    ensures
        !complete && data.len() == 0 ==> transfer.report(data, complete) is None,
        complete || data.len() > 0 ==> (transfer.report(data, complete) matches Some(
            EventView::Changed(content),
        ) && content.data == data && content.mime_type == transfer.mime_type
            && content.available_types == transfer.available_types),
{
}

/// The mathematical values hold what the offers, requests and reactions hold.
pub proof fn law_offer_views<O>(
    pending: PendingOffer<O>,
    state: WatcherState<O>,
    transfer: Transfer,
    receive: Receive<O>,
    event: ClipboardEvent,
    reaction: Reaction<O>,
)
    ensures
        pending@.offer == pending.offer,
        pending@.mime_types == pending.mime_types.deep_view(),
        state.pending_offer is None ==> state@.pending is None,
        state.pending_offer is Some ==> state@.pending == Some(state.pending_offer->0@),
        state@.current == state.current_offer,
        state@.preferences == state.mime_preferences.deep_view(),
        state@.watch_primary == state.watch_primary,
        transfer@.mime_type == transfer.mime_type@,
        transfer@.available_types == transfer.available_types.deep_view(),
        Outcome::<O>::Nothing@ == OutcomeView::<O>::Nothing,
        Outcome::<O>::Emit(event)@ == OutcomeView::<O>::Emit(event@),
        Outcome::Receive(receive)@ == (OutcomeView::Receive {
            offer: receive.offer,
            mime: receive.mime@,
            transfer: receive.transfer@,
        }),
        reaction@.destroy == reaction.destroy,
        reaction@.outcome == reaction.outcome@,
{
}

} // verus!
