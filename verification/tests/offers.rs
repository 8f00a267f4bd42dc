use anchor_wl_clipboard::offers::{DeviceEvent, Offer, Outcome, Transfer, WatcherState};
use anchor_wl_clipboard::preference::best_mime;
use anchor_wl_clipboard::{ClipboardEvent, ClipboardWatcherBuilder, MimeType};

/// The offer with a number; its object is the number too.
fn offer(id: u32) -> Offer<u32> {
    Offer { id, object: id }
}

fn number(offer: &Option<Offer<u32>>) -> Option<u32> {
    offer.as_ref().map(|offer| offer.id)
}

fn texts(list: &[&str]) -> Vec<String> {
    list.iter().map(|text| text.to_string()).collect()
}

fn default_watcher() -> WatcherState<u32> {
    let builder = ClipboardWatcherBuilder::new();
    WatcherState::new(builder.mime_preferences, builder.watch_primary)
}

fn describe(watcher: &mut WatcherState<u32>, id: u32, names: &[&str]) {
    let reaction = watcher.device_event(DeviceEvent::DataOffer(offer(id)));
    assert!(reaction.destroy.is_none());
    assert!(matches!(reaction.outcome, Outcome::Nothing));
    for name in names {
        watcher.offer_mime(name.to_string());
    }
}

#[test]
fn defaults_prefer_text() {
    let builder = ClipboardWatcherBuilder::default();
    assert_eq!(
        builder.mime_preferences,
        texts(&["text/plain;charset=utf-8", "text/plain", "image/png"])
    );
    assert!(!builder.watch_primary);
}

#[test]
fn settings_are_independent() {
    let builder = ClipboardWatcherBuilder::new()
        .watch_primary(true)
        .mime_preferences(texts(&["a/a"]))
        .mime_preferences(texts(&["b/b", "c/c"]));
    assert!(builder.watch_primary);
    assert_eq!(builder.mime_preferences, texts(&["b/b", "c/c"]));
    assert!(!builder.watch_primary(false).watch_primary);
}

#[test]
fn the_first_wanted_type_is_chosen() {
    let wanted = texts(&["a/a", "b/b", "c/c"]);
    assert_eq!(best_mime(&wanted, &texts(&["c/c", "b/b"])), Some("b/b".to_string()));
    assert_eq!(best_mime(&wanted, &texts(&["d/d"])), None);
    assert_eq!(best_mime(&wanted, &texts(&[])), None);
    assert_eq!(best_mime(&texts(&[]), &wanted), None);
}

#[test]
fn a_described_selection_is_read() {
    let mut watcher = default_watcher();
    describe(&mut watcher, 7, &["image/png", "text/plain"]);
    let reaction = watcher.device_event(DeviceEvent::Selection(Some(offer(7))));
    assert!(reaction.destroy.is_none());
    match reaction.outcome {
        Outcome::Receive(receive) => {
            assert_eq!(receive.offer.object, 7);
            assert_eq!(receive.mime, "text/plain");
            assert_eq!(receive.transfer.mime_type, MimeType::TextPlain);
            assert_eq!(receive.transfer.available_types, texts(&["image/png", "text/plain"]));
        }
        _ => panic!("nothing is read"),
    }
    assert_eq!(number(&watcher.current_offer), Some(7));
    assert!(watcher.pending_offer.is_none());
}

#[test]
fn unwanted_types_are_kept_but_not_read() {
    let mut watcher = default_watcher();
    describe(&mut watcher, 1, &["application/json"]);
    let reaction = watcher.handle_selection(Some(offer(1)));
    assert!(matches!(reaction.outcome, Outcome::Nothing));
    assert_eq!(number(&watcher.current_offer), Some(1));
}

#[test]
fn an_undescribed_selection_is_not_kept() {
    let mut watcher = default_watcher();
    watcher.offer_mime("text/plain".to_string());
    let reaction = watcher.handle_selection(Some(offer(3)));
    assert!(reaction.destroy.is_none());
    assert!(matches!(reaction.outcome, Outcome::Nothing));
    assert_eq!(number(&watcher.current_offer), None);
}

#[test]
fn old_offers_are_destroyed_once() {
    let mut watcher = default_watcher();
    describe(&mut watcher, 1, &["text/plain"]);
    assert_eq!(number(&watcher.handle_selection(Some(offer(1))).destroy), None);
    describe(&mut watcher, 2, &["text/plain"]);
    assert_eq!(number(&watcher.handle_selection(Some(offer(2))).destroy), Some(1));
    let reaction = watcher.handle_selection(None);
    assert_eq!(number(&reaction.destroy), Some(2));
    assert!(matches!(reaction.outcome, Outcome::Emit(ClipboardEvent::Cleared)));
    assert_eq!(number(&watcher.handle_selection(None).destroy), None);
}

#[test]
fn a_new_offer_replaces_the_pending_one() {
    let mut watcher = default_watcher();
    describe(&mut watcher, 1, &["text/plain"]);
    describe(&mut watcher, 2, &["image/png"]);
    match watcher.handle_selection(Some(offer(2))).outcome {
        Outcome::Receive(receive) => {
            assert_eq!(receive.offer.object, 2);
            assert_eq!(receive.mime, "image/png");
        }
        _ => panic!("nothing is read"),
    }
}

#[test]
fn an_emptied_selection_forgets_the_pending_offer() {
    let mut watcher = default_watcher();
    describe(&mut watcher, 1, &["text/plain"]);
    assert!(matches!(
        watcher.device_event(DeviceEvent::Selection(None)).outcome,
        Outcome::Emit(ClipboardEvent::Cleared)
    ));
    assert!(watcher.pending_offer.is_none());
    assert!(matches!(
        watcher.device_event(DeviceEvent::Selection(Some(offer(1)))).outcome,
        Outcome::Nothing
    ));
}

#[test]
fn the_primary_selection_counts_only_if_watched() {
    let mut watcher = default_watcher();
    describe(&mut watcher, 1, &["text/plain"]);
    let reaction = watcher.device_event(DeviceEvent::PrimarySelection(Some(offer(1))));
    assert!(matches!(reaction.outcome, Outcome::Nothing));
    assert!(watcher.pending_offer.is_some());
    watcher.watch_primary = true;
    let reaction = watcher.device_event(DeviceEvent::PrimarySelection(Some(offer(1))));
    assert!(matches!(reaction.outcome, Outcome::Receive(_)));
    assert!(watcher.pending_offer.is_none());
}

#[test]
fn a_finished_device_changes_nothing() {
    let mut watcher = default_watcher();
    describe(&mut watcher, 1, &["text/plain"]);
    let reaction = watcher.device_event(DeviceEvent::Finished);
    assert!(reaction.destroy.is_none());
    assert!(matches!(reaction.outcome, Outcome::Nothing));
    assert!(watcher.pending_offer.is_some());
}

#[test]
fn broken_transfers_report_what_there_is() {
    let transfer =
        || Transfer { mime_type: MimeType::TextPlain, available_types: texts(&["text/plain"]) };
    match transfer().finish(vec![104, 105], false) {
        Some(ClipboardEvent::Changed(content)) => {
            assert_eq!(content.data, vec![104, 105]);
            assert_eq!(content.mime_type, MimeType::TextPlain);
            assert_eq!(content.available_types, texts(&["text/plain"]));
            let copy = content.clone();
            assert_eq!(copy.data, content.data);
            assert_eq!(copy.mime_type, content.mime_type);
            assert_eq!(copy.available_types, content.available_types);
        }
        _ => panic!("the content is lost"),
    }
    assert!(transfer().finish(vec![], false).is_none());
    match transfer().finish(vec![], true) {
        Some(ClipboardEvent::Changed(content)) => assert!(content.data.is_empty()),
        _ => panic!("empty content is lost"),
    }
}

#[test]
fn another_offer_than_the_described_one_is_not_read() {
    let mut watcher = default_watcher();
    describe(&mut watcher, 1, &["text/plain"]);
    watcher.handle_selection(Some(offer(1)));
    describe(&mut watcher, 2, &["text/plain", "image/png"]);
    let reaction = watcher.device_event(DeviceEvent::Selection(Some(offer(3))));
    assert_eq!(number(&reaction.destroy), Some(1));
    assert!(matches!(reaction.outcome, Outcome::Nothing));
    assert_eq!(number(&watcher.current_offer), Some(3));
    assert!(watcher.pending_offer.is_none());
    let reaction = watcher.device_event(DeviceEvent::Selection(Some(offer(2))));
    assert_eq!(number(&reaction.destroy), Some(3));
    assert!(matches!(reaction.outcome, Outcome::Nothing));
}

#[test]
fn the_number_tells_offers_apart() {
    let mut watcher: WatcherState<&str> = WatcherState::new(texts(&["a/a"]), false);
    watcher.device_event(DeviceEvent::DataOffer(Offer { id: 5, object: "introduced" }));
    watcher.offer_mime("a/a".to_string());
    match watcher.handle_selection(Some(Offer { id: 5, object: "selected" })).outcome {
        Outcome::Receive(receive) => assert_eq!(receive.offer.object, "introduced"),
        _ => panic!("nothing is read"),
    }
    assert_eq!(watcher.current_offer.map(|offer| offer.object), Some("selected"));
}

#[test]
fn a_description_is_silent_and_keeps_duplicates() {
    let mut watcher = default_watcher();
    watcher.offer_mime("text/plain".to_string());
    assert!(watcher.pending_offer.is_none());
    let reaction = watcher.device_event(DeviceEvent::DataOffer(offer(7)));
    assert!(matches!(reaction.outcome, Outcome::Nothing));
    watcher.offer_mime("b/b".to_string());
    watcher.offer_mime("a/a".to_string());
    watcher.offer_mime("b/b".to_string());
    match &watcher.pending_offer {
        Some(pending) => assert_eq!(pending.mime_types, texts(&["b/b", "a/a", "b/b"])),
        None => panic!("the offer is forgotten"),
    }
    assert_eq!(number(&watcher.current_offer), None);
}
