use anchor_wl_clipboard::polling::{
    check_probe, ClipboardKind, Ending, PasteFailure, PasteRequest, PollReaction, PollingWatcher, Reading,
};
use anchor_wl_clipboard::writer::{ext_copy, WriterCommand};
use anchor_wl_clipboard::{
    ClipboardContent, ClipboardEvent, ClipboardWatcherBuilder, Error, MimeType,
};

fn watcher() -> PollingWatcher {
    PollingWatcher::new(&ClipboardWatcherBuilder::new().mime_preferences, false)
}

fn content(mime: &str, data: &str) -> Reading {
    Reading::Content { mime: mime.to_string(), data: data.as_bytes().to_vec() }
}

fn changed(reaction: PollReaction) -> ClipboardContent {
    match reaction {
        PollReaction::Emit(ClipboardEvent::Changed(content)) => content,
        _ => panic!("no change was reported"),
    }
}

#[test]
fn preferences_decide_what_is_asked_for() {
    let text_only = vec!["text/plain".to_string()];
    assert_eq!(PollingWatcher::new(&text_only, true).request, PasteRequest::Text);
    assert_eq!(PollingWatcher::new(&text_only, true).clipboard, ClipboardKind::Primary);
    assert_eq!(watcher().request, PasteRequest::Any);
    assert_eq!(watcher().clipboard, ClipboardKind::Regular);
    assert_eq!(PasteRequest::for_preferences(&vec![]), PasteRequest::Text);
}

#[test]
fn an_empty_clipboard_is_usable() {
    assert!(check_probe(Ok(())).is_ok());
    assert!(check_probe(Err(PasteFailure::ClipboardEmpty)).is_ok());
    assert!(check_probe(Err(PasteFailure::NoMimeType)).is_ok());
    match check_probe(Err(PasteFailure::Other("no seats".to_string()))) {
        Err(Error::WaylandConnect(reason)) => assert_eq!(reason, "no seats"),
        _ => panic!("the failure went unnoticed"),
    }
}

#[test]
fn content_is_reported_once() {
    let mut watcher = watcher();
    let first = changed(watcher.poll(content("UTF8_STRING", "hello")));
    assert_eq!(first.data, b"hello".to_vec());
    assert_eq!(first.mime_type, MimeType::TextPlainUtf8);
    assert_eq!(first.available_types, vec!["UTF8_STRING".to_string()]);
    assert!(matches!(watcher.poll(content("UTF8_STRING", "hello")), PollReaction::Quiet));
    assert!(matches!(watcher.poll(content("STRING", "hello")), PollReaction::Quiet));
    assert_eq!(changed(watcher.poll(content("TEXT", "bye"))).data, b"bye".to_vec());
    assert_eq!(
        changed(watcher.poll(content("text/plain", "bye"))).mime_type,
        MimeType::TextPlain
    );
    assert_eq!(changed(watcher.poll(content("TEXT", "hello"))).data, b"hello".to_vec());
}

#[test]
fn useless_readings_change_nothing() {
    let mut watcher = watcher();
    changed(watcher.poll(content("TEXT", "hello")));
    assert!(matches!(watcher.poll(content("image/png", "")), PollReaction::Quiet));
    assert!(matches!(watcher.poll(Reading::Unreadable), PollReaction::Quiet));
    assert!(matches!(watcher.poll(content("TEXT", "hello")), PollReaction::Quiet));
}

#[test]
fn emptying_is_reported_once() {
    let mut watcher = watcher();
    let empty = || Reading::Refused(PasteFailure::ClipboardEmpty);
    assert!(matches!(watcher.poll(empty()), PollReaction::Quiet));
    changed(watcher.poll(content("TEXT", "hello")));
    assert!(matches!(
        watcher.poll(Reading::Refused(PasteFailure::NoMimeType)),
        PollReaction::Emit(ClipboardEvent::Cleared)
    ));
    assert!(matches!(watcher.poll(empty()), PollReaction::Quiet));
    assert_eq!(changed(watcher.poll(content("TEXT", "hello"))).data, b"hello".to_vec());
}

#[test]
fn a_breakdown_ends_the_watcher() {
    let mut watcher = watcher();
    match watcher.poll(Reading::Refused(PasteFailure::Other("socket closed".to_string()))) {
        PollReaction::Abort(ClipboardEvent::Error(error)) => {
            assert_eq!(error.message(), "Wayland connect: socket closed")
        }
        _ => panic!("the watcher goes on"),
    }
}

#[test]
fn copied_content_is_seen_when_polled() {
    let mut watcher = watcher();
    let copy = match ext_copy(WriterCommand::set_text("snow ☃")) {
        Some(copy) => copy,
        None => panic!("nothing is copied"),
    };
    let reading = Reading::Content { mime: "UTF8_STRING".to_string(), data: copy.data };
    let seen = changed(watcher.poll(reading));
    assert_eq!(String::from_utf8(seen.data), Ok("snow ☃".to_string()));
    assert_eq!(seen.mime_type, MimeType::TextPlainUtf8);
}

#[test]
fn an_error_is_the_last_event() {
    let mut watcher = watcher();
    let mut told = Vec::new();
    for reading in [
        Reading::Refused(PasteFailure::ClipboardEmpty),
        content("TEXT", "hello"),
        Reading::Refused(PasteFailure::ClipboardEmpty),
        Reading::Refused(PasteFailure::NoMimeType),
        content("TEXT", "hello"),
        Reading::Refused(PasteFailure::Other("socket closed".to_string())),
        content("TEXT", "bye"),
    ] {
        match watcher.poll(reading) {
            PollReaction::Quiet => {}
            PollReaction::Emit(ClipboardEvent::Changed(_)) => told.push("changed"),
            PollReaction::Emit(ClipboardEvent::Cleared) => told.push("cleared"),
            PollReaction::Emit(ClipboardEvent::Error(_)) => panic!("an error that ends nothing"),
            PollReaction::Abort(_) => {
                told.push("error");
                break;
            }
        }
    }
    assert_eq!(told, vec!["changed", "cleared", "changed", "error"]);
}

#[test]
fn a_watcher_without_listeners_ends() {
    let mut watcher = watcher();
    let quiet = watcher.poll(Reading::Unreadable);
    assert_eq!(quiet.ending(), Ending::Never);
    assert!(quiet.goes_on(true));
    assert!(quiet.goes_on(false));
    assert!(quiet.into_report().is_none());

    let emit = watcher.poll(content("text/plain", "a"));
    assert_eq!(emit.ending(), Ending::Undelivered);
    assert!(emit.goes_on(true));
    assert!(!emit.goes_on(false));
    assert!(matches!(emit.into_report(), Some(ClipboardEvent::Changed(_))));

    let abort = watcher.poll(Reading::Refused(PasteFailure::Other("no seats".to_string())));
    assert_eq!(abort.ending(), Ending::Always);
    assert!(!abort.goes_on(true));
    assert!(!abort.goes_on(false));
    assert!(matches!(abort.into_report(), Some(ClipboardEvent::Error(_))));
}

#[test]
fn nothing_is_reported_after_an_undelivered_event() {
    let mut watcher = watcher();
    let mut reports = 0;
    for (data, delivered) in [("a", true), ("a", false), ("b", false), ("c", true)] {
        let reaction = watcher.poll(content("text/plain", data));
        let ending = reaction.ending();
        if reaction.into_report().is_some() {
            reports += 1;
        }
        if !ending.goes_on(delivered) {
            break;
        }
    }
    assert_eq!(reports, 2);
}

#[test]
fn empty_content_is_never_reported() {
    let mut watcher = watcher();
    for data in ["", "a", "", "b", ""] {
        if let PollReaction::Emit(ClipboardEvent::Changed(seen)) =
            watcher.poll(content("text/plain", data))
        {
            assert!(!seen.data.is_empty());
        }
    }
}
