use anchor_wl_clipboard::offers::{DeviceEvent, Offer, Outcome, WatcherState};
use anchor_wl_clipboard::writer::{
    command_content, command_result, ext_copy, x11_store, CopyMime, SourceAction, SourceEvent,
    WriterAction, WriterCommand, WriterContent, WriterInput, WriterState,
};
use anchor_wl_clipboard::{ClipboardEvent, ClipboardWatcherBuilder, Error, MimeType};

fn content(command: WriterCommand) -> WriterContent {
    match command_content(command) {
        Some(content) => content,
        None => panic!("no content"),
    }
}

fn ready() -> WriterState<u32, u32, u32> {
    let mut state = WriterState::new();
    state.globals.bind_seat(1);
    state.globals.bind_manager(2);
    state.device = Some(3);
    state
}

fn served(state: &WriterState<u32, u32, u32>, mime: &str) -> Option<Vec<u8>> {
    match state.source_event(SourceEvent::Send(mime.to_string())) {
        SourceAction::Write(data) => Some(data),
        SourceAction::Nothing => None,
        SourceAction::Destroy => panic!("the source is destroyed"),
    }
}

#[test]
fn text_is_encoded() {
    let content = content(WriterCommand::set_text("hé☃"));
    assert_eq!(content.data, vec![0x68, 0xc3, 0xa9, 0xe2, 0x98, 0x83]);
    assert_eq!(content.mime_types, vec!["text/plain;charset=utf-8", "text/plain"]);
}

#[test]
fn images_are_taken_as_they_are() {
    let content = content(WriterCommand::set_image_png(&[137, 80, 78, 71]));
    assert_eq!(content.data, vec![137, 80, 78, 71]);
    assert_eq!(content.mime_types, vec!["image/png"]);
    assert!(command_content(WriterCommand::Shutdown).is_none());
}

#[test]
fn undelivered_commands_are_errors() {
    assert!(command_result(true).is_ok());
    assert!(matches!(command_result(false), Err(Error::WatcherDead)));
}

#[test]
fn inputs_decide_what_is_done() {
    match WriterInput::Command(WriterCommand::set_text("a")).into_action() {
        WriterAction::Publish(content) => assert_eq!(content.data, vec![97]),
        _ => panic!("nothing is published"),
    }
    assert!(matches!(
        WriterInput::Command(WriterCommand::Shutdown).into_action(),
        WriterAction::Stop
    ));
    assert!(matches!(WriterInput::Timeout.into_action(), WriterAction::Flush));
    assert!(matches!(WriterInput::Disconnected.into_action(), WriterAction::Stop));
}

#[test]
fn announced_types_are_served() {
    let mut state = ready();
    assert_eq!(served(&state, "text/plain"), None);
    let announced = state.set_selection(content(WriterCommand::set_text("hi")));
    assert_eq!(
        announced,
        Some(vec!["text/plain;charset=utf-8".to_string(), "text/plain".to_string()])
    );
    assert_eq!(served(&state, "text/plain"), Some(b"hi".to_vec()));
    assert_eq!(served(&state, "text/plain;charset=utf-8"), Some(b"hi".to_vec()));
    assert_eq!(served(&state, "text/plain; charset=utf-8"), None);
    assert_eq!(served(&state, "image/png"), None);
}

#[test]
fn the_last_content_counts() {
    let mut state = ready();
    state.set_selection(content(WriterCommand::set_text("hi")));
    state.set_selection(content(WriterCommand::set_image_png(&[1, 2])));
    assert_eq!(served(&state, "text/plain"), None);
    assert_eq!(served(&state, "image/png"), Some(vec![1, 2]));
    assert!(matches!(state.source_event(SourceEvent::Cancelled), SourceAction::Destroy));
    assert_eq!(served(&state, "image/png"), Some(vec![1, 2]));
}

#[test]
fn content_needs_a_connection() {
    let mut state = ready();
    state.set_selection(content(WriterCommand::set_text("hi")));
    state.device = None;
    assert_eq!(state.set_selection(content(WriterCommand::set_text("bye"))), None);
    assert_eq!(served(&state, "text/plain"), Some(b"hi".to_vec()));
    let mut state: WriterState<u32, u32, u32> = WriterState::new();
    state.device = Some(3);
    assert_eq!(state.set_selection(content(WriterCommand::set_text("bye"))), None);
    assert_eq!(served(&state, "text/plain"), None);
}

#[test]
fn x11_content_has_a_target() {
    match x11_store(WriterCommand::set_text("hé"), 10, 20) {
        Some(store) => {
            assert_eq!(store.target, 10);
            assert_eq!(store.data, vec![0x68, 0xc3, 0xa9]);
        }
        None => panic!("nothing is stored"),
    }
    match x11_store(WriterCommand::set_image_png(&[7]), 10, 20) {
        Some(store) => {
            assert_eq!(store.target, 20);
            assert_eq!(store.data, vec![7]);
        }
        None => panic!("nothing is stored"),
    }
    assert!(x11_store(WriterCommand::Shutdown, 10, 20).is_none());
}

#[test]
fn a_clipboard_library_is_told_the_type() {
    match ext_copy(WriterCommand::set_text("hi")) {
        Some(copy) => {
            assert_eq!(copy.data, b"hi".to_vec());
            assert!(matches!(copy.mime, CopyMime::Text));
        }
        None => panic!("nothing is copied"),
    }
    match ext_copy(WriterCommand::set_image_png(&[7])) {
        Some(copy) => {
            assert_eq!(copy.data, vec![7]);
            assert!(matches!(copy.mime, CopyMime::Specific(mime) if mime == "image/png"));
        }
        None => panic!("nothing is copied"),
    }
    assert!(ext_copy(WriterCommand::Shutdown).is_none());
}

#[test]
fn written_content_is_read_back() {
    for (command, bytes, mime_type) in [
        (WriterCommand::set_text("snow ☃"), "snow ☃".as_bytes().to_vec(), MimeType::TextPlainUtf8),
        (WriterCommand::set_image_png(&[137, 80]), vec![137, 80], MimeType::ImagePng),
    ] {
        let mut writer = ready();
        let announced = match writer.set_selection(content(command)) {
            Some(announced) => announced,
            None => panic!("nothing is announced"),
        };
        let builder = ClipboardWatcherBuilder::new();
        let mut watcher: WatcherState<u32> =
            WatcherState::new(builder.mime_preferences, builder.watch_primary);
        watcher.device_event(DeviceEvent::DataOffer(Offer { id: 8, object: 80 }));
        for mime in &announced {
            watcher.offer_mime(mime.clone());
        }
        let selection = DeviceEvent::Selection(Some(Offer { id: 8, object: 80 }));
        let receive = match watcher.device_event(selection).outcome {
            Outcome::Receive(receive) => receive,
            _ => panic!("nothing is read"),
        };
        let data = match served(&writer, &receive.mime) {
            Some(data) => data,
            None => panic!("nothing is served"),
        };
        match receive.transfer.finish(data, true) {
            Some(ClipboardEvent::Changed(seen)) => {
                assert_eq!(seen.data, bytes);
                assert_eq!(seen.mime_type, mime_type);
                assert_eq!(seen.available_types, announced);
            }
            _ => panic!("nothing is reported"),
        }
    }
}

#[test]
fn every_command_is_published_until_the_end() {
    let mut state = ready();
    let mut published = Vec::new();
    for input in [
        WriterInput::Timeout,
        WriterInput::Command(WriterCommand::set_image_png(&[1])),
        WriterInput::Command(WriterCommand::set_image_png(&[2])),
        WriterInput::Timeout,
        WriterInput::Command(WriterCommand::Shutdown),
        WriterInput::Command(WriterCommand::set_image_png(&[3])),
    ] {
        match input.into_action() {
            WriterAction::Publish(content) => {
                published.push(content.data.clone());
                state.set_selection(content);
            }
            WriterAction::Flush => {}
            WriterAction::Stop => break,
        }
    }
    assert_eq!(published, vec![vec![1], vec![2]]);
    assert_eq!(served(&state, "image/png"), Some(vec![2]));
}

#[test]
fn backends_publish_the_same_bytes() {
    let command = || WriterCommand::set_text("snow ☃");
    let bytes = content(command()).data;
    assert_eq!(bytes, "snow ☃".as_bytes().to_vec());
    assert_eq!(x11_store(command(), 1, 2).map(|store| store.data), Some(bytes.clone()));
    assert_eq!(ext_copy(command()).map(|copy| copy.data), Some(bytes));
}

fn some_commands() -> Vec<WriterCommand> {
    vec![
        WriterCommand::set_text("a"),
        WriterCommand::set_image_png(&[7]),
        WriterCommand::set_text("b"),
        WriterCommand::Shutdown,
        WriterCommand::set_text("c"),
    ]
}

#[test]
fn every_command_is_stored_until_the_end() {
    let mut stored = Vec::new();
    for command in some_commands() {
        match x11_store(command, 10, 20) {
            Some(store) => stored.push((store.target, store.data)),
            None => break,
        }
    }
    assert_eq!(stored, vec![(10, b"a".to_vec()), (20, vec![7]), (10, b"b".to_vec())]);
}

#[test]
fn every_command_is_copied_until_the_end() {
    let mut copied = Vec::new();
    for command in some_commands() {
        match ext_copy(command) {
            Some(copy) => copied.push(copy.data),
            None => break,
        }
    }
    assert_eq!(copied, vec![b"a".to_vec(), vec![7], b"b".to_vec()]);
}

#[test]
fn only_the_last_command_is_served() {
    let mut state = ready();
    state.set_selection(content(WriterCommand::set_image_png(&[7])));
    state.set_selection(content(WriterCommand::set_text("hi")));
    assert_eq!(served(&state, "text/plain;charset=utf-8"), Some(b"hi".to_vec()));
    assert_eq!(served(&state, "text/plain"), Some(b"hi".to_vec()));
    assert_eq!(served(&state, "image/png"), None);
    assert_eq!(served(&state, "UTF8_STRING"), None);
}
