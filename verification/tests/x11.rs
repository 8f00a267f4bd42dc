use anchor_wl_clipboard::polling::Ending;
use anchor_wl_clipboard::writer::{x11_store, WriterCommand};
use anchor_wl_clipboard::x11::{
    needs_atom, x11_connect_failed, x11_target, x11_targets, X11Action, X11Preference, X11Watcher,
};
use anchor_wl_clipboard::{ClipboardContent, ClipboardEvent, MimeType};

const UTF8: u32 = 300;
const PNG: u32 = 400;

fn preference(mime: &str, atom: Option<u32>) -> X11Preference {
    X11Preference { mime: mime.to_string(), atom }
}

fn default_watcher() -> X11Watcher {
    let preferences = vec![
        preference("text/plain;charset=utf-8", None),
        preference("text/plain", None),
        preference("image/png", Some(PNG)),
    ];
    X11Watcher::new(x11_targets(&preferences, UTF8))
}

/// Looks at a clipboard that gives `data` under `target`.
fn look(watcher: &mut X11Watcher, target: u32, data: &[u8]) -> (Vec<u32>, Option<ClipboardContent>) {
    let mut tried = Vec::new();
    let mut action = watcher.begin();
    loop {
        match action {
            X11Action::Load(atom) => {
                tried.push(atom);
                let answer = if atom == target { Some(data.to_vec()) } else { None };
                action = watcher.loaded(answer);
            }
            X11Action::Finish(None) => return (tried, None),
            X11Action::Finish(Some(ClipboardEvent::Changed(content))) => {
                return (tried, Some(content))
            }
            X11Action::Finish(Some(_)) => panic!("an event that is not a change"),
        }
    }
}

#[test]
fn only_text_needs_no_atom() {
    assert!(!needs_atom("text/plain"));
    assert!(!needs_atom("text/plain;charset=utf-8"));
    assert!(!needs_atom("text/plain; charset=utf-8"));
    assert!(needs_atom("image/png"));
    assert!(needs_atom("UTF8_STRING"));
}

#[test]
fn types_without_an_atom_are_left_out() {
    let preferences = vec![
        preference("a/a", None),
        preference("image/png", Some(PNG)),
        preference("text/plain", Some(5)),
        preference("b/b", None),
    ];
    let targets = x11_targets(&preferences, UTF8);
    assert_eq!(targets.len(), 2);
    assert_eq!(targets[0].mime, "image/png");
    assert_eq!(targets[0].mime_type, MimeType::ImagePng);
    assert_eq!(targets[0].target, PNG);
    assert_eq!(targets[1].mime, "text/plain");
    assert_eq!(targets[1].mime_type, MimeType::TextPlain);
    assert_eq!(targets[1].target, UTF8);
    assert!(x11_target(&preference("a/a", None), UTF8).is_none());
}

#[test]
fn targets_are_tried_in_order() {
    let mut watcher = default_watcher();
    let (tried, content) = look(&mut watcher, PNG, &[137, 80]);
    assert_eq!(tried, vec![UTF8, UTF8, PNG]);
    let content = match content {
        Some(content) => content,
        None => panic!("nothing was reported"),
    };
    assert_eq!(content.data, vec![137, 80]);
    assert_eq!(content.mime_type, MimeType::ImagePng);
    assert_eq!(content.available_types, vec!["image/png".to_string()]);
    let (tried, content) = look(&mut watcher, UTF8, b"hello");
    assert_eq!(tried, vec![UTF8]);
    assert!(matches!(content, Some(content) if content.mime_type == MimeType::TextPlainUtf8));
}

#[test]
fn the_same_content_is_not_reported_twice() {
    let mut watcher = default_watcher();
    assert!(look(&mut watcher, UTF8, b"hello").1.is_some());
    assert!(look(&mut watcher, UTF8, b"hello").1.is_none());
    assert!(look(&mut watcher, UTF8, b"").1.is_none());
    assert!(look(&mut watcher, UTF8, b"hello").1.is_none());
    assert!(look(&mut watcher, UTF8, b"bye").1.is_some());
}

#[test]
fn empty_answers_are_passed_over() {
    let mut watcher = default_watcher();
    assert_eq!(look(&mut watcher, UTF8, b"").0, vec![UTF8, UTF8, PNG]);
}

#[test]
fn no_targets_means_no_work() {
    let mut watcher = X11Watcher::new(vec![]);
    assert!(matches!(watcher.begin(), X11Action::Finish(None)));
    assert!(matches!(watcher.loaded(Some(vec![1])), X11Action::Finish(None)));
}

#[test]
fn an_answer_between_looks_is_ignored() {
    let mut watcher = default_watcher();
    assert!(matches!(watcher.loaded(Some(vec![1])), X11Action::Finish(None)));
    assert!(watcher.last.content.is_none());
}

#[test]
fn stored_content_is_seen() {
    let mut watcher = default_watcher();
    for (command, bytes, mime_type) in [
        (WriterCommand::set_text("snow ☃"), "snow ☃".as_bytes().to_vec(), MimeType::TextPlainUtf8),
        (WriterCommand::set_image_png(&[137, 80]), vec![137, 80], MimeType::ImagePng),
    ] {
        let store = match x11_store(command, UTF8, PNG) {
            Some(store) => store,
            None => panic!("nothing is stored"),
        };
        let content = match look(&mut watcher, store.target, &store.data).1 {
            Some(content) => content,
            None => panic!("nothing was reported"),
        };
        assert_eq!(content.data, bytes);
        assert_eq!(content.mime_type, mime_type);
        assert_eq!(content.available_types, vec![mime_type.as_str().to_string()]);
    }
}

#[test]
fn targets_keep_the_order() {
    let first = vec![preference("image/png", Some(PNG)), preference("a/a", None)];
    let rest = vec![preference("text/plain", None), preference("b/b", Some(9))];
    let all = vec![
        preference("image/png", Some(PNG)),
        preference("a/a", None),
        preference("text/plain", None),
        preference("b/b", Some(9)),
    ];
    let mut joined: Vec<u32> = x11_targets(&first, UTF8).iter().map(|t| t.target).collect();
    joined.extend(x11_targets(&rest, UTF8).iter().map(|t| t.target));
    let whole: Vec<u32> = x11_targets(&all, UTF8).iter().map(|t| t.target).collect();
    assert_eq!(whole, joined);
    assert_eq!(whole, vec![PNG, UTF8, 9]);
}

#[test]
fn stored_content_is_seen_under_the_first_preference_for_it() {
    let preferences = vec![
        preference("a/a", Some(9)),
        preference("b/b", None),
        preference("UTF8_STRING", Some(UTF8)),
        preference("text/plain", None),
    ];
    let mut watcher = X11Watcher::new(x11_targets(&preferences, UTF8));
    let (tried, content) = look(&mut watcher, UTF8, b"hello");
    assert_eq!(tried, vec![9, UTF8]);
    match content {
        Some(content) => {
            assert_eq!(content.mime_type, MimeType::Custom("UTF8_STRING".to_string()));
            assert_eq!(content.available_types, vec!["UTF8_STRING".to_string()]);
        }
        None => panic!("nothing was reported"),
    }
    assert!(look(&mut watcher, PNG, b"image").1.is_none());
}

#[test]
fn an_unreachable_server_is_an_error() {
    assert_eq!(x11_connect_failed("no display".to_string()).message(), "X11 connect: no display");
}

#[test]
fn an_x11_watcher_without_listeners_ends() {
    let mut watcher = default_watcher();
    let load = watcher.begin();
    assert!(matches!(load, X11Action::Load(UTF8)));
    assert!(load.goes_on(false));

    let finish = watcher.loaded(Some(b"a".to_vec()));
    assert!(matches!(finish, X11Action::Finish(Some(_))));
    assert_eq!(finish.ending(), Ending::Undelivered);
    assert!(finish.goes_on(true));
    assert!(!finish.goes_on(false));

    watcher.begin();
    let finish = watcher.loaded(Some(b"a".to_vec()));
    assert!(matches!(finish, X11Action::Finish(None)));
    assert_eq!(finish.ending(), Ending::Never);
    assert!(finish.goes_on(false));
}

#[test]
fn an_x11_watcher_reports_content_only() {
    let mut watcher = default_watcher();
    let mut seen = Vec::new();
    for data in ["a", "", "b"] {
        if let (_, Some(content)) = look(&mut watcher, UTF8, data.as_bytes()) {
            seen.push(content.data);
        }
    }
    assert_eq!(seen, vec![b"a".to_vec(), b"b".to_vec()]);
}
