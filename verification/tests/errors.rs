use anchor_wl_clipboard::backend::{Backend, BackendSearch};
use anchor_wl_clipboard::builder::WatcherSearch;
use anchor_wl_clipboard::globals::{Binding, Globals};
use anchor_wl_clipboard::setup::{dispatch_failed, SetupPhase, StepFailure};
use anchor_wl_clipboard::{ClipboardEvent, ClipboardWatcherBuilder, Error};

#[test]
fn errors_describe_themselves() {
    assert_eq!(Error::WaylandConnect("gone".to_string()).message(), "Wayland connect: gone");
    assert_eq!(Error::X11Connect("refused".to_string()).message(), "X11 connect: refused");
    let none = Error::NoBackend { wayland: "a".to_string(), x11: "b".to_string() };
    assert_eq!(none.message(), "no clipboard backend available (Wayland: a; X11: b)");
    assert_eq!(
        Error::UnsupportedProtocol.message(),
        "Compositor does not support zwlr_data_control_manager_v1"
    );
    assert_eq!(Error::WatcherDead.message(), "Watcher thread stopped");
}

#[test]
fn io_errors_carry_their_own_text() {
    let error = Error::from(std::io::Error::new(std::io::ErrorKind::Other, "disk on fire"));
    assert!(matches!(error, Error::Io(_)));
    assert_eq!(error.message(), "I/O: disk on fire");
    assert_eq!(error.message_with("something else"), "I/O: something else");
    assert_eq!(Error::WatcherDead.message_with("something else"), "Watcher thread stopped");
}

#[test]
fn backends_are_tried_in_order() {
    let search = BackendSearch::new();
    assert_eq!(search.backend(), Backend::Wlr);
    let search = match search.failed("one".to_string()) {
        Ok(search) => search,
        Err(_) => panic!("given up after the first backend"),
    };
    assert_eq!(search.backend(), Backend::Ext);
    let search = match search.failed("two".to_string()) {
        Ok(search) => search,
        Err(_) => panic!("given up after the second backend"),
    };
    assert_eq!(search.backend(), Backend::X11);
    match search.failed("three".to_string()) {
        Ok(_) => panic!("a fourth backend"),
        Err(Error::NoBackend { wayland, x11 }) => {
            assert_eq!(wayland, "wlr: one; ext/wlr: two");
            assert_eq!(x11, "three");
        }
        Err(_) => panic!("another error"),
    }
}

#[test]
fn globals_are_bound_in_known_versions() {
    let mut globals: Globals<u32, &str> = Globals::new();
    assert_eq!(globals.announced("wl_seat", 9), Binding::Seat { version: 7 });
    assert_eq!(globals.announced("wl_seat", 5), Binding::Seat { version: 5 });
    assert_eq!(
        globals.announced("zwlr_data_control_manager_v1", 1),
        Binding::Manager { version: 1 }
    );
    assert_eq!(
        globals.announced("zwlr_data_control_manager_v1", 3),
        Binding::Manager { version: 2 }
    );
    assert_eq!(globals.announced("wl_output", 4), Binding::Ignore);
    globals.bind_seat(11);
    assert_eq!(globals.announced("wl_seat", 9), Binding::Ignore);
    globals.bind_manager("first");
    assert_eq!(
        globals.announced("zwlr_data_control_manager_v1", 2),
        Binding::Manager { version: 2 }
    );
    globals.bind_manager("second");
    assert_eq!(globals.seat, Some(11));
    assert_eq!(globals.manager, Some("second"));
}

#[test]
fn a_missing_manager_is_noticed_first() {
    let mut globals: Globals<u32, u32> = Globals::new();
    assert!(matches!(globals.check(), Err(Error::UnsupportedProtocol)));
    globals.bind_seat(1);
    assert!(matches!(globals.check(), Err(Error::UnsupportedProtocol)));
    globals.bind_manager(2);
    assert!(globals.check().is_ok());
    let mut globals: Globals<u32, u32> = Globals::new();
    globals.bind_manager(2);
    match globals.check() {
        Err(Error::WaylandConnect(reason)) => assert_eq!(reason, "No wl_seat found"),
        _ => panic!("a missing seat went unnoticed"),
    }
}

#[test]
fn setup_goes_step_by_step() {
    let mut globals: Globals<u32, u32> = Globals::new();
    globals.bind_seat(1);
    globals.bind_manager(2);
    let mut phase = SetupPhase::Connect;
    for expected in [
        SetupPhase::Discover,
        SetupPhase::CreateDevice,
        SetupPhase::Synchronize,
        SetupPhase::Spawn,
        SetupPhase::Running,
        SetupPhase::Running,
    ] {
        phase = match phase.succeeded(&globals) {
            Ok(next) => next,
            Err(_) => panic!("the setup has stopped"),
        };
        assert_eq!(phase, expected);
    }
}

#[test]
fn setup_stops_without_globals() {
    let globals: Globals<u32, u32> = Globals::new();
    assert!(matches!(SetupPhase::Connect.succeeded(&globals), Ok(SetupPhase::Discover)));
    assert!(matches!(
        SetupPhase::Discover.succeeded(&globals),
        Err(Error::UnsupportedProtocol)
    ));
}

#[test]
fn setup_failures_say_where() {
    let text = |phase: SetupPhase| phase.failed(StepFailure::Compositor("x".to_string())).message();
    assert_eq!(text(SetupPhase::Connect), "Wayland connect: x");
    assert_eq!(text(SetupPhase::Discover), "Wayland connect: roundtrip: x");
    assert_eq!(text(SetupPhase::CreateDevice), "Wayland connect: x");
    assert_eq!(text(SetupPhase::Synchronize), "Wayland connect: roundtrip2: x");
    let io = std::io::Error::new(std::io::ErrorKind::Other, "no threads left");
    let error = SetupPhase::Spawn.failed(StepFailure::System(io));
    assert_eq!(error.message(), "I/O: no threads left");
    match dispatch_failed("broken pipe") {
        ClipboardEvent::Error(error) => {
            assert_eq!(error.message(), "Wayland connect: dispatch: broken pipe")
        }
        _ => panic!("not an error"),
    }
}

#[test]
fn every_backend_gets_the_settings() {
    let settings = ClipboardWatcherBuilder::new()
        .mime_preferences(vec!["a/a".to_string()])
        .watch_primary(true);
    let mut search = WatcherSearch::new(settings);
    for backend in [Backend::Wlr, Backend::Ext, Backend::X11] {
        assert_eq!(search.backend(), backend);
        assert_eq!(search.settings.mime_preferences, vec!["a/a".to_string()]);
        assert!(search.settings.watch_primary);
        search = match search.failed("no".to_string()) {
            Ok(next) => next,
            Err(error) => {
                assert_eq!(backend, Backend::X11);
                assert_eq!(
                    error.message(),
                    "no clipboard backend available (Wayland: wlr: no; ext/wlr: no; X11: no)"
                );
                return;
            }
        };
    }
    panic!("a fourth backend");
}

#[test]
fn the_first_seat_and_the_last_manager_count() {
    let mut globals: Globals<u32, u32> = Globals::new();
    let mut bound = Vec::new();
    for (name, interface, version) in [
        (1, "wl_output", 4),
        (2, "zwlr_data_control_manager_v1", 1),
        (3, "wl_seat", 9),
        (4, "wl_seat", 5),
        (5, "zwlr_data_control_manager_v1", 3),
    ] {
        match globals.announced(interface, version) {
            Binding::Seat { version } => {
                bound.push((name, version));
                globals.bind_seat(name);
            }
            Binding::Manager { version } => {
                bound.push((name, version));
                globals.bind_manager(name);
            }
            Binding::Ignore => {}
        }
    }
    assert_eq!(bound, vec![(2, 1), (3, 7), (5, 2)]);
    assert_eq!(globals.seat, Some(3));
    assert_eq!(globals.manager, Some(5));
}
