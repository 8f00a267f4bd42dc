//! Errors of the library and the text that describes them.
use vstd::prelude::*;

verus! {

/// `std::io::Error`, which an [`Error`] carries with it.  Nothing is claimed of what it holds.
#[verifier::external_type_specification]
#[verifier::external_body]
pub struct ExIoError(std::io::Error);

/// Errors returned by the library.
#[derive(Debug)]
pub enum Error {
    /// The Wayland compositor could not be reached, or stopped answering.
    WaylandConnect(String),
    /// The X server could not be reached.
    X11Connect(String),
    /// None of the backends is available; the texts say what each of them answered.
    NoBackend { wayland: String, x11: String },
    /// The compositor offers no data-control manager.
    UnsupportedProtocol,
    /// An operation of the operating system failed.
    Io(std::io::Error),
    /// The thread that serves the clipboard is gone.
    WatcherDead,
}

/// An [`Error`] with its texts as sequences of characters.
pub enum ErrorView {
    WaylandConnect(Seq<char>),
    X11Connect(Seq<char>),
    NoBackend { wayland: Seq<char>, x11: Seq<char> },
    UnsupportedProtocol,
    Io(std::io::Error),
    WatcherDead,
}

impl View for Error {
    type V = ErrorView;

    open spec fn view(&self) -> ErrorView {
        match *self {
            Error::WaylandConnect(s) => ErrorView::WaylandConnect(s@),
            Error::X11Connect(s) => ErrorView::X11Connect(s@),
            Error::NoBackend { wayland, x11 } => ErrorView::NoBackend {
                wayland: wayland@,
                x11: x11@,
            },
            Error::UnsupportedProtocol => ErrorView::UnsupportedProtocol,
            Error::Io(e) => ErrorView::Io(e),
            Error::WatcherDead => ErrorView::WatcherDead,
        }
    }
}

impl ErrorView {
    /// The text that describes the error, where `io_text` is what the operating system says of an
    /// input/output error.
    pub open spec fn message(self, io_text: Seq<char>) -> Seq<char> {
        match self {
            ErrorView::WaylandConnect(s) => "Wayland connect: "@ + s,
            ErrorView::X11Connect(s) => "X11 connect: "@ + s,
            ErrorView::NoBackend { wayland, x11 } => "no clipboard backend available (Wayland: "@
                + wayland + "; X11: "@ + x11 + ")"@,
            ErrorView::UnsupportedProtocol =>
                "Compositor does not support zwlr_data_control_manager_v1"@,
            ErrorView::Io(_) => "I/O: "@ + io_text,
            ErrorView::WatcherDead => "Watcher thread stopped"@,
        }
    }

    /// Whether `text` is one that the conversion of `e` to a string may give.
    pub open spec fn io_text(e: std::io::Error, text: String) -> bool {
        vstd::string::to_string_from_display_ensures::<std::io::Error>(&e, text)
    }

    /// Whether `text` describes the error.  Every error but [`ErrorView::Io`] has exactly one
    /// description; that one is described by any text that its own conversion to a string may
    /// give, behind a fixed prefix.
    pub open spec fn described_by(self, text: Seq<char>) -> bool {
        if self is Io {
            exists|io_text: String| #[trigger]
                ErrorView::io_text(self->Io_0, io_text) && text == self.message(io_text@)
        } else {
            text == self.message(Seq::empty())
        }
    }
}

impl Error {
    /// The text that describes the error, where `io_text` is what the operating system says of an
    /// input/output error.  The other errors do not depend on it.
    pub fn message_with(&self, io_text: &str) -> (text: String)
        ensures
            text@ == self@.message(io_text@),
    {
        match self {
            Error::WaylandConnect(s) => "Wayland connect: ".to_string().concat(s.as_str()),
            Error::X11Connect(s) => "X11 connect: ".to_string().concat(s.as_str()),
            Error::NoBackend { wayland, x11 } => {
                "no clipboard backend available (Wayland: ".to_string().concat(
                    wayland.as_str(),
                ).concat("; X11: ").concat(x11.as_str()).concat(")")
            },
            Error::UnsupportedProtocol => {
                "Compositor does not support zwlr_data_control_manager_v1".to_string()
            },
            Error::Io(_) => "I/O: ".to_string().concat(io_text),
            Error::WatcherDead => "Watcher thread stopped".to_string(),
        }
    }

    /// The text that describes the error.
    pub fn message(&self) -> (text: String)
        ensures
            self@.described_by(text@),
    {
        match self {
            Error::Io(e) => {
                let io_text = e.to_string();
                assert(ErrorView::io_text(self@->Io_0, io_text));
                self.message_with(io_text.as_str())
            },
            _ => self.message_with(""),
        }
    }
}

impl From<std::io::Error> for Error {
    fn from(e: std::io::Error) -> (error: Self) {
        Error::Io(e)
    }
}

impl vstd::std_specs::convert::FromSpecImpl<std::io::Error> for Error {
    open spec fn obeys_from_spec() -> bool {
        true
    }

    open spec fn from_spec(e: std::io::Error) -> Self {
        Error::Io(e)
    }
}

/// The text of an error says what has failed and holds every reason that the error holds, unchanged.
pub proof fn law_messages_hold_the_reasons(
    s: Seq<char>,
    wayland: Seq<char>,
    x11: Seq<char>,
    e: std::io::Error,
    io_text: Seq<char>,
)
    ensures
        ErrorView::WaylandConnect(s).message(io_text) == "Wayland connect: "@ + s,
        ErrorView::X11Connect(s).message(io_text) == "X11 connect: "@ + s,
        (ErrorView::NoBackend { wayland, x11 }).message(io_text)
            == "no clipboard backend available (Wayland: "@ + wayland + "; X11: "@ + x11 + ")"@,
        ErrorView::UnsupportedProtocol.message(io_text)
            == "Compositor does not support zwlr_data_control_manager_v1"@,
        ErrorView::Io(e).message(io_text) == "I/O: "@ + io_text,
        ErrorView::WatcherDead.message(io_text) == "Watcher thread stopped"@,
{
}

/// An error that does not come from the operating system has one description, and two errors of
/// that kind that differ only in a reason have different ones.
pub proof fn law_descriptions_tell_reasons_apart(
    error: ErrorView,
    text: Seq<char>,
    io_text: Seq<char>,
    first: Seq<char>,
    second: Seq<char>,
)
    ensures
        !(error is Io) ==> (error.described_by(text) <==> text == error.message(io_text)),
        first != second ==> ErrorView::WaylandConnect(first).message(io_text)
            != ErrorView::WaylandConnect(second).message(io_text),
        first != second ==> ErrorView::X11Connect(first).message(io_text)
            != ErrorView::X11Connect(second).message(io_text),
{
    let wayland = "Wayland connect: "@;
    let x11 = "X11 connect: "@;
    assert((wayland + first).skip(wayland.len() as int) =~= first);
    assert((wayland + second).skip(wayland.len() as int) =~= second);
    assert((x11 + first).skip(x11.len() as int) =~= first);
    assert((x11 + second).skip(x11.len() as int) =~= second);
}

/// What describes an error of the operating system is a text that its conversion to a string gives,
/// behind a prefix.
pub proof fn law_io_errors_describe_themselves(e: std::io::Error, text: Seq<char>)
    ensures
        ErrorView::Io(e).described_by(text) <==> exists|io_text: String| #[trigger]
            vstd::string::to_string_from_display_ensures::<std::io::Error>(&e, io_text) && text
                == "I/O: "@ + io_text@,
{
    let error = ErrorView::Io(e);
    if error.described_by(text) {
        let io_text = choose|io_text: String| #[trigger]
            ErrorView::io_text(error->Io_0, io_text) && text == error.message(io_text@);
        assert(vstd::string::to_string_from_display_ensures::<std::io::Error>(&e, io_text));
    }
    if exists|io_text: String| #[trigger]
        vstd::string::to_string_from_display_ensures::<std::io::Error>(&e, io_text) && text
            == "I/O: "@ + io_text@ {
        let io_text = choose|io_text: String| #[trigger]
            vstd::string::to_string_from_display_ensures::<std::io::Error>(&e, io_text) && text
                == "I/O: "@ + io_text@;
        assert(ErrorView::io_text(error->Io_0, io_text) && text == error.message(io_text@));
    }
}

/// The mathematical value holds what the error holds, and an error that is made of one of the
/// operating system holds that one.
pub proof fn law_error_views(s: String, wayland: String, x11: String, e: std::io::Error)
    ensures
        Error::WaylandConnect(s)@ == ErrorView::WaylandConnect(s@),
        Error::X11Connect(s)@ == ErrorView::X11Connect(s@),
        (Error::NoBackend { wayland, x11 })@ == (ErrorView::NoBackend {
            wayland: wayland@,
            x11: x11@,
        }),
        Error::UnsupportedProtocol@ == ErrorView::UnsupportedProtocol,
        Error::Io(e)@ == ErrorView::Io(e),
        Error::WatcherDead@ == ErrorView::WatcherDead,
        <Error as vstd::std_specs::convert::FromSpec<std::io::Error>>::from_spec(e) == Error::Io(e),
{
}

} // verus!
