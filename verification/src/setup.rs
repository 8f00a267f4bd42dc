//! The steps by which a connection to a Wayland compositor is set up.
//!
//! A watcher and a writer take the same steps: connect, learn which global objects there are,
//! create the data-control device, wait until the compositor has caught up, and start the thread
//! that serves the connection.
use vstd::prelude::*;

use crate::content::{ClipboardEvent, EventView};
use crate::error::{Error, ErrorView};
use crate::globals::Globals;

verus! {

/// The step that comes next.
#[derive(Debug, Clone, Copy, PartialEq, Eq, Structural)]
pub enum SetupPhase {
    /// Connect to the compositor.
    Connect,
    /// Wait for the announcements of the global objects.
    Discover,
    /// Create the data-control device.
    CreateDevice,
    /// Wait for the compositor to have handled the device.
    Synchronize,
    /// Start the thread.
    Spawn,
    /// Nothing: the connection is set up.
    Running,
}

/// The step that comes after `phase` has succeeded, or the error that stops the setup; `lack` is
/// what is missing among the global objects.
pub open spec fn next_phase(phase: SetupPhase, lack: Option<ErrorView>) -> Result<
    SetupPhase,
    ErrorView,
> {
    match phase {
        SetupPhase::Connect => Ok(SetupPhase::Discover),
        SetupPhase::Discover => match lack {
            Some(error) => Err(error),
            None => Ok(SetupPhase::CreateDevice),
        },
        SetupPhase::CreateDevice => Ok(SetupPhase::Synchronize),
        SetupPhase::Synchronize => Ok(SetupPhase::Spawn),
        SetupPhase::Spawn => Ok(SetupPhase::Running),
        SetupPhase::Running => Ok(SetupPhase::Running),
    }
}

impl SetupPhase {
    /// The step that comes after this one has succeeded.  The global objects that were found by
    /// then decide whether there is anything to create a device with.
    pub fn succeeded<S, M>(self, globals: &Globals<S, M>) -> (next: Result<SetupPhase, Error>)
        ensures
            match next_phase(self, globals.lack()) {
                Ok(phase) => next == Ok::<SetupPhase, Error>(phase),
                Err(error) => next matches Err(actual) && actual@ == error,
            },
    {
        match self {
            SetupPhase::Connect => Ok(SetupPhase::Discover),
            SetupPhase::Discover => match globals.check() {
                Ok(_) => Ok(SetupPhase::CreateDevice),
                Err(error) => Err(error),
            },
            SetupPhase::CreateDevice => Ok(SetupPhase::Synchronize),
            SetupPhase::Synchronize => Ok(SetupPhase::Spawn),
            SetupPhase::Spawn => Ok(SetupPhase::Running),
            SetupPhase::Running => Ok(SetupPhase::Running),
        }
    }
}

/// Why a step failed.
pub enum StepFailure {
    /// The compositor could not be reached, or stopped answering; the text says why.
    Compositor(String),
    /// The operating system refused.
    System(std::io::Error),
}

/// A [`StepFailure`] as a mathematical value.
pub enum StepFailureView {
    Compositor(Seq<char>),
    System(std::io::Error),
}

impl View for StepFailure {
    type V = StepFailureView;

    open spec fn view(&self) -> StepFailureView {
        match *self {
            StepFailure::Compositor(reason) => StepFailureView::Compositor(reason@),
            StepFailure::System(e) => StepFailureView::System(e),
        }
    }
}

/// What stands before the reason why a step failed: which of the two waits for the compositor it
/// was.
pub open spec fn failure_prefix(phase: SetupPhase) -> Seq<char> {
    match phase {
        SetupPhase::Discover => "roundtrip: "@,
        SetupPhase::Synchronize => "roundtrip2: "@,
        _ => Seq::empty(),
    }
}

/// The error when a step has failed.
pub open spec fn phase_error(phase: SetupPhase, failure: StepFailureView) -> ErrorView {
    match failure {
        StepFailureView::Compositor(reason) => ErrorView::WaylandConnect(
            failure_prefix(phase) + reason,
        ),
        StepFailureView::System(e) => ErrorView::Io(e),
    }
}

impl SetupPhase {
    /// The error when this step has failed.
    pub fn failed(self, failure: StepFailure) -> (error: Error)
        ensures
            error@ == phase_error(self, failure@),
    {
        match failure {
            StepFailure::Compositor(reason) => {
                let text = match self {
                    SetupPhase::Discover => "roundtrip: ".to_string().concat(reason.as_str()),
                    SetupPhase::Synchronize => "roundtrip2: ".to_string().concat(reason.as_str()),
                    _ => {
                        assert(Seq::<char>::empty() + reason@ =~= reason@);
                        reason
                    },
                };
                Error::WaylandConnect(text)
            },
            StepFailure::System(e) => Error::from(e),
        }
    }
}

/// What a watcher reports, as its last word, when the connection has failed.
pub fn dispatch_failed(reason: &str) -> (event: ClipboardEvent)
    ensures
        event@ == EventView::Error(ErrorView::WaylandConnect("dispatch: "@ + reason@)),
{
    ClipboardEvent::Error(Error::WaylandConnect("dispatch: ".to_string().concat(reason)))
}

/// How far a setup has come once as many steps have succeeded as `lacks` has elements; each of them
/// is what was missing among the global objects at the end of a step.
pub open spec fn after_phases(lacks: Seq<Option<ErrorView>>) -> Result<SetupPhase, ErrorView>
    decreases lacks.len(),
{
    if lacks.len() == 0 {
        Ok(SetupPhase::Connect)
    } else {
        match after_phases(lacks.drop_last()) {
            Ok(phase) => next_phase(phase, lacks.last()),
            Err(error) => Err(error),
        }
    }
}

/// The phase that a number of steps lead to, where nothing fails.
pub open spec fn phase_at(steps: nat) -> SetupPhase {
    if steps == 0 {
        SetupPhase::Connect
    } else if steps == 1 {
        SetupPhase::Discover
    } else if steps == 2 {
        SetupPhase::CreateDevice
    } else if steps == 3 {
        SetupPhase::Synchronize
    } else if steps == 4 {
        SetupPhase::Spawn
    } else {
        SetupPhase::Running
    }
}

/// The steps come in their order, and a setup gets past the second one exactly if nothing is
/// missing among the global objects then; otherwise it ends with what is missing.  In particular no
/// device is created without a seat and a manager.
pub proof fn law_setup_needs_both_globals(lacks: Seq<Option<ErrorView>>)
    ensures
        after_phases(lacks) == (if lacks.len() >= 2 && lacks[1] is Some {
            Err::<SetupPhase, ErrorView>(lacks[1]->0)
        } else {
            Ok(phase_at(lacks.len()))
        }),
    decreases lacks.len(),
{
    if lacks.len() > 0 {
        law_setup_needs_both_globals(lacks.drop_last());
    }
}

/// The error of a setup that fails says at which step: connecting gives the bare reason, the two
/// waits for the compositor give it behind their own prefixes, and a thread that cannot be started
/// gives what the operating system says.
pub proof fn law_failures_name_their_step(
    lacks: Seq<Option<ErrorView>>,
    reason: Seq<char>,
    e: std::io::Error,
)
    requires
        after_phases(lacks) is Ok,
    ensures
        ({
            let phase = after_phases(lacks)->Ok_0;
            let refused = phase_error(phase, StepFailureView::Compositor(reason));
            &&& lacks.len() == 0 ==> refused == ErrorView::WaylandConnect(reason)
            &&& lacks.len() == 1 ==> refused == ErrorView::WaylandConnect("roundtrip: "@ + reason)
            &&& lacks.len() == 3 ==> refused == ErrorView::WaylandConnect("roundtrip2: "@ + reason)
            &&& lacks.len() == 4 ==> phase_error(phase, StepFailureView::System(e))
                == ErrorView::Io(e)
        }),
{
    law_setup_needs_both_globals(lacks);
    assert(Seq::<char>::empty() + reason =~= reason);
}

/// Each step leads to the next one, and the last one to itself.  Only the discovery of the global
/// objects can stop the setup, and it does exactly if something is missing among them, with an error
/// that says what.
pub proof fn law_steps_follow_each_other(lack: Option<ErrorView>, missing: ErrorView)
    ensures
        next_phase(SetupPhase::Connect, lack) == Ok::<SetupPhase, ErrorView>(SetupPhase::Discover),
        next_phase(SetupPhase::Discover, None) == Ok::<SetupPhase, ErrorView>(
            SetupPhase::CreateDevice,
        ),
        next_phase(SetupPhase::Discover, Some(missing)) == Err::<SetupPhase, ErrorView>(missing),
        next_phase(SetupPhase::CreateDevice, lack) == Ok::<SetupPhase, ErrorView>(
            SetupPhase::Synchronize,
        ),
        next_phase(SetupPhase::Synchronize, lack) == Ok::<SetupPhase, ErrorView>(SetupPhase::Spawn),
        next_phase(SetupPhase::Spawn, lack) == Ok::<SetupPhase, ErrorView>(SetupPhase::Running),
        next_phase(SetupPhase::Running, lack) == Ok::<SetupPhase, ErrorView>(SetupPhase::Running),
{
}

/// Where nothing is missing, five steps lead from the beginning to a connection that is set up, and
/// more steps change nothing.
pub proof fn law_setup_takes_five_steps(lacks: Seq<Option<ErrorView>>)
    requires
        forall|i: int| 0 <= i < lacks.len() ==> #[trigger] lacks[i] is None,
    ensures
        lacks.len() < 5 ==> after_phases(lacks) != Ok::<SetupPhase, ErrorView>(SetupPhase::Running),
        lacks.len() >= 5 ==> after_phases(lacks) == Ok::<SetupPhase, ErrorView>(
            SetupPhase::Running,
        ),
{
    law_setup_needs_both_globals(lacks);
    if lacks.len() >= 2 {
        assert(lacks[1] is None);
    }
}

/// What the compositor has answered comes with the name of the wait that it ended, and bare at every
/// other step; what the operating system says is passed on as it is, at every step.
pub proof fn law_every_failure_has_its_error(
    phase: SetupPhase,
    reason: Seq<char>,
    e: std::io::Error,
)
    ensures
        ({
            let refused = phase_error(phase, StepFailureView::Compositor(reason));
            &&& phase is Discover ==> refused == ErrorView::WaylandConnect("roundtrip: "@ + reason)
            &&& phase is Synchronize ==> refused == ErrorView::WaylandConnect(
                "roundtrip2: "@ + reason,
            )
            &&& !(phase is Discover) && !(phase is Synchronize) ==> refused
                == ErrorView::WaylandConnect(reason)
            &&& phase_error(phase, StepFailureView::System(e)) == ErrorView::Io(e)
        }),
{
    assert(Seq::<char>::empty() + reason =~= reason);
}

/// The mathematical value holds why a step failed.
pub proof fn law_step_failure_view(reason: String, e: std::io::Error)
    ensures
        StepFailure::Compositor(reason)@ == StepFailureView::Compositor(reason@),
        StepFailure::System(e)@ == StepFailureView::System(e),
{
}

} // verus!
