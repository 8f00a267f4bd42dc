//! Finding the two objects of a Wayland compositor that clipboard access needs.
//!
//! The compositor announces its global objects one by one.  Of these a seat and a data-control
//! manager are bound.  The bound objects are only handed on, so their types are parameters.
use vstd::prelude::*;

use crate::error::{Error, ErrorView};
use crate::text::same_text;

verus! {

/// The newest version of a seat that is asked for.
pub const SEAT_VERSION: u32 = 7;

/// The newest version of a data-control manager that is asked for.
pub const MANAGER_VERSION: u32 = 2;

/// The objects that were found.
pub struct Globals<S, M> {
    pub seat: Option<S>,
    pub manager: Option<M>,
}

/// What to do about a global object that was announced.
#[derive(Debug, Clone, Copy, PartialEq, Eq, Structural)]
pub enum Binding {
    /// Bind it as the seat, in this version.
    Seat { version: u32 },
    /// Bind it as the data-control manager, in this version.
    Manager { version: u32 },
    /// Leave it alone.
    Ignore,
}

/// The older of two versions.
pub open spec fn older(left: u32, right: u32) -> u32 {
    if left <= right {
        left
    } else {
        right
    }
}

impl<S, M> Globals<S, M> {
    /// What to do about a global object: the first seat is bound, and every manager.
    pub open spec fn binding(self, interface: Seq<char>, version: u32) -> Binding {
        if interface == "wl_seat"@ {
            if self.seat is None {
                Binding::Seat { version: older(version, SEAT_VERSION) }
            } else {
                Binding::Ignore
            }
        } else if interface == "zwlr_data_control_manager_v1"@ {
            Binding::Manager { version: older(version, MANAGER_VERSION) }
        } else {
            Binding::Ignore
        }
    }

    /// What is missing, if anything is: a manager first of all.
    pub open spec fn lack(self) -> Option<ErrorView> {
        if self.manager is None {
            Some(ErrorView::UnsupportedProtocol)
        } else if self.seat is None {
            Some(ErrorView::WaylandConnect("No wl_seat found"@))
        } else {
            None
        }
    }

    /// Before the first announcement.
    pub fn new() -> (globals: Self)
        ensures
            globals == (Globals::<S, M> { seat: None, manager: None }),
    {
        Globals { seat: None, manager: None }
    }

    /// What to do about a global object that was announced.
    pub fn announced(&self, interface: &str, version: u32) -> (binding: Binding)
        ensures
            binding == self.binding(interface@, version),
    {
        if same_text(interface, "wl_seat") {
            if self.seat.is_none() {
                Binding::Seat {
                    version: if version <= SEAT_VERSION {
                        version
                    } else {
                        SEAT_VERSION
                    },
                }
            } else {
                Binding::Ignore
            }
        } else if same_text(interface, "zwlr_data_control_manager_v1") {
            Binding::Manager {
                version: if version <= MANAGER_VERSION {
                    version
                } else {
                    MANAGER_VERSION
                },
            }
        } else {
            Binding::Ignore
        }
    }

    /// Notes the seat that was bound.
    pub fn bind_seat(&mut self, seat: S)
        ensures
            *final(self) == (Globals { seat: Some(seat), ..*old(self) }),
    {
        self.seat = Some(seat);
    }

    /// Notes the manager that was bound.
    pub fn bind_manager(&mut self, manager: M)
        ensures
            *final(self) == (Globals { manager: Some(manager), ..*old(self) }),
    {
        self.manager = Some(manager);
    }

    /// Whether both objects were found.
    pub fn check(&self) -> (complete: Result<(), Error>)
        ensures
            match self.lack() {
                Some(lack) => complete matches Err(error) && error@ == lack,
                None => complete is Ok,
            },
    {
        if self.manager.is_none() {
            Err(Error::UnsupportedProtocol)
        } else if self.seat.is_none() {
            Err(Error::WaylandConnect("No wl_seat found".to_string()))
        } else {
            Ok(())
        }
    }
}

/// A global object that is announced, with what binding it as a seat or as a manager would give.
pub struct Announcement<S, M> {
    pub interface: Seq<char>,
    pub version: u32,
    pub seat: S,
    pub manager: M,
}

impl<S, M> Globals<S, M> {
    /// What is found after an announcement that is handled as `binding` says.
    pub open spec fn after(self, global: Announcement<S, M>) -> Globals<S, M> {
        match self.binding(global.interface, global.version) {
            Binding::Seat { .. } => Globals { seat: Some(global.seat), ..self },
            Binding::Manager { .. } => Globals { manager: Some(global.manager), ..self },
            Binding::Ignore => self,
        }
    }

    /// What is found after several announcements.
    pub open spec fn after_all(self, globals: Seq<Announcement<S, M>>) -> Globals<S, M>
        decreases globals.len(),
    {
        if globals.len() == 0 {
            self
        } else {
            self.after_all(globals.drop_last()).after(globals.last())
        }
    }
}

/// No object is bound in a version that the compositor does not have, or in one newer than those
/// that are known.
pub proof fn law_versions_are_known<S, M>(
    found: Globals<S, M>,
    interface: Seq<char>,
    version: u32,
)
    ensures
        match found.binding(interface, version) {
            Binding::Seat { version: bound } => bound <= version && bound <= SEAT_VERSION,
            Binding::Manager { version: bound } => bound <= version && bound <= MANAGER_VERSION,
            Binding::Ignore => true,
        },
{
}

/// The seat is the first one that was announced: it is never replaced.
pub proof fn law_first_seat_is_kept<S, M>(
    found: Globals<S, M>,
    globals: Seq<Announcement<S, M>>,
)
    ensures
        found.seat is Some ==> found.after_all(globals).seat == found.seat,
        found.seat is None ==> match found.after_all(globals).seat {
            Some(seat) => exists|i: int|
                {
                    &&& 0 <= i < globals.len()
                    &&& (#[trigger] globals[i]).interface == "wl_seat"@
                    &&& globals[i].seat == seat
                    &&& forall|j: int|
                        0 <= j < i ==> (#[trigger] globals[j]).interface != "wl_seat"@
                },
            None => forall|j: int|
                0 <= j < globals.len() ==> (#[trigger] globals[j]).interface != "wl_seat"@,
        },
    decreases globals.len(),
{
    if globals.len() > 0 {
        let before = globals.drop_last();
        law_first_seat_is_kept(found, before);
        assert forall|j: int| 0 <= j < before.len() implies #[trigger] globals[j] == before[j] by {}
        if found.seat is None {
            let middle = found.after_all(before);
            match middle.seat {
                Some(seat) => {
                    let i = choose|i: int|
                        {
                            &&& 0 <= i < before.len()
                            &&& (#[trigger] before[i]).interface == "wl_seat"@
                            &&& before[i].seat == seat
                            &&& forall|j: int|
                                0 <= j < i ==> (#[trigger] before[j]).interface != "wl_seat"@
                        };
                    assert(globals[i] == before[i]);
                },
                None => {
                    assert(globals[globals.len() - 1] == globals.last());
                },
            }
        }
    }
}

/// The manager is the last one that was announced.
pub proof fn law_last_manager_is_kept<S, M>(
    found: Globals<S, M>,
    globals: Seq<Announcement<S, M>>,
)
    ensures
        (exists|i: int|
            {
                &&& 0 <= i < globals.len()
                &&& (#[trigger] globals[i]).interface == "zwlr_data_control_manager_v1"@
                &&& found.after_all(globals).manager == Some(globals[i].manager)
                &&& forall|j: int|
                    i < j < globals.len() ==> (#[trigger] globals[j]).interface
                        != "zwlr_data_control_manager_v1"@
            }) || ({
            &&& found.after_all(globals).manager == found.manager
            &&& forall|j: int|
                0 <= j < globals.len() ==> (#[trigger] globals[j]).interface
                    != "zwlr_data_control_manager_v1"@
        }),
    decreases globals.len(),
{
    reveal_strlit("wl_seat");
    reveal_strlit("zwlr_data_control_manager_v1");
    if globals.len() > 0 {
        let before = globals.drop_last();
        let last = globals.last();
        law_last_manager_is_kept(found, before);
        assert(globals[globals.len() - 1] == last);
        assert forall|j: int| 0 <= j < before.len() implies #[trigger] globals[j] == before[j] by {}
        if last.interface != "zwlr_data_control_manager_v1"@ {
            assert(found.after_all(globals).manager == found.after_all(before).manager);
            if exists|j: int|
                0 <= j < before.len() && (#[trigger] before[j]).interface
                    == "zwlr_data_control_manager_v1"@ {
                let i = choose|i: int|
                    {
                        &&& 0 <= i < before.len()
                        &&& (#[trigger] before[i]).interface == "zwlr_data_control_manager_v1"@
                        &&& found.after_all(before).manager == Some(before[i].manager)
                        &&& forall|j: int|
                            i < j < before.len() ==> (#[trigger] before[j]).interface
                                != "zwlr_data_control_manager_v1"@
                    };
                assert(globals[i] == before[i]);
            }
        }
    }
}

/// What is bound of a run of announcements that begins with nothing: the first seat and every
/// manager, each in the older of the announced version and the newest known one, and nothing else.
pub proof fn law_what_is_bound<S, M>(globals: Seq<Announcement<S, M>>, i: int)
    requires
        0 <= i < globals.len(),
    ensures
        ({
            let nothing = Globals::<S, M> { seat: None, manager: None };
            let found = nothing.after_all(globals.take(i));
            let global = globals[i];
            found.binding(global.interface, global.version) == (if global.interface == "wl_seat"@ {
                if exists|j: int| 0 <= j < i && (#[trigger] globals[j]).interface == "wl_seat"@ {
                    Binding::Ignore
                } else {
                    Binding::Seat { version: older(global.version, SEAT_VERSION) }
                }
            } else if global.interface == "zwlr_data_control_manager_v1"@ {
                Binding::Manager { version: older(global.version, MANAGER_VERSION) }
            } else {
                Binding::Ignore
            })
        }),
{
    let nothing = Globals::<S, M> { seat: None, manager: None };
    let before = globals.take(i);
    law_first_seat_is_kept(nothing, before);
    assert forall|j: int| 0 <= j < i implies #[trigger] globals[j] == before[j] by {}
    if nothing.after_all(before).seat is Some {
        let j = choose|j: int|
            {
                &&& 0 <= j < before.len()
                &&& (#[trigger] before[j]).interface == "wl_seat"@
                &&& before[j].seat == nothing.after_all(before).seat->0
                &&& forall|l: int| 0 <= l < j ==> (#[trigger] before[l]).interface != "wl_seat"@
            };
        assert(globals[j].interface == "wl_seat"@);
    }
}

/// A global object that is neither a seat nor a manager changes nothing.
pub proof fn law_other_globals_change_nothing<S, M>(
    found: Globals<S, M>,
    global: Announcement<S, M>,
)
    requires
        global.interface != "wl_seat"@,
        global.interface != "zwlr_data_control_manager_v1"@,
    ensures
        found.after(global) == found,
{
}

/// The two interfaces that have a meaning are not the same.
proof fn lemma_interfaces_differ()
    ensures
        "wl_seat"@ != "zwlr_data_control_manager_v1"@,
{
    reveal_strlit("wl_seat");
    reveal_strlit("zwlr_data_control_manager_v1");
    assert("wl_seat"@.len() != "zwlr_data_control_manager_v1"@.len());
}

/// A seat is bound exactly if there is none yet, and a manager always, whatever else was found: in
/// the version that is announced, but in none above the seventh for a seat and the second for a
/// manager.  Nothing else is bound.
pub proof fn law_seats_and_managers_are_bound<S, M>(
    found: Globals<S, M>,
    interface: Seq<char>,
    version: u32,
)
    ensures
        interface == "wl_seat"@ && found.seat is None ==> (found.binding(interface, version)
            matches Binding::Seat { version: bound } && bound == (if version < 7 {
            version
        } else {
            7
        })),
        interface == "wl_seat"@ && found.seat is Some ==> found.binding(interface, version)
            is Ignore,
        interface == "zwlr_data_control_manager_v1"@ ==> (found.binding(interface, version)
            matches Binding::Manager { version: bound } && bound == (if version < 2 {
            version
        } else {
            2
        })),
        interface != "wl_seat"@ && interface != "zwlr_data_control_manager_v1"@
            ==> found.binding(interface, version) is Ignore,
{
    lemma_interfaces_differ();
}

/// An object that is bound is found from then on, and what else was found stays.
pub proof fn law_bound_objects_are_found<S, M>(
    found: Globals<S, M>,
    global: Announcement<S, M>,
)
    ensures
        global.interface == "wl_seat"@ && found.seat is None ==> found.after(global) == (Globals {
            seat: Some(global.seat),
            manager: found.manager,
        }),
        global.interface == "wl_seat"@ && found.seat is Some ==> found.after(global) == found,
        global.interface == "zwlr_data_control_manager_v1"@ ==> found.after(global) == (Globals {
            seat: found.seat,
            manager: Some(global.manager),
        }),
{
    lemma_interfaces_differ();
}

/// Nothing is lacking exactly if both objects were found.  A compositor without a manager does not
/// support the protocol, whether it has a seat or not; one with a manager alone lacks a seat.
pub proof fn law_both_objects_are_needed<S, M>(found: Globals<S, M>)
    ensures
        found.lack() is None <==> found.seat is Some && found.manager is Some,
        found.manager is None ==> found.lack() == Some(ErrorView::UnsupportedProtocol),
        found.manager is Some && found.seat is None ==> found.lack() == Some(
            ErrorView::WaylandConnect("No wl_seat found"@),
        ),
{
}

} // verus!
