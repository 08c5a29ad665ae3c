//! The controller's event loop, as a state machine: the owner of the class states takes
//! one event at a time (a reconciliation tick, a liveness message, a shutdown request or
//! the end of draining) and answers with the action to perform.
use vstd::prelude::*;
use crate::manager::ContainerManager;
use crate::reconcile::{check_instances, reconciled, ReconcileError};
use crate::startup::{validate_config, StartupError};

verus! {

/// The target replica count of the worker class.
pub const WORKER_TARGET: u16 = 5;

/// The target replica count of the coordinator class, a singleton.
pub const COORDINATOR_TARGET: u16 = 1;

/// Where the controller stands in its lifetime.
#[derive(PartialEq, Eq, Structural, Debug, Clone, Copy)]
pub enum Phase {
    /// Handling events.
    Running,
    /// A shutdown was requested: no new work is taken, queued messages are let go.
    Draining,
    /// Draining is over; the loop has ended.
    Stopped,
}

/// One event taken by the loop.
#[derive(Debug)]
pub enum Event {
    /// The reconciliation timer fired; carries the runtime's listing of the image
    /// identifiers of its running containers, or the runtime's error message.
    Tick(Result<Vec<Option<String>>, String>),
    /// A managed container reported that it is alive.
    Liveness,
    /// Shutdown was requested.
    Shutdown,
    /// Every message queued before the shutdown has been taken.
    Drained,
}

/// What the loop does in answer to an event.
#[derive(Debug)]
pub enum Action {
    /// Both classes were reconciled, the worker first; the result of each.
    Reconciled { worker: Result<i32, ReconcileError>, coordinator: Result<i32, ReconcileError> },
    /// The liveness message was processed.
    Recorded,
    /// The liveness message arrived after shutdown began and was let go.
    DroppedOnShutdown,
    /// Stop accepting work and drain the message queue.
    Drain,
    /// Leave the loop.
    Exit,
    /// The event has no effect in the current phase.
    Ignored,
}

/// The event-loop state: the single owner of both class states.
pub struct Controller {
    phase: Phase,
    worker: ContainerManager,
    coordinator: ContainerManager,
    liveness_seen: u64,
}

/// The number of liveness messages processed after one more, saturating at `u64::MAX`.
pub open spec fn one_more(n: nat) -> nat {
    if n < u64::MAX {
        n + 1
    } else {
        n
    }
}

impl Controller {
    pub closed spec fn phase(&self) -> Phase {
        self.phase
    }

    pub closed spec fn worker(&self) -> ContainerManager {
        self.worker
    }

    pub closed spec fn coordinator(&self) -> ContainerManager {
        self.coordinator
    }

    /// How many liveness messages were processed.
    pub closed spec fn liveness_seen(&self) -> nat {
        self.liveness_seen as nat
    }

    /// Validates the configured prefixes against the catalog's image identifiers and, if
    /// they pass, makes a running controller with the worker and coordinator classes.
    pub fn start(worker_prefix: String, coordinator_prefix: String, images: &Vec<String>) -> (r:
        Result<Controller, StartupError>)
        ensures
            r is Ok <==> validate_config_ok(worker_prefix@, coordinator_prefix@, images@),
            r matches Ok(c) ==> {
                &&& c.phase() == Phase::Running
                &&& c.worker().hash_prefix() == worker_prefix@
                &&& c.worker().target() == WORKER_TARGET as nat
                &&& c.worker().current() == 0
                &&& c.coordinator().hash_prefix() == coordinator_prefix@
                &&& c.coordinator().target() == COORDINATOR_TARGET as nat
                &&& c.coordinator().current() == 0
                &&& c.liveness_seen() == 0
            },
            r matches Err(e) ==> startup_refusal(worker_prefix@, coordinator_prefix@, images@, e),
    {
        match validate_config(worker_prefix.as_str(), coordinator_prefix.as_str(), images) {
            Ok(()) => Ok(
                Controller {
                    phase: Phase::Running,
                    worker: ContainerManager::new(worker_prefix, WORKER_TARGET),
                    coordinator: ContainerManager::new(coordinator_prefix, COORDINATOR_TARGET),
                    liveness_seen: 0,
                },
            ),
            Err(e) => Err(e),
        }
    }

    pub fn get_phase(&self) -> (r: Phase)
        ensures
            r == self.phase(),
    {
        self.phase
    }

    pub fn get_worker(&self) -> (r: &ContainerManager)
        ensures
            *r == self.worker(),
    {
        &self.worker
    }

    pub fn get_coordinator(&self) -> (r: &ContainerManager)
        ensures
            *r == self.coordinator(),
    {
        &self.coordinator
    }

    pub fn get_liveness_seen(&self) -> (r: u64)
        ensures
            r as nat == self.liveness_seen(),
    {
        self.liveness_seen
    }

    /// Handles exactly one event and returns the action it calls for.
    ///
    /// While running, a tick reconciles the worker class and then the coordinator class
    /// against the listing, a failure of one not keeping the other from its turn; a
    /// liveness message is recorded; a shutdown request starts draining. While draining
    /// or stopped, liveness messages are reported as dropped and nothing else but the end
    /// of draining has an effect.
    pub fn handle(&mut self, event: Event) -> (r: Action)
        ensures
            handled(*old(self), event, *final(self), r),
    {
        match event {
            Event::Tick(listing) => {
                if self.phase == Phase::Running {
                    let worker = check_instances(&mut self.worker, &listing);
                    let coordinator = check_instances(&mut self.coordinator, &listing);
                    Action::Reconciled { worker, coordinator }
                } else {
                    Action::Ignored
                }
            },
            Event::Liveness => {
                if self.phase == Phase::Running {
                    if self.liveness_seen < u64::MAX {
                        self.liveness_seen = self.liveness_seen + 1;
                    }
                    Action::Recorded
                } else {
                    Action::DroppedOnShutdown
                }
            },
            Event::Shutdown => {
                if self.phase == Phase::Running {
                    self.phase = Phase::Draining;
                    Action::Drain
                } else {
                    Action::Ignored
                }
            },
            Event::Drained => {
                if self.phase == Phase::Draining {
                    self.phase = Phase::Stopped;
                    Action::Exit
                } else {
                    Action::Ignored
                }
            },
        }
    }
}

/// The configured prefixes pass validation against the catalog.
pub open spec fn validate_config_ok(w: Seq<char>, c: Seq<char>, images: Seq<String>) -> bool {
    &&& !crate::startup::ambiguous(w, c)
    &&& crate::startup::catalog_has(w, images)
    &&& crate::startup::catalog_has(c, images)
}

/// `e` is the error that validation gives for these prefixes and catalog.
pub open spec fn startup_refusal(w: Seq<char>, c: Seq<char>, images: Seq<String>, e: StartupError) -> bool {
    if crate::startup::ambiguous(w, c) {
        e is AmbiguousPrefixes
    } else if !crate::startup::catalog_has(w, images) {
        e matches StartupError::ImageMissing(p) && p@ == w
    } else {
        e matches StartupError::ImageMissing(p) && p@ == c
    }
}

/// A liveness message taken by the loop is either processed whole (while running) or
/// reported as dropped on shutdown (once shutdown began), and it touches no class state.
pub proof fn lemma_liveness_processed_or_dropped(before: Controller, after: Controller, r: Action)
    requires
        handled(before, Event::Liveness, after, r),
    ensures
        r is Recorded || r is DroppedOnShutdown,
        r is Recorded <==> before.phase() == Phase::Running,
        r is DroppedOnShutdown <==> before.phase() != Phase::Running,
        after.worker() == before.worker(),
        after.coordinator() == before.coordinator(),
{
}

/// One step of the loop: `before` takes `event`, becomes `after` and answers `r`.
pub open spec fn handled(before: Controller, event: Event, after: Controller, r: Action) -> bool {
    match event {
        Event::Tick(listing) => if before.phase() == Phase::Running {
            &&& r matches Action::Reconciled { worker, coordinator }
            &&& reconciled(before.worker(), listing, after.worker(), worker)
            &&& reconciled(before.coordinator(), listing, after.coordinator(), coordinator)
            &&& after.phase() == before.phase()
            &&& after.liveness_seen() == before.liveness_seen()
        } else {
            r is Ignored && after == before
        },
        Event::Liveness => if before.phase() == Phase::Running {
            &&& r is Recorded
            &&& after.liveness_seen() == one_more(before.liveness_seen())
            &&& after.phase() == before.phase()
            &&& after.worker() == before.worker()
            &&& after.coordinator() == before.coordinator()
        } else {
            r is DroppedOnShutdown && after == before
        },
        Event::Shutdown => if before.phase() == Phase::Running {
            &&& r is Drain
            &&& after.phase() == Phase::Draining
            &&& after.worker() == before.worker()
            &&& after.coordinator() == before.coordinator()
            &&& after.liveness_seen() == before.liveness_seen()
        } else {
            r is Ignored && after == before
        },
        Event::Drained => if before.phase() == Phase::Draining {
            &&& r is Exit
            &&& after.phase() == Phase::Stopped
            &&& after.worker() == before.worker()
            &&& after.coordinator() == before.coordinator()
            &&& after.liveness_seen() == before.liveness_seen()
        } else {
            r is Ignored && after == before
        },
    }
}

} // verus!
