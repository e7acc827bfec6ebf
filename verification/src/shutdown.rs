//! The running services held by the application, and what is stopped when
//! the application exits.

use vstd::prelude::*;

verus! {

/// Events of the application's run loop that matter here.
#[derive(Clone, Copy, PartialEq, Eq, Structural, Debug)]
pub enum RunEvent {
    /// The user or the system asked the application to exit.
    ExitRequested,
    /// The application is exiting.
    Exit,
    /// Any other event.
    Other,
}

/// Whether `event` ends the application.
pub open spec fn is_exit(event: RunEvent) -> bool {
    event == RunEvent::ExitRequested || event == RunEvent::Exit
}

/// The handles of the database process and the two sidecar processes, each
/// present while it is held.
pub struct ServiceSlots<P, S> {
    pub postgres: Option<P>,
    pub server: Option<S>,
    pub worker: Option<S>,
}

/// The processes to stop, in this order: database, server, worker.
pub struct StopOrder<P, S> {
    pub postgres: Option<P>,
    pub server: Option<S>,
    pub worker: Option<S>,
}

/// The slots after `event`: emptied by an exit event, untouched otherwise.
pub open spec fn slots_after<P, S>(slots: ServiceSlots<P, S>, event: RunEvent) -> ServiceSlots<P, S> {
    if is_exit(event) {
        ServiceSlots { postgres: None, server: None, worker: None }
    } else {
        slots
    }
}

/// What `event` releases to be stopped: everything held on an exit event,
/// nothing otherwise.
pub open spec fn released<P, S>(slots: ServiceSlots<P, S>, event: RunEvent) -> StopOrder<P, S> {
    if is_exit(event) {
        StopOrder { postgres: slots.postgres, server: slots.server, worker: slots.worker }
    } else {
        StopOrder { postgres: None, server: None, worker: None }
    }
}

impl<P, S> ServiceSlots<P, S> {
    /// No process held.
    pub fn new() -> (slots: Self)
        ensures
            slots.postgres is None,
            slots.server is None,
            slots.worker is None,
    {
        ServiceSlots { postgres: None, server: None, worker: None }
    }

    /// Holds the processes that startup launched.
    pub fn install(&mut self, postgres: P, server: S, worker: S)
        ensures
            final(self).postgres == Some(postgres),
            final(self).server == Some(server),
            final(self).worker == Some(worker),
    {
        self.postgres = Some(postgres);
        self.server = Some(server);
        self.worker = Some(worker);
    }

    /// Handles a run-loop event: on an exit event every held process is
    /// released to be stopped and none is held any more; any other event
    /// releases nothing and changes nothing.
    pub fn on_run_event(&mut self, event: RunEvent) -> (stop: StopOrder<P, S>)
        ensures
            is_exit(event) ==> {
                &&& stop.postgres == old(self).postgres
                &&& stop.server == old(self).server
                &&& stop.worker == old(self).worker
                &&& final(self).postgres is None
                &&& final(self).server is None
                &&& final(self).worker is None
            },
            !is_exit(event) ==> {
                &&& stop.postgres is None
                &&& stop.server is None
                &&& stop.worker is None
                &&& *final(self) == *old(self)
            },
            *final(self) == slots_after(*old(self), event),
            stop == released(*old(self), event),
            event == RunEvent::ExitRequested || event == RunEvent::Exit ==> {
                &&& stop.postgres == old(self).postgres
                &&& stop.server == old(self).server
                &&& stop.worker == old(self).worker
                &&& final(self).postgres is None
                &&& final(self).server is None
                &&& final(self).worker is None
            },
            event == RunEvent::Other ==> *final(self) == *old(self) && stop.postgres is None
                && stop.server is None && stop.worker is None,
    {
        proof {
            lemma_exit_events_stop_everything(*self);
        }
        match event {
            RunEvent::ExitRequested | RunEvent::Exit => {
                let postgres = self.postgres.take();
                let server = self.server.take();
                let worker = self.worker.take();
                StopOrder { postgres, server, worker }
            },
            RunEvent::Other => StopOrder { postgres: None, server: None, worker: None },
        }
    }
}


/// The slots after the events `events`, in order.
pub open spec fn slots_run<P, S>(slots: ServiceSlots<P, S>, events: Seq<RunEvent>) -> ServiceSlots<
    P,
    S,
>
    decreases events.len(),
{
    if events.len() == 0 {
        slots
    } else {
        slots_after(slots_run(slots, events.drop_last()), events.last())
    }
}

/// What the `i`-th of `events` releases.
pub open spec fn released_at<P, S>(slots: ServiceSlots<P, S>, events: Seq<RunEvent>, i: int) -> StopOrder<P, S> {
    released(slots_run(slots, events.take(i)), events[i])
}

proof fn lemma_no_exit_keeps_slots<P, S>(slots: ServiceSlots<P, S>, events: Seq<RunEvent>, n: int)
    requires
        0 <= n <= events.len(),
        forall|k: int| 0 <= k < n ==> !is_exit(#[trigger] events[k]),
    ensures
        slots_run(slots, events.take(n)) == slots,
    decreases n,
{
    if n > 0 {
        lemma_no_exit_keeps_slots(slots, events, n - 1);
        assert(events.take(n).drop_last() == events.take(n - 1));
        assert(events.take(n).last() == events[n - 1]);
    }
}

proof fn lemma_exit_empties_slots<P, S>(slots: ServiceSlots<P, S>, events: Seq<RunEvent>, i: int, n: int)
    requires
        0 <= i < n <= events.len(),
        is_exit(events[i]),
    ensures
        slots_run(slots, events.take(n)) == (ServiceSlots::<P, S> { postgres: None, server: None, worker: None }),
    decreases n,
{
    assert(events.take(n).drop_last() == events.take(n - 1));
    assert(events.take(n).last() == events[n - 1]);
    if n - 1 > i {
        lemma_exit_empties_slots(slots, events, i, n - 1);
    }
}

/// Both exit events, the request to exit and the exit itself, release every
/// held process (database, server, worker) and leave nothing held; any other
/// event releases nothing and keeps every process held.
pub proof fn lemma_exit_events_stop_everything<P, S>(slots: ServiceSlots<P, S>)
    ensures
        released(slots, RunEvent::ExitRequested) == (StopOrder {
            postgres: slots.postgres,
            server: slots.server,
            worker: slots.worker,
        }),
        released(slots, RunEvent::Exit) == (StopOrder {
            postgres: slots.postgres,
            server: slots.server,
            worker: slots.worker,
        }),
        slots_after(slots, RunEvent::ExitRequested) == (ServiceSlots::<P, S> {
            postgres: None,
            server: None,
            worker: None,
        }),
        slots_after(slots, RunEvent::Exit) == (ServiceSlots::<P, S> {
            postgres: None,
            server: None,
            worker: None,
        }),
        released(slots, RunEvent::Other) == (StopOrder::<P, S> {
            postgres: None,
            server: None,
            worker: None,
        }),
        slots_after(slots, RunEvent::Other) == slots,
{
}

/// A process handle, once released, is never held again: after any events
/// each slot holds what it held at first, or nothing.
pub proof fn lemma_slots_never_refilled<P, S>(slots: ServiceSlots<P, S>, events: Seq<RunEvent>)
    ensures
        slots_run(slots, events).postgres is None || slots_run(slots, events).postgres
            == slots.postgres,
        slots_run(slots, events).server is None || slots_run(slots, events).server
            == slots.server,
        slots_run(slots, events).worker is None || slots_run(slots, events).worker
            == slots.worker,
    decreases events.len(),
{
    if events.len() > 0 {
        lemma_slots_never_refilled(slots, events.drop_last());
    }
}

/// On exit every service is stopped, and none twice: the first exit event
/// releases exactly the processes held before it, and no later event
/// releases anything.
pub proof fn lemma_exit_stops_each_service_once<P, S>(
    slots: ServiceSlots<P, S>,
    events: Seq<RunEvent>,
    first: int,
)
    requires
        0 <= first < events.len(),
        is_exit(events[first]),
        forall|k: int| 0 <= k < first ==> !is_exit(#[trigger] events[k]),
    ensures
        released_at(slots, events, first) == (StopOrder {
            postgres: slots.postgres,
            server: slots.server,
            worker: slots.worker,
        }),
        forall|j: int|
            first < j < events.len() ==> #[trigger] released_at(slots, events, j) == (StopOrder::<
                P,
                S,
            > { postgres: None, server: None, worker: None }),
        forall|j: int|
            0 <= j < first ==> #[trigger] released_at(slots, events, j) == (StopOrder::<
                P,
                S,
            > { postgres: None, server: None, worker: None }),
{
    lemma_no_exit_keeps_slots(slots, events, first);
    assert forall|j: int| first < j < events.len() implies #[trigger] released_at(slots, events, j)
        == (StopOrder::<P, S> { postgres: None, server: None, worker: None }) by {
        lemma_exit_empties_slots(slots, events, first, j);
    }
}

} // verus!
