use vstd::prelude::*;
use vstd::string::*;

use crate::service_id::{ServiceId, SERVICE_COUNT};

verus! {

/// Current status of a managed service.
#[derive(Debug)]
pub enum ServiceStatus {
    /// Binary not found on system
    Unavailable,
    /// Binary found but service not started
    Stopped,
    /// Service is starting up
    Starting,
    /// Service is running
    Running { pid: u32 },
    /// Service failed to start or crashed
    Failed { reason: String },
}

/// Mathematical value of a [`ServiceStatus`].
pub enum StatusView {
    Unavailable,
    Stopped,
    Starting,
    Running { pid: u32 },
    Failed { reason: Seq<char> },
}

impl View for ServiceStatus {
    type V = StatusView;

    open spec fn view(&self) -> StatusView {
        match self {
            ServiceStatus::Unavailable => StatusView::Unavailable,
            ServiceStatus::Stopped => StatusView::Stopped,
            ServiceStatus::Starting => StatusView::Starting,
            ServiceStatus::Running { pid } => StatusView::Running { pid: *pid },
            ServiceStatus::Failed { reason } => StatusView::Failed { reason: reason@ },
        }
    }
}

impl ServiceStatus {
    /// A copy of the status with the same value.
    pub fn duplicate(&self) -> (r: ServiceStatus)
        ensures
            r@ == self@,
    {
        match self {
            ServiceStatus::Unavailable => ServiceStatus::Unavailable,
            ServiceStatus::Stopped => ServiceStatus::Stopped,
            ServiceStatus::Starting => ServiceStatus::Starting,
            ServiceStatus::Running { pid } => ServiceStatus::Running { pid: *pid },
            ServiceStatus::Failed { reason } => ServiceStatus::Failed { reason: reason.clone() },
        }
    }
}

/// The statuses of all registered services, by identifier.
pub type StatusMap = Map<ServiceId, StatusView>;

/// The status a service gets when it is registered.
pub open spec fn initial_status(available: bool) -> StatusView {
    if available {
        StatusView::Stopped
    } else {
        StatusView::Unavailable
    }
}

/// Why a start request is refused, if it is: `None` when the service may start.
pub open spec fn start_refusal(m: StatusMap, id: ServiceId) -> Option<Seq<char>> {
    if !m.contains_key(id) {
        Some(id.name_view() + " is not registered"@)
    } else {
        match m[id] {
            StatusView::Unavailable => Some(id.name_view() + " is not installed on this system"@),
            StatusView::Running { .. } => Some(id.name_view() + " is already running"@),
            StatusView::Starting => Some(id.name_view() + " is already starting"@),
            _ => None,
        }
    }
}

/// The statuses after a start request has been examined: the service is
/// marked `Starting` when the request is accepted.
pub open spec fn after_start_request(m: StatusMap, id: ServiceId) -> StatusMap {
    if start_refusal(m, id) is None {
        m.insert(id, StatusView::Starting)
    } else {
        m
    }
}

/// The statuses once the service has reported the outcome of its start.
pub open spec fn after_start_outcome(m: StatusMap, id: ServiceId, outcome: Result<u32, Seq<char>>) -> StatusMap {
    match outcome {
        Ok(pid) => m.insert(id, StatusView::Running { pid }),
        Err(reason) => m.insert(id, StatusView::Failed { reason }),
    }
}

/// Why a stop request is refused, if it is: `None` when the service may be
/// asked to stop (it is running, starting, or has failed).
pub open spec fn stop_refusal(m: StatusMap, id: ServiceId) -> Option<Seq<char>> {
    if !m.contains_key(id) {
        Some(id.name_view() + " not registered"@)
    } else {
        match m[id] {
            StatusView::Stopped => Some(id.name_view() + " is already stopped"@),
            StatusView::Unavailable => Some(id.name_view() + " is not available"@),
            _ => None,
        }
    }
}

/// The statuses once the service has reported the outcome of its stop:
/// `Stopped` on success, unchanged on failure.
pub open spec fn after_stop_outcome(m: StatusMap, id: ServiceId, outcome: Result<(), Seq<char>>) -> StatusMap {
    match outcome {
        Ok(()) => m.insert(id, StatusView::Stopped),
        Err(_) => m,
    }
}

/// A restart first stops the service only when it is running.
pub open spec fn restart_stops_first(m: StatusMap, id: ServiceId) -> bool {
    m.contains_key(id) && m[id] is Running
}

/// A registered service together with its status.
pub struct Slot<S> {
    pub status: ServiceStatus,
    pub service: S,
}

/// The supervisor owns all managed services and their statuses, and decides
/// every transition of a service's status. Commands are handled one at a
/// time: the caller runs the service's own start or stop between the
/// request (`begin_*`) and the report of its outcome (`finish_*`).
pub struct Supervisor<S> {
    slots: Vec<Option<Slot<S>>>,
    channel_buffer: usize,
}

impl<S> View for Supervisor<S> {
    type V = StatusMap;

    closed spec fn view(&self) -> StatusMap {
        Map::new(
            |id: ServiceId| 0 <= id.rank() < self.slots@.len() && self.slots@[id.rank()] is Some,
            |id: ServiceId| self.slots@[id.rank()]->0.status@,
        )
    }
}

impl<S> Supervisor<S> {
    /// Well-formedness: one slot per service identifier.
    pub closed spec fn wf(&self) -> bool {
        self.slots@.len() == SERVICE_COUNT
    }

    /// The registered services, by identifier.
    pub closed spec fn services(&self) -> Map<ServiceId, S> {
        Map::new(
            |id: ServiceId| 0 <= id.rank() < self.slots@.len() && self.slots@[id.rank()] is Some,
            |id: ServiceId| self.slots@[id.rank()]->0.service,
        )
    }

    /// Number of commands that may wait in the supervisor's queue.
    pub closed spec fn queue_capacity(&self) -> nat {
        self.channel_buffer as nat
    }

    proof fn lemma_views(&self)
        requires
            self.wf(),
        ensures
            forall|id: ServiceId| #[trigger] self@.contains_key(id) <==> self.slots@[id.rank()] is Some,
            forall|id: ServiceId| self@.contains_key(id) ==> #[trigger] self@[id] == self.slots@[id.rank()]->0.status@,
            forall|id: ServiceId| #[trigger] self.services().contains_key(id) <==> self.slots@[id.rank()] is Some,
            forall|id: ServiceId| self.services().contains_key(id) ==> #[trigger] self.services()[id] == self.slots@[id.rank()]->0.service,
            self@.dom() == self.services().dom(),
    {
        assert(self@.dom() =~= self.services().dom());
    }

    pub fn new() -> (s: Self)
        ensures
            s.wf(),
            s@ == StatusMap::empty(),
            s.services() == Map::<ServiceId, S>::empty(),
            s.queue_capacity() == 32,
    {
        let mut slots: Vec<Option<Slot<S>>> = Vec::new();
        let mut i: usize = 0;
        while i < SERVICE_COUNT
            invariant
                i <= SERVICE_COUNT,
                slots@.len() == i,
                forall|j: int| 0 <= j < i ==> slots@[j] is None,
            decreases SERVICE_COUNT - i,
        {
            slots.push(None);
            i = i + 1;
        }
        let s = Supervisor { slots, channel_buffer: 32 };
        assert(s@ =~= StatusMap::empty());
        assert(s.services() =~= Map::<ServiceId, S>::empty());
        s
    }

    /// Number of commands that may wait in the supervisor's queue before
    /// senders have to wait.
    pub fn channel_buffer(&self) -> (r: usize)
        ensures
            r == self.queue_capacity(),
    {
        self.channel_buffer
    }

    /// Register a service with the supervisor.
    /// If `available` is false, the service is marked Unavailable and won't be startable.
    /// Registering an identifier again replaces its service and status.
    pub fn register(&mut self, id: ServiceId, service: S, available: bool)
        requires
            old(self).wf(),
        ensures
            final(self).wf(),
            final(self)@ == old(self)@.insert(id, initial_status(available)),
            final(self).services() == old(self).services().insert(id, service),
            final(self).queue_capacity() == old(self).queue_capacity(),
    {
        let status = if available {
            ServiceStatus::Stopped
        } else {
            ServiceStatus::Unavailable
        };
        let i = id.index();
        self.slots.set(i, Some(Slot { status, service }));
        proof {
            assert forall|k: ServiceId| k.rank() == id.rank() <==> k == id by {}
        }
        assert(self@ =~= old(self)@.insert(id, initial_status(available)));
        assert(self.services() =~= old(self).services().insert(id, service));
    }

    /// Current status of one service, if it is registered.
    pub fn status(&self, id: ServiceId) -> (r: Option<ServiceStatus>)
        requires
            self.wf(),
        ensures
            r is Some <==> self@.contains_key(id),
            r is Some ==> r->0@ == self@[id],
    {
        proof { self.lemma_views(); }
        match &self.slots[id.index()] {
            Some(slot) => Some(slot.status.duplicate()),
            None => None,
        }
    }

    /// Status of every registered service, in the canonical order of
    /// identifiers.
    pub fn statuses(&self) -> (r: Vec<(ServiceId, ServiceStatus)>)
        requires
            self.wf(),
        ensures
            forall|i: int| 0 <= i < r@.len() ==> #[trigger] self@.contains_key(r@[i].0) && r@[i].1@ == self@[r@[i].0],
            forall|id: ServiceId| #[trigger] self@.contains_key(id) ==> exists|i: int| 0 <= i < r@.len() && r@[i].0 == id,
            forall|i: int, j: int| 0 <= i < j < r@.len() ==> r@[i].0.rank() < r@[j].0.rank(),
    {
        proof { self.lemma_views(); }
        let mut out: Vec<(ServiceId, ServiceStatus)> = Vec::new();
        let mut i: usize = 0;
        while i < SERVICE_COUNT
            invariant
                self.wf(),
                i <= SERVICE_COUNT,
                forall|k: int| 0 <= k < out@.len() ==> self@.contains_key(#[trigger] out@[k].0) && out@[k].1@ == self@[out@[k].0] && out@[k].0.rank() < i,
                forall|id: ServiceId| #[trigger] self@.contains_key(id) && id.rank() < i ==> exists|k: int| 0 <= k < out@.len() && out@[k].0 == id,
                forall|a: int, b: int| 0 <= a < b < out@.len() ==> out@[a].0.rank() < out@[b].0.rank(),
                forall|id: ServiceId| #[trigger] self@.contains_key(id) <==> self.slots@[id.rank()] is Some,
                forall|id: ServiceId| self@.contains_key(id) ==> #[trigger] self@[id] == self.slots@[id.rank()]->0.status@,
            decreases SERVICE_COUNT - i,
        {
            let id = ServiceId::from_index(i);
            match &self.slots[i] {
                Some(slot) => {
                    let ghost before = out@;
                    out.push((id, slot.status.duplicate()));
                    assert(forall|k: int| 0 <= k < before.len() ==> out@[k] == before[k]);
                    assert(out@[out@.len() - 1].0 == id);
                    assert forall|x: ServiceId| #[trigger] self@.contains_key(x) && x.rank() < i + 1
                        implies exists|k: int| 0 <= k < out@.len() && out@[k].0 == x by {
                        if x.rank() == i as int {
                            assert(x == id);
                            assert(out@[out@.len() - 1].0 == x);
                        } else {
                            let k = choose|k: int| 0 <= k < before.len() && before[k].0 == x;
                            assert(out@[k].0 == x);
                        }
                    }
                }
                None => {
                    assert forall|x: ServiceId| #[trigger] self@.contains_key(x) && x.rank() < i + 1
                        implies exists|k: int| 0 <= k < out@.len() && out@[k].0 == x by {
                        if x.rank() == i as int {
                            assert(x == id);
                        }
                    }
                }
            }
            i = i + 1;
        }
        out
    }

    /// Examine a start request. When it is accepted the service is marked
    /// `Starting` and the caller must run the service's start and report the
    /// outcome with [`Supervisor::finish_start`].
    pub fn begin_start(&mut self, id: ServiceId) -> (r: Result<(), String>)
        requires
            old(self).wf(),
        ensures
            final(self).wf(),
            r is Ok <==> start_refusal(old(self)@, id) is None,
            r matches Err(e) ==> e@ == start_refusal(old(self)@, id)->0,
            final(self)@ == after_start_request(old(self)@, id),
            final(self).services() == old(self).services(),
            final(self).queue_capacity() == old(self).queue_capacity(),
    {
        proof { self.lemma_views(); }
        let i = id.index();
        let refusal: Option<&str> = match &self.slots[i] {
            None => Some(" is not registered"),
            Some(slot) => match &slot.status {
                ServiceStatus::Unavailable => Some(" is not installed on this system"),
                ServiceStatus::Running { .. } => Some(" is already running"),
                ServiceStatus::Starting => Some(" is already starting"),
                _ => None,
            },
        };
        match refusal {
            Some(suffix) => {
                let msg = id.message(suffix);
                Err(msg)
            },
            None => {
                let taken = self.slots[i].take();
                proof {
                    assert forall|k: ServiceId| k.rank() == id.rank() <==> k == id by {}
                }
                match taken {
                    Some(slot) => {
                        self.slots.set(i, Some(Slot { status: ServiceStatus::Starting, service: slot.service }));
                        assert(self@ =~= old(self)@.insert(id, StatusView::Starting));
                        assert(self.services() =~= old(self).services());
                    },
                    None => {},
                }
                Ok(())
            },
        }
    }

    /// Record the outcome of a service's start: `Running` with its process id,
    /// or `Failed` with the reason, which is also returned.
    pub fn finish_start(&mut self, id: ServiceId, outcome: Result<u32, String>) -> (r: Result<(), String>)
        requires
            old(self).wf(),
            old(self)@.contains_key(id),
            old(self)@[id] is Starting,
        ensures
            final(self).wf(),
            final(self)@ == after_start_outcome(old(self)@, id, match outcome { Ok(pid) => Ok(pid), Err(e) => Err(e@) }),
            r is Ok <==> outcome is Ok,
            r matches Err(e) ==> outcome matches Err(o) && e@ == o@,
            final(self).services() == old(self).services(),
            final(self).queue_capacity() == old(self).queue_capacity(),
    {
        proof {
            self.lemma_views();
            assert forall|k: ServiceId| k.rank() == id.rank() <==> k == id by {}
        }
        let i = id.index();
        let taken = self.slots[i].take();
        match taken {
            Some(slot) => {
                match outcome {
                    Ok(pid) => {
                        self.slots.set(i, Some(Slot { status: ServiceStatus::Running { pid }, service: slot.service }));
                        assert(self@ =~= old(self)@.insert(id, StatusView::Running { pid }));
                        assert(self.services() =~= old(self).services());
                        Ok(())
                    },
                    Err(e) => {
                        let reason = e.clone();
                        self.slots.set(i, Some(Slot { status: ServiceStatus::Failed { reason }, service: slot.service }));
                        assert(self@ =~= old(self)@.insert(id, StatusView::Failed { reason: e@ }));
                        assert(self.services() =~= old(self).services());
                        Err(e)
                    },
                }
            },
            None => {
                assert(false);
                Ok(())
            },
        }
    }

    /// Examine a stop request. When it is accepted the caller must run the
    /// service's stop and report the outcome with [`Supervisor::finish_stop`].
    pub fn begin_stop(&self, id: ServiceId) -> (r: Result<(), String>)
        requires
            self.wf(),
        ensures
            r is Ok <==> stop_refusal(self@, id) is None,
            r matches Err(e) ==> e@ == stop_refusal(self@, id)->0,
    {
        proof { self.lemma_views(); }
        let refusal: Option<&str> = match &self.slots[id.index()] {
            None => Some(" not registered"),
            Some(slot) => match &slot.status {
                ServiceStatus::Stopped => Some(" is already stopped"),
                ServiceStatus::Unavailable => Some(" is not available"),
                _ => None,
            },
        };
        match refusal {
            Some(suffix) => Err(id.message(suffix)),
            None => Ok(()),
        }
    }

    /// Record the outcome of a service's stop: `Stopped` on success; on
    /// failure the status is left as it was and the reason is returned.
    pub fn finish_stop(&mut self, id: ServiceId, outcome: Result<(), String>) -> (r: Result<(), String>)
        requires
            old(self).wf(),
            old(self)@.contains_key(id),
        ensures
            final(self).wf(),
            final(self)@ == after_stop_outcome(old(self)@, id, match outcome { Ok(()) => Ok(()), Err(e) => Err(e@) }),
            r is Ok <==> outcome is Ok,
            r matches Err(e) ==> outcome matches Err(o) && e@ == o@,
            final(self).services() == old(self).services(),
            final(self).queue_capacity() == old(self).queue_capacity(),
    {
        proof {
            self.lemma_views();
            assert forall|k: ServiceId| k.rank() == id.rank() <==> k == id by {}
        }
        match outcome {
            Ok(()) => {
                let i = id.index();
                let taken = self.slots[i].take();
                match taken {
                    Some(slot) => {
                        self.slots.set(i, Some(Slot { status: ServiceStatus::Stopped, service: slot.service }));
                        assert(self@ =~= old(self)@.insert(id, StatusView::Stopped));
                        assert(self.services() =~= old(self).services());
                    },
                    None => {
                        assert(false);
                    },
                }
                Ok(())
            },
            Err(e) => Err(e),
        }
    }

    /// Whether a restart request must stop the service before starting it
    /// again: only a running service is stopped first, and the outcome of
    /// that stop does not decide the restart.
    pub fn restart_needs_stop(&self, id: ServiceId) -> (r: bool)
        requires
            self.wf(),
        ensures
            r == restart_stops_first(self@, id),
    {
        proof { self.lemma_views(); }
        match &self.slots[id.index()] {
            Some(slot) => match &slot.status {
                ServiceStatus::Running { .. } => true,
                _ => false,
            },
            None => false,
        }
    }

    /// The service registered under `id`, to run its start or stop.
    pub fn service_mut(&mut self, id: ServiceId) -> (r: Option<&mut S>)
        requires
            old(self).wf(),
        ensures
            r is Some <==> old(self)@.contains_key(id),
            r matches Some(s) ==> *s == old(self).services()[id],
            r matches Some(s) ==> final(self).services() == old(self).services().insert(id, *final(s)),
            final(self).wf(),
            final(self)@ == old(self)@,
            final(self).queue_capacity() == old(self).queue_capacity(),
    {
        proof { self.lemma_views(); }
        let i = id.index();
        let r = match &mut self.slots[i] {
            Some(slot) => Some(&mut slot.service),
            None => None,
        };
        r
    }
}

/// A start request that is accepted marks the service `Starting`, so a second
/// start request made before the first one's outcome is refused: a service
/// is never started twice at once.
pub proof fn law_no_double_start(m: StatusMap, id: ServiceId)
    requires
        start_refusal(m, id) is None,
    ensures
        after_start_request(m, id)[id] == StatusView::Starting,
        start_refusal(after_start_request(m, id), id) == Some(id.name_view() + " is already starting"@),
{
}

/// A service registered as unavailable can neither be started nor stopped,
/// and requests for it leave every status as it was.
pub proof fn law_unavailable_is_inert(m: StatusMap, id: ServiceId)
    requires
        m.contains_key(id),
        m[id] is Unavailable,
    ensures
        start_refusal(m, id) == Some(id.name_view() + " is not installed on this system"@),
        after_start_request(m, id) == m,
        stop_refusal(m, id) == Some(id.name_view() + " is not available"@),
{
}

/// Starting a stopped service and then stopping it, both successfully, brings
/// it back to `Stopped` and changes no other status; in between it is
/// `Running` with the reported process id.
pub proof fn law_start_then_stop_round_trip(m: StatusMap, id: ServiceId, pid: u32)
    requires
        m.contains_key(id),
        m[id] is Stopped,
    ensures
        start_refusal(m, id) is None,
        after_start_outcome(after_start_request(m, id), id, Ok(pid))[id] == (StatusView::Running { pid }),
        stop_refusal(after_start_outcome(after_start_request(m, id), id, Ok(pid)), id) is None,
        after_stop_outcome(after_start_outcome(after_start_request(m, id), id, Ok(pid)), id, Ok(())) == m,
{
    let m1 = after_start_request(m, id);
    let m2 = after_start_outcome(m1, id, Ok(pid));
    let m3 = after_stop_outcome(m2, id, Ok(()));
    assert(m3 =~= m);
}

/// A start that fails leaves the service `Failed` with the reason it gave,
/// and the service may be started again.
pub proof fn law_failed_start_may_retry(m: StatusMap, id: ServiceId, reason: Seq<char>)
    requires
        start_refusal(m, id) is None,
    ensures
        after_start_outcome(after_start_request(m, id), id, Err(reason))[id] == (StatusView::Failed { reason }),
        start_refusal(after_start_outcome(after_start_request(m, id), id, Err(reason)), id) is None,
{
}

/// A stop that fails leaves every status as it was.
pub proof fn law_failed_stop_changes_nothing(m: StatusMap, id: ServiceId, reason: Seq<char>)
    ensures
        after_stop_outcome(m, id, Err(reason)) == m,
{
}

/// Every transition concerns one service only: the status of any other
/// service is unchanged, and no service is registered or removed.
pub proof fn law_transitions_are_local(
    m: StatusMap,
    id: ServiceId,
    other: ServiceId,
    start: Result<u32, Seq<char>>,
    stop: Result<(), Seq<char>>,
)
    requires
        m.contains_key(id),
        other != id,
    ensures
        after_start_request(m, id).dom() == m.dom(),
        after_start_outcome(m, id, start).dom() == m.dom(),
        after_stop_outcome(m, id, stop).dom() == m.dom(),
        m.contains_key(other) ==> after_start_request(m, id)[other] == m[other],
        m.contains_key(other) ==> after_start_outcome(m, id, start)[other] == m[other],
        m.contains_key(other) ==> after_stop_outcome(m, id, stop)[other] == m[other],
{
    assert(after_start_request(m, id).dom() =~= m.dom());
    assert(after_start_outcome(m, id, start).dom() =~= m.dom());
    assert(after_stop_outcome(m, id, stop).dom() =~= m.dom());
}

/// Restarting a running service whose stop succeeds starts it again; when
/// its stop fails, the start that follows is refused because the service
/// is still running.
pub proof fn law_restart_of_running_service(m: StatusMap, id: ServiceId, pid: u32, reason: Seq<char>)
    requires
        m.contains_key(id),
        m[id] is Running,
    ensures
        restart_stops_first(m, id),
        stop_refusal(m, id) is None,
        start_refusal(after_stop_outcome(m, id, Ok(())), id) is None,
        after_start_outcome(after_start_request(after_stop_outcome(m, id, Ok(())), id), id, Ok(pid))[id]
            == (StatusView::Running { pid }),
        start_refusal(after_stop_outcome(m, id, Err(reason)), id) == Some(id.name_view() + " is already running"@),
{
}

} // verus!
