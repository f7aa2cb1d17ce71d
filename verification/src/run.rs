//! One run of the pipeline: dispatch to each target in order, record exactly
//! one audit event per dispatch outcome, and abort the run at once if an
//! audit insert fails.

use vstd::prelude::*;
use crate::device::DeviceTarget;
use crate::device::DeviceTargetModel;
use crate::event::AuditEvent;
use crate::event::AuditEventModel;
use crate::event::DispatchOutcome;
use crate::event::DispatchOutcomeModel;
use crate::event::event_model;
use crate::event::audit_event_for;

verus! {

/// The models of a sequence of targets.
pub open spec fn target_models(targets: Seq<DeviceTarget>) -> Seq<DeviceTargetModel> {
    targets.map(|i: int, t: DeviceTarget| t@)
}

/// The audit events of a complete run in which every dispatch succeeded.
pub open spec fn success_run_events(targets: Seq<DeviceTargetModel>) -> Seq<AuditEventModel> {
    Seq::new(targets.len(), |i: int| event_model(targets[i], DispatchOutcomeModel::Success))
}

/// The state of one pipeline run. The caller performs the I/O: it asks for
/// the next target, sends the datagram, hands the outcome back, inserts the
/// returned audit event, and reports whether the insert was committed.
pub struct Run {
    /// The targets of this run, fixed at the start.
    pub targets: Vec<DeviceTarget>,
    /// How many devices have had a dispatch attempted.
    pub attempted: usize,
    /// Whether the latest dispatch's audit event still awaits its insert.
    pub awaiting_log: bool,
    /// How many audit events the caller has committed so far.
    pub written: usize,
    /// Whether a failed audit insert aborted the run.
    pub aborted: bool,
    /// The outcome of each attempted dispatch, in order.
    pub outcomes: Ghost<Seq<DispatchOutcomeModel>>,
    /// The committed audit events, in order.
    pub events: Ghost<Seq<AuditEventModel>>,
}

impl Run {
    /// What a run keeps true between steps: every committed audit event is
    /// exactly the event for the corresponding target and outcome, and the
    /// committed count trails the dispatch count only while one insert is
    /// outstanding.
    pub open spec fn wf(&self) -> bool {
        &&& self.attempted <= self.targets@.len()
        &&& self.outcomes@.len() == self.attempted
        &&& if self.awaiting_log {
            self.written + 1 == self.attempted
        } else {
            self.written == self.attempted
        }
        &&& self.events@.len() == self.written
        &&& forall|k: int|
            0 <= k < self.events@.len() ==> self.events@[k] == event_model(
                self.targets@[k]@,
                self.outcomes@[k],
            )
    }

    /// Starts a run over the given targets: nothing dispatched, nothing
    /// written, nothing outstanding.
    pub fn new(targets: Vec<DeviceTarget>) -> (r: Run)
        ensures
            r.wf(),
            r.targets == targets,
            r.attempted == 0,
            !r.awaiting_log,
            r.written == 0,
            !r.aborted,
            r.outcomes@ == Seq::<DispatchOutcomeModel>::empty(),
            r.events@ == Seq::<AuditEventModel>::empty(),
    {
        Run {
            targets,
            attempted: 0,
            awaiting_log: false,
            written: 0,
            aborted: false,
            outcomes: Ghost(Seq::empty()),
            events: Ghost(Seq::empty()),
        }
    }

    /// The device to dispatch to next: present exactly while the run is not
    /// aborted, no audit insert is outstanding, and devices remain.
    pub fn next_target(&self) -> (r: Option<&DeviceTarget>)
        ensures
            (r is Some) == (!self.aborted && !self.awaiting_log && self.attempted
                < self.targets@.len()),
            r matches Some(t) ==> *t == self.targets@[self.attempted as int],
    {
        if !self.aborted && !self.awaiting_log && self.attempted < self.targets.len() {
            Some(&self.targets[self.attempted])
        } else {
            None
        }
    }

    /// Records the outcome of the dispatch to the current device and returns
    /// the one audit event that must now be inserted for it.
    pub fn record_dispatch(&mut self, outcome: DispatchOutcome) -> (r: AuditEvent)
        requires
            old(self).wf(),
            !old(self).aborted,
            !old(self).awaiting_log,
            old(self).attempted < old(self).targets@.len(),
        ensures
            final(self).wf(),
            r@ == event_model(old(self).targets@[old(self).attempted as int]@, outcome@),
            final(self).targets == old(self).targets,
            final(self).attempted == old(self).attempted + 1,
            final(self).awaiting_log,
            final(self).written == old(self).written,
            !final(self).aborted,
            final(self).outcomes@ == old(self).outcomes@.push(outcome@),
            final(self).events@ == old(self).events@,
    {
        let event = audit_event_for(&self.targets[self.attempted], &outcome);
        proof {
            // The dispatch count stays below the vector's length, a usize.
            assert(self.attempted < self.targets.len());
            self.outcomes@ = self.outcomes@.push(outcome@);
        }
        self.attempted = self.attempted + 1;
        self.awaiting_log = true;
        event
    }

    /// Notes that the store committed the outstanding audit event.
    pub fn log_committed(&mut self)
        requires
            old(self).wf(),
            !old(self).aborted,
            old(self).awaiting_log,
        ensures
            final(self).wf(),
            final(self).targets == old(self).targets,
            final(self).attempted == old(self).attempted,
            !final(self).awaiting_log,
            final(self).written == old(self).written + 1,
            !final(self).aborted,
            final(self).outcomes@ == old(self).outcomes@,
            final(self).events@ == old(self).events@.push(
                event_model(
                    old(self).targets@[old(self).attempted - 1]@,
                    old(self).outcomes@[old(self).attempted - 1],
                ),
            ),
    {
        proof {
            self.events@ = self.events@.push(
                event_model(
                    self.targets@[self.attempted - 1]@,
                    self.outcomes@[self.attempted - 1],
                ),
            );
        }
        self.written = self.written + 1;
        self.awaiting_log = false;
    }

    /// Notes that the store refused the outstanding audit insert: the run
    /// aborts, and nothing further may be dispatched or logged.
    pub fn log_failed(&mut self)
        requires
            old(self).wf(),
            !old(self).aborted,
            old(self).awaiting_log,
        ensures
            final(self).wf(),
            final(self).aborted,
            final(self).targets == old(self).targets,
            final(self).attempted == old(self).attempted,
            final(self).awaiting_log == old(self).awaiting_log,
            final(self).written == old(self).written,
            final(self).outcomes@ == old(self).outcomes@,
            final(self).events@ == old(self).events@,
    {
        self.aborted = true;
    }

    /// Whether the run has finished: not aborted, no insert outstanding, and
    /// every fetched device processed.
    pub fn is_complete(&self) -> (r: bool)
        ensures
            r == (!self.aborted && !self.awaiting_log && self.attempted == self.targets@.len()),
    {
        !self.aborted && !self.awaiting_log && self.attempted == self.targets.len()
    }
}

/// A run that processes every fetched device writes exactly one audit event
/// per device: no silent drops, dispatch failures included.
pub proof fn lemma_complete_run_audits_every_device(r: Run)
    requires
        r.wf(),
        !r.awaiting_log,
        r.attempted == r.targets@.len(),
    ensures
        r.events@.len() == r.targets@.len(),
{
}

/// A run aborted by a failing audit insert has committed exactly one audit
/// event per device processed strictly before the failing insert.
pub proof fn lemma_aborted_run_audits_processed_devices(r: Run)
    requires
        r.wf(),
        r.awaiting_log,
    ensures
        r.events@.len() + 1 == r.attempted,
{
}

/// A completed run in which every dispatch succeeded committed exactly the
/// fully-successful event sequence of its targets — the events are a function
/// of the device set alone.
pub proof fn lemma_complete_success_run_events(r: Run)
    requires
        r.wf(),
        !r.awaiting_log,
        r.attempted == r.targets@.len(),
        forall|k: int| 0 <= k < r.outcomes@.len() ==> r.outcomes@[k] is Success,
    ensures
        r.events@ == success_run_events(target_models(r.targets@)),
{
    let expected = success_run_events(target_models(r.targets@));
    assert forall|k: int| 0 <= k < r.events@.len() implies r.events@[k] == expected[k] by {
        assert(r.outcomes@[k] is Success);
    }
    assert(r.events@ =~= expected);
}

/// Dispatch has no idempotence key: a second complete, fully-successful run
/// over an unchanged device set writes the whole event set again, so the
/// audit log afterwards holds both copies and the second equals the first.
pub proof fn lemma_second_run_writes_events_again(targets: Seq<DeviceTargetModel>)
    ensures
        (success_run_events(targets) + success_run_events(targets)).len() == 2 * targets.len(),
        (success_run_events(targets) + success_run_events(targets)).subrange(
            targets.len() as int,
            2 * (targets.len() as int),
        ) == success_run_events(targets),
{
    assert((success_run_events(targets) + success_run_events(targets)).subrange(
        targets.len() as int,
        2 * (targets.len() as int),
    ) =~= success_run_events(targets));
}

} // verus!
