//! What holds of every reconciliation, proved from the machine's step.

use crate::error::ProvisionErrorView;
use crate::filter::{carries_all, filter_keeps_exactly_the_carriers, matching};
use crate::inventory::{all_records, projected, InstanceRecordView};
use crate::reconcile::{
    awaited,
    begun,
    candidates,
    first_running,
    first_running_is_unique,
    followed_by,
    is_first_running,
    is_running,
    is_stopped,
    next,
    start_message,
    stopped_ids,
    ActionView,
    EventView,
    Phase,
    ReconcilerView,
    TransitionView,
    POLL_INTERVAL_SECS,
    TIME_BUDGET_SECS,
};
use crate::response::{InstanceView, RunningInstanceView};
use vstd::prelude::*;

verus! {

/// No snapshot shows an instance both running and stopped.
pub proof fn running_is_not_stopped(instance: InstanceView)
    ensures
        !(is_running(instance) && is_stopped(instance)),
{
    reveal_strlit("running");
    reveal_strlit("stopped");
    assert("running"@[0] != "stopped"@[0]);
}

/// Where every snapshot shows a stopped instance, the stopped identifiers
/// are the identifiers of all of them, and none is running.
pub proof fn all_stopped(found: Seq<InstanceView>)
    requires
        forall|i: int| 0 <= i < found.len() ==> is_stopped(#[trigger] found[i]),
    ensures
        stopped_ids(found) == found.map_values(|c: InstanceView| c.id),
        first_running(found).is_none(),
    decreases found.len(),
{
    assert forall|k: int| !is_first_running(found, k) by {
        if 0 <= k < found.len() {
            running_is_not_stopped(found[k]);
        }
    }
    if found.len() > 0 {
        let rest = found.drop_last();
        assert forall|i: int| 0 <= i < rest.len() implies is_stopped(#[trigger] rest[i]) by {
            assert(rest[i] == found[i]);
        }
        all_stopped(rest);
        assert(is_stopped(found.last()));
        assert(stopped_ids(found) =~= found.map_values(|c: InstanceView| c.id));
    } else {
        assert(stopped_ids(found) =~= found.map_values(|c: InstanceView| c.id));
    }
}

/// A reconciliation that begins is in a well-formed state, and asks for the
/// clock.
pub proof fn beginning_is_well_formed(tags: Seq<(Seq<char>, Seq<char>)>)
    requires
        tags.len() > 0,
    ensures
        ({
            &&& begun(tags) matches TransitionView::Continue(machine, action)
            &&& machine.wf()
            &&& machine.tags == tags
            &&& machine.actions.len() == 0
            &&& action == ActionView::ReadClock
        }),
{
}

/// Every step of a well-formed machine that goes on leads to a well-formed
/// machine with the same required tags, asks for exactly the action that
/// the new state awaits, and keeps what was logged, in order, at the front
/// of the log.
pub proof fn step_keeps_well_formed(machine: ReconcilerView, event: EventView)
    requires
        machine.wf(),
    ensures
        next(machine, event) matches TransitionView::Continue(after, action) ==> ({
            &&& after.wf()
            &&& after.tags == machine.tags
            &&& action == awaited(after)
            &&& machine.actions.is_prefix_of(after.actions)
        }),
{
    if let TransitionView::Continue(after, action) = next(machine, event) {
        assert(machine.actions.is_prefix_of(after.actions)) by {
            if machine.phase == Phase::Listing {
                if let EventView::Listed(inventory) = event {
                    let ids = stopped_ids(candidates(machine.tags, inventory));
                    let entries = ids.map_values(|id: Seq<char>| start_message(id));
                    assert(after.actions =~= machine.actions || after.actions =~= machine.actions
                        + entries);
                    assert((machine.actions + entries).subrange(0, machine.actions.len() as int)
                        =~= machine.actions);
                }
            }
            assert(machine.actions.subrange(0, machine.actions.len() as int) =~= machine.actions);
        }
    }
}

/// Once the time budget is spent, the clock's report ends the
/// reconciliation in `Timeout`, whatever was found or done before; and
/// `Timeout` comes of nothing else.
pub proof fn timeout_exactly_when_budget_is_spent(machine: ReconcilerView, event: EventView)
    ensures
        next(machine, event) == TransitionView::Failed(ProvisionErrorView::Timeout) <==> ({
            &&& machine.phase == Phase::Clock
            &&& event matches EventView::Elapsed(secs)
            &&& secs >= TIME_BUDGET_SECS
        }),
{
}

/// The inventory is asked for only after a clock reading within the
/// budget: every round begins with the clock.
pub proof fn listing_follows_a_clock_reading_within_budget(
    machine: ReconcilerView,
    event: EventView,
    after: ReconcilerView,
    action: ActionView,
)
    requires
        machine.phase != Phase::Listing,
        next(machine, event) == TransitionView::Continue(after, action),
        after.phase == Phase::Listing,
    ensures
        machine.phase == Phase::Clock,
        event matches EventView::Elapsed(secs) && secs < TIME_BUDGET_SECS,
        action == ActionView::ListInstances,
{
}

/// Every candidate is the snapshot of a record of the inventory that
/// carries every required tag.
pub proof fn candidates_carry_the_required_tags(
    tags: Seq<(Seq<char>, Seq<char>)>,
    inventory: Seq<Seq<InstanceRecordView>>,
    candidate: InstanceView,
)
    requires
        candidates(tags, inventory).contains(candidate),
    ensures
        exists|record: InstanceRecordView|
            #[trigger] all_records(inventory).contains(record) && carries_all(record, tags)
                && projected(record) == Some(candidate),
{
    let kept = matching(all_records(inventory), tags);
    let snapshot = |r: InstanceRecordView| projected(r);
    kept.lemma_filter_map_contains(snapshot, candidate);
    let record = choose|r: InstanceRecordView| #[trigger]
        kept.contains(r) && snapshot(r) == Some(candidate);
    filter_keeps_exactly_the_carriers(all_records(inventory), tags, record);
    assert(all_records(inventory).contains(record) && carries_all(record, tags) && projected(
        record,
    ) == Some(candidate));
}

/// No step reports an invalid request: that is decided before the first
/// action, and only there.
pub proof fn only_the_beginning_refuses_a_request(machine: ReconcilerView, event: EventView)
    ensures
        next(machine, event) != TransitionView::Failed(ProvisionErrorView::InvalidRequest),
{
}

/// A provider failure ends the reconciliation with the provider's text, and
/// that error comes of nothing else.
pub proof fn upstream_failure_exactly_when_the_provider_fails(
    machine: ReconcilerView,
    event: EventView,
    text: Seq<char>,
)
    ensures
        next(machine, event) == TransitionView::Failed(
            ProvisionErrorView::UpstreamFetchFailed(text),
        ) <==> ((machine.phase == Phase::Listing && event == EventView::ListFailed(text)) || (
        machine.phase == Phase::Starting && event == EventView::StartFailed(text))),
{
}

/// An inventory without a candidate ends the reconciliation in
/// `NoMatchingInstances`: nothing is started and there is no sleep.
pub proof fn no_candidate_fails_at_once(
    machine: ReconcilerView,
    inventory: Seq<Seq<InstanceRecordView>>,
)
    requires
        machine.phase == Phase::Listing,
    ensures
        candidates(machine.tags, inventory).len() == 0 <==> next(
            machine,
            EventView::Listed(inventory),
        ) == TransitionView::Failed(ProvisionErrorView::NoMatchingInstances(machine.tags)),
{
}

/// In the first round, with budget left, an inventory without a candidate
/// ends the reconciliation in `NoMatchingInstances`.
pub proof fn first_round_without_candidate(
    tags: Seq<(Seq<char>, Seq<char>)>,
    secs: u64,
    inventory: Seq<Seq<InstanceRecordView>>,
)
    requires
        tags.len() > 0,
        secs < TIME_BUDGET_SECS,
        candidates(tags, inventory).len() == 0,
    ensures
        followed_by(begun(tags), EventView::Elapsed(secs)) matches TransitionView::Continue(
            _,
            ActionView::ListInstances,
        ),
        followed_by(
            followed_by(begun(tags), EventView::Elapsed(secs)),
            EventView::Listed(inventory),
        ) == TransitionView::Failed(ProvisionErrorView::NoMatchingInstances(tags)),
{
}

/// In the first round, with budget left, a first running candidate that has
/// an address is the result, and the log of actions is empty.
pub proof fn running_candidate_is_returned_at_once(
    tags: Seq<(Seq<char>, Seq<char>)>,
    secs: u64,
    inventory: Seq<Seq<InstanceRecordView>>,
    i: int,
    ip: Seq<char>,
)
    requires
        tags.len() > 0,
        secs < TIME_BUDGET_SECS,
        is_first_running(candidates(tags, inventory), i),
        candidates(tags, inventory)[i].ip == Some(ip),
    ensures
        followed_by(
            followed_by(begun(tags), EventView::Elapsed(secs)),
            EventView::Listed(inventory),
        ) == TransitionView::Succeeded(
            RunningInstanceView {
                id: candidates(tags, inventory)[i].id,
                state: "running"@,
                ip,
                actions: Seq::empty(),
            },
        ),
{
    let found = candidates(tags, inventory);
    let k = choose|k: int| is_first_running(found, k);
    first_running_is_unique(found, i, k);
}

/// A result is only ever produced for a candidate that is running and has
/// an address: success comes of an inventory whose first running candidate
/// has one, and hands back that candidate with the log as it stands.
pub proof fn success_is_a_running_candidate_with_address(
    machine: ReconcilerView,
    event: EventView,
    result: RunningInstanceView,
)
    ensures
        next(machine, event) == TransitionView::Succeeded(result) <==> ({
            &&& machine.phase == Phase::Listing
            &&& event matches EventView::Listed(inventory)
            &&& first_running(candidates(machine.tags, inventory)) matches Some(instance)
            &&& instance.ip == Some(result.ip)
            &&& result.id == instance.id
            &&& result.state == "running"@
            &&& result.actions == machine.actions
        }),
{
    if machine.phase == Phase::Listing {
        if let EventView::Listed(inventory) = event {
            let found = candidates(machine.tags, inventory);
            if let Some(instance) = first_running(found) {
                let k = choose|k: int| is_first_running(found, k);
                assert(is_running(found[k]));
            }
        }
    }
}

/// A first running candidate without an address ends the reconciliation in
/// `MissingAddress`; it is not waited for.
pub proof fn missing_address_exactly_when_running_without_one(
    machine: ReconcilerView,
    event: EventView,
)
    ensures
        next(machine, event) == TransitionView::Failed(ProvisionErrorView::MissingAddress) <==> ({
            &&& machine.phase == Phase::Listing
            &&& event matches EventView::Listed(inventory)
            &&& first_running(candidates(machine.tags, inventory)) matches Some(instance)
            &&& instance.ip.is_none()
        }),
{
    if machine.phase == Phase::Listing {
        if let EventView::Listed(inventory) = event {
            let found = candidates(machine.tags, inventory);
            if let Some(instance) = first_running(found) {
                let k = choose|k: int| is_first_running(found, k);
                assert(found.len() > 0);
            }
        }
    }
}

/// Where every candidate is stopped, the start of each is asked for, in the
/// candidates' order, and logged behind what was logged before; once the
/// provider has accepted, the machine sleeps for the poll interval and then
/// begins the next round with the clock.
pub proof fn stopped_candidates_are_started(
    machine: ReconcilerView,
    inventory: Seq<Seq<InstanceRecordView>>,
)
    requires
        machine.phase == Phase::Listing,
        candidates(machine.tags, inventory).len() > 0,
        forall|i: int|
            0 <= i < candidates(machine.tags, inventory).len() ==> is_stopped(
                #[trigger] candidates(machine.tags, inventory)[i],
            ),
    ensures
        ({
            let ids = candidates(machine.tags, inventory).map_values(|c: InstanceView| c.id);
            let log = machine.actions + ids.map_values(|id: Seq<char>| start_message(id));
            let listed = next(machine, EventView::Listed(inventory));
            let started = followed_by(listed, EventView::Started);
            let slept = followed_by(started, EventView::Slept);
            &&& listed == TransitionView::Continue(
                ReconcilerView { actions: log, phase: Phase::Starting, pending: ids, ..machine },
                ActionView::StartInstances(ids),
            )
            &&& started == TransitionView::Continue(
                ReconcilerView {
                    actions: log,
                    phase: Phase::Sleeping,
                    pending: Seq::empty(),
                    ..machine
                },
                ActionView::Sleep(POLL_INTERVAL_SECS),
            )
            &&& slept == TransitionView::Continue(
                ReconcilerView {
                    actions: log,
                    phase: Phase::Clock,
                    pending: Seq::empty(),
                    ..machine
                },
                ActionView::ReadClock,
            )
        }),
{
    let found = candidates(machine.tags, inventory);
    all_stopped(found);
    assert(stopped_ids(found).len() == found.len());
}

/// Only stopped candidates are ever started: the identifiers in a start
/// action are those of the stopped candidates of the inventory just seen,
/// and each gets its entry in the log.
pub proof fn only_stopped_candidates_are_started(
    machine: ReconcilerView,
    inventory: Seq<Seq<InstanceRecordView>>,
    after: ReconcilerView,
    ids: Seq<Seq<char>>,
)
    requires
        machine.phase == Phase::Listing,
        next(machine, EventView::Listed(inventory)) == TransitionView::Continue(
            after,
            ActionView::StartInstances(ids),
        ),
    ensures
        ids == stopped_ids(candidates(machine.tags, inventory)),
        ids.len() > 0,
        first_running(candidates(machine.tags, inventory)).is_none(),
        after.actions == machine.actions + ids.map_values(|id: Seq<char>| start_message(id)),
{
}

} // verus!
