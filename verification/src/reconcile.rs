//! The reconciliation loop as a state machine.
//!
//! The machine decides; its caller acts. Each [`Action`] names the one thing
//! the caller does next (read the clock, list the instances, start some,
//! sleep), and the [`Event`] that reports how it went is handed to
//! [`Reconciler::step`], which gives the next action or the final result.
//!
//! One round of the loop: read the clock and give up once the budget is
//! spent; list the instances; keep those that carry the required tags and
//! have an identifier and a status; fail if none is left; finish on the first
//! one that is running; else start the stopped ones, sleep, and go round
//! again.

use crate::error::{ProvisionError, ProvisionErrorView};
use crate::filter::{filter_by_tags, matching};
use crate::inventory::{
    all_records,
    instance_reservations,
    project_all,
    projections,
    InstanceRecordView,
    Inventory,
};
use crate::request::{tag_views, Request, Tag};
use crate::response::{
    copy_strings,
    instance_views,
    texts,
    Instance,
    InstanceView,
    RunningInstance,
    RunningInstanceView,
};
use crate::state::same_text;
use vstd::prelude::*;

verus! {

/// The time, in seconds, after which a reconciliation gives up.
pub const TIME_BUDGET_SECS: u64 = 60;

/// The time, in seconds, between two rounds.
pub const POLL_INTERVAL_SECS: u64 = 1;

/// What the machine is waiting to hear of.
#[derive(Debug, Clone, Copy, PartialEq, Eq, Structural)]
pub enum Phase {
    /// The time elapsed since the reconciliation began.
    Clock,
    /// The provider's inventory.
    Listing,
    /// The outcome of starting the stopped instances.
    Starting,
    /// The end of the sleep between two rounds.
    Sleeping,
}

/// What the caller reports back.
#[derive(Debug)]
pub enum Event {
    /// So many whole seconds have passed since the reconciliation began.
    Elapsed(u64),
    /// The provider listed its instances.
    Listed(Inventory),
    /// The provider failed to list its instances.
    ListFailed(String),
    /// The provider accepted the start of every instance named.
    Started,
    /// The provider failed to start an instance.
    StartFailed(String),
    /// The sleep is over.
    Slept,
}

/// What an [`Event`] holds.
pub enum EventView {
    Elapsed(u64),
    Listed(Seq<Seq<InstanceRecordView>>),
    ListFailed(Seq<char>),
    Started,
    StartFailed(Seq<char>),
    Slept,
}

impl View for Event {
    type V = EventView;

    open spec fn view(&self) -> EventView {
        match self {
            Event::Elapsed(secs) => EventView::Elapsed(*secs),
            Event::Listed(inventory) => EventView::Listed(inventory@),
            Event::ListFailed(text) => EventView::ListFailed(text@),
            Event::Started => EventView::Started,
            Event::StartFailed(text) => EventView::StartFailed(text@),
            Event::Slept => EventView::Slept,
        }
    }
}

/// What the caller is to do next.
#[derive(Debug)]
pub enum Action {
    /// Report the time elapsed since the reconciliation began.
    ReadClock,
    /// Ask the provider for its inventory.
    ListInstances,
    /// Ask the provider to start the instances with these identifiers.
    StartInstances(Vec<String>),
    /// Sleep for so many seconds.
    Sleep(u64),
}

/// What an [`Action`] holds.
pub enum ActionView {
    ReadClock,
    ListInstances,
    StartInstances(Seq<Seq<char>>),
    Sleep(u64),
}

impl View for Action {
    type V = ActionView;

    open spec fn view(&self) -> ActionView {
        match self {
            Action::ReadClock => ActionView::ReadClock,
            Action::ListInstances => ActionView::ListInstances,
            Action::StartInstances(ids) => ActionView::StartInstances(texts(ids@)),
            Action::Sleep(secs) => ActionView::Sleep(*secs),
        }
    }
}

/// What a [`Reconciler`] holds: the required tags, the log of the start
/// actions taken so far, what it is waiting for, and the identifiers whose
/// start it is waiting for.
pub struct ReconcilerView {
    pub tags: Seq<(Seq<char>, Seq<char>)>,
    pub actions: Seq<Seq<char>>,
    pub phase: Phase,
    pub pending: Seq<Seq<char>>,
}

impl ReconcilerView {
    /// The states a reconciliation can be in: it has a tag to look for, and
    /// identifiers are pending exactly while a start is awaited.
    pub open spec fn wf(self) -> bool {
        &&& self.tags.len() > 0
        &&& (self.phase == Phase::Starting <==> self.pending.len() > 0)
    }
}

/// A reconciliation under way.
#[derive(Debug)]
pub struct Reconciler {
    tags: Vec<Tag>,
    actions: Vec<String>,
    phase: Phase,
    pending: Vec<String>,
}

impl View for Reconciler {
    type V = ReconcilerView;

    closed spec fn view(&self) -> ReconcilerView {
        ReconcilerView {
            tags: tag_views(self.tags@),
            actions: texts(self.actions@),
            phase: self.phase,
            pending: texts(self.pending@),
        }
    }
}

/// Where a step leads: on to the next action, or to the end.
#[derive(Debug)]
pub enum Transition {
    /// The reconciliation goes on: the caller performs the action and
    /// reports the event to the machine.
    Continue(Reconciler, Action),
    /// A matching instance is running and has an address.
    Succeeded(RunningInstance),
    /// The reconciliation failed.
    Failed(ProvisionError),
}

/// What a [`Transition`] holds.
pub enum TransitionView {
    Continue(ReconcilerView, ActionView),
    Succeeded(RunningInstanceView),
    Failed(ProvisionErrorView),
}

impl View for Transition {
    type V = TransitionView;

    open spec fn view(&self) -> TransitionView {
        match self {
            Transition::Continue(machine, action) => TransitionView::Continue(machine@, action@),
            Transition::Succeeded(instance) => TransitionView::Succeeded(instance@),
            Transition::Failed(error) => TransitionView::Failed(error@),
        }
    }
}

/// The log entry for the start of an instance.
pub open spec fn start_message(id: Seq<char>) -> Seq<char> {
    "Starting instance "@ + id
}

/// Whether a snapshot shows a running instance.
pub open spec fn is_running(instance: InstanceView) -> bool {
    instance.state == "running"@
}

/// Whether a snapshot shows a stopped instance.
pub open spec fn is_stopped(instance: InstanceView) -> bool {
    instance.state == "stopped"@
}

/// Whether the snapshot at `i` shows a running instance and none before it
/// does.
pub open spec fn is_first_running(found: Seq<InstanceView>, i: int) -> bool {
    &&& 0 <= i < found.len()
    &&& is_running(found[i])
    &&& forall|j: int| 0 <= j < i ==> !is_running(#[trigger] found[j])
}

/// The first snapshot that shows a running instance, if there is one.
pub open spec fn first_running(found: Seq<InstanceView>) -> Option<InstanceView> {
    if exists|i: int| is_first_running(found, i) {
        Some(found[choose|i: int| is_first_running(found, i)])
    } else {
        None
    }
}

/// The identifiers of the snapshots that show a stopped instance, in order.
pub open spec fn stopped_ids(found: Seq<InstanceView>) -> Seq<Seq<char>> {
    found.filter_map(
        |i: InstanceView|
            if is_stopped(i) {
                Some(i.id)
            } else {
                None
            },
    )
}

/// The snapshots that a round works on: of the inventory's records, those
/// that carry every required tag and have an identifier and a status.
pub open spec fn candidates(
    tags: Seq<(Seq<char>, Seq<char>)>,
    inventory: Seq<Seq<InstanceRecordView>>,
) -> Seq<InstanceView> {
    projections(matching(all_records(inventory), tags))
}

/// The action whose outcome the machine is waiting for.
pub open spec fn awaited(machine: ReconcilerView) -> ActionView {
    match machine.phase {
        Phase::Clock => ActionView::ReadClock,
        Phase::Listing => ActionView::ListInstances,
        Phase::Starting => ActionView::StartInstances(machine.pending),
        Phase::Sleeping => ActionView::Sleep(POLL_INTERVAL_SECS),
    }
}

/// How a reconciliation begins: a request without tags fails before
/// anything is asked of the caller; any other starts with an empty log and
/// asks for the clock.
pub open spec fn begun(tags: Seq<(Seq<char>, Seq<char>)>) -> TransitionView {
    if tags.len() == 0 {
        TransitionView::Failed(ProvisionErrorView::InvalidRequest)
    } else {
        TransitionView::Continue(
            ReconcilerView {
                tags,
                actions: Seq::empty(),
                phase: Phase::Clock,
                pending: Seq::empty(),
            },
            ActionView::ReadClock,
        )
    }
}

/// What the machine makes of an inventory.
///
/// With no candidate it fails. With a running candidate it ends on the first
/// one: in success if that one has an address, in failure if not. Else it
/// logs and asks for the start of every stopped candidate; where none is
/// stopped it goes straight to sleep.
pub open spec fn observed(
    machine: ReconcilerView,
    inventory: Seq<Seq<InstanceRecordView>>,
) -> TransitionView {
    let found = candidates(machine.tags, inventory);
    if found.len() == 0 {
        TransitionView::Failed(ProvisionErrorView::NoMatchingInstances(machine.tags))
    } else {
        match first_running(found) {
            Some(instance) => match instance.ip {
                Some(ip) => TransitionView::Succeeded(
                    RunningInstanceView {
                        id: instance.id,
                        state: instance.state,
                        ip,
                        actions: machine.actions,
                    },
                ),
                None => TransitionView::Failed(ProvisionErrorView::MissingAddress),
            },
            None => {
                let ids = stopped_ids(found);
                if ids.len() == 0 {
                    TransitionView::Continue(
                        ReconcilerView {
                            phase: Phase::Sleeping,
                            pending: Seq::empty(),
                            ..machine
                        },
                        ActionView::Sleep(POLL_INTERVAL_SECS),
                    )
                } else {
                    TransitionView::Continue(
                        ReconcilerView {
                            actions: machine.actions + ids.map_values(
                                |id: Seq<char>| start_message(id),
                            ),
                            phase: Phase::Starting,
                            pending: ids,
                            ..machine
                        },
                        ActionView::StartInstances(ids),
                    )
                }
            },
        }
    }
}

/// The machine's step. An event that does not answer the awaited action
/// changes nothing, and the action is asked for again.
pub open spec fn next(machine: ReconcilerView, event: EventView) -> TransitionView {
    match machine.phase {
        Phase::Clock => match event {
            EventView::Elapsed(secs) => if secs >= TIME_BUDGET_SECS {
                TransitionView::Failed(ProvisionErrorView::Timeout)
            } else {
                TransitionView::Continue(
                    ReconcilerView { phase: Phase::Listing, ..machine },
                    ActionView::ListInstances,
                )
            },
            _ => TransitionView::Continue(machine, awaited(machine)),
        },
        Phase::Listing => match event {
            EventView::Listed(inventory) => observed(machine, inventory),
            EventView::ListFailed(text) => TransitionView::Failed(
                ProvisionErrorView::UpstreamFetchFailed(text),
            ),
            _ => TransitionView::Continue(machine, awaited(machine)),
        },
        Phase::Starting => match event {
            EventView::Started => TransitionView::Continue(
                ReconcilerView { phase: Phase::Sleeping, pending: Seq::empty(), ..machine },
                ActionView::Sleep(POLL_INTERVAL_SECS),
            ),
            EventView::StartFailed(text) => TransitionView::Failed(
                ProvisionErrorView::UpstreamFetchFailed(text),
            ),
            _ => TransitionView::Continue(machine, awaited(machine)),
        },
        Phase::Sleeping => match event {
            EventView::Slept => TransitionView::Continue(
                ReconcilerView { phase: Phase::Clock, ..machine },
                ActionView::ReadClock,
            ),
            _ => TransitionView::Continue(machine, awaited(machine)),
        },
    }
}

/// Where a transition leads once the caller has reported an event: a
/// reconciliation that goes on takes the step; one that has ended stays as
/// it ended.
pub open spec fn followed_by(t: TransitionView, event: EventView) -> TransitionView {
    match t {
        TransitionView::Continue(machine, _) => next(machine, event),
        _ => t,
    }
}

/// At most one index is that of the first running snapshot.
pub proof fn first_running_is_unique(found: Seq<InstanceView>, i: int, k: int)
    requires
        is_first_running(found, i),
        is_first_running(found, k),
    ensures
        i == k,
{
    if i < k {
        assert(!is_running(found[i]));
    }
    if k < i {
        assert(!is_running(found[k]));
    }
}

/// Finds the first snapshot that shows a running instance.
pub fn find_running(found: &Vec<Instance>) -> (at: Option<usize>)
    ensures
        match at {
            Some(i) => is_first_running(instance_views(found@), i as int) && first_running(
                instance_views(found@),
            ) == Some(found@[i as int]@),
            None => first_running(instance_views(found@)).is_none(),
        },
{
    let ghost views = instance_views(found@);
    let mut i: usize = 0;
    while i < found.len()
        invariant
            i <= found.len(),
            views == instance_views(found@),
            forall|j: int| 0 <= j < i ==> !is_running(#[trigger] views[j]),
        decreases found.len() - i,
    {
        if same_text(found[i].state.as_str(), "running") {
            proof {
                assert(is_first_running(views, i as int));
                let k = choose|k: int| is_first_running(views, k);
                first_running_is_unique(views, i as int, k);
            }
            return Some(i);
        }
        i = i + 1;
    }
    assert forall|k: int| !is_first_running(views, k) by {
        if 0 <= k < views.len() {
            assert(!is_running(views[k]));
        }
    }
    None
}

/// Lists the identifiers of the snapshots that show a stopped instance.
pub fn list_stopped(found: &Vec<Instance>) -> (ids: Vec<String>)
    ensures
        texts(ids@) == stopped_ids(instance_views(found@)),
{
    let ghost views = instance_views(found@);
    let ghost pick = |i: InstanceView|
        if is_stopped(i) {
            Some(i.id)
        } else {
            None
        };
    let mut ids: Vec<String> = Vec::new();
    let mut i: usize = 0;
    assert(views.take(0).filter_map(pick) =~= Seq::<Seq<char>>::empty());
    while i < found.len()
        invariant
            i <= found.len(),
            views == instance_views(found@),
            pick == |i: InstanceView|
                if is_stopped(i) {
                    Some(i.id)
                } else {
                    None
                },
            texts(ids@) =~= views.take(i as int).filter_map(pick),
        decreases found.len() - i,
    {
        let ghost before = texts(ids@);
        proof {
            views.lemma_filter_map_take_succ(pick, i as int);
        }
        if same_text(found[i].state.as_str(), "stopped") {
            ids.push(found[i].id.clone());
            assert(texts(ids@) =~= before + seq![found@[i as int].id@]);
        }
        i = i + 1;
    }
    assert(views.take(i as int) =~= views);
    ids
}

/// Appends to the log the entry for the start of each identifier, in order.
pub fn log_starts(actions: &mut Vec<String>, ids: &Vec<String>)
    ensures
        texts(final(actions)@) == texts(old(actions)@) + texts(ids@).map_values(
            |id: Seq<char>| start_message(id),
        ),
{
    let ghost entries = texts(ids@).map_values(|id: Seq<char>| start_message(id));
    let mut i: usize = 0;
    assert(texts(actions@) =~= texts(old(actions)@) + entries.take(0));
    while i < ids.len()
        invariant
            i <= ids.len(),
            entries == texts(ids@).map_values(|id: Seq<char>| start_message(id)),
            texts(actions@) =~= texts(old(actions)@) + entries.take(i as int),
        decreases ids.len() - i,
    {
        let ghost before = texts(actions@);
        let entry = String::from_str("Starting instance ").concat(ids[i].as_str());
        assert(entry@ == entries[i as int]);
        actions.push(entry);
        proof {
            assert(texts(actions@) =~= before.push(entry@));
            assert(entries.take(i + 1) =~= entries.take(i as int).push(entries[i as int]));
        }
        i = i + 1;
    }
    assert(entries.take(i as int) =~= entries);
}

impl Reconciler {
    /// Begins a reconciliation for the request. A request without tags is
    /// refused at once with `InvalidRequest`, and nothing is asked of the
    /// caller; for any other the caller is asked to read the clock.
    pub fn begin(request: Request) -> (t: Transition)
        ensures
            t@ == begun(request@),
            request@.len() == 0 <==> t@ == TransitionView::Failed(
                ProvisionErrorView::InvalidRequest,
            ),
    {
        if request.tags.len() == 0 {
            Transition::Failed(ProvisionError::InvalidRequest)
        } else {
            let machine = Reconciler {
                tags: request.tags,
                actions: Vec::new(),
                phase: Phase::Clock,
                pending: Vec::new(),
            };
            assert(machine@.actions =~= Seq::empty());
            assert(machine@.pending =~= Seq::empty());
            Transition::Continue(machine, Action::ReadClock)
        }
    }

    /// What the machine is waiting to hear of.
    pub fn phase(&self) -> (phase: Phase)
        ensures
            phase == self@.phase,
    {
        self.phase
    }

    /// The log of the start actions taken so far.
    pub fn actions(&self) -> (actions: &Vec<String>)
        ensures
            texts(actions@) == self@.actions,
    {
        &self.actions
    }

    /// The required tags.
    pub fn tags(&self) -> (tags: &Vec<Tag>)
        ensures
            tag_views(tags@) == self@.tags,
    {
        &self.tags
    }

    /// Asks again for the action whose outcome is awaited.
    fn ask_again(self) -> (t: Transition)
        ensures
            t@ == TransitionView::Continue(self@, awaited(self@)),
    {
        let action = match self.phase {
            Phase::Clock => Action::ReadClock,
            Phase::Listing => Action::ListInstances,
            Phase::Starting => Action::StartInstances(copy_strings(&self.pending)),
            Phase::Sleeping => Action::Sleep(POLL_INTERVAL_SECS),
        };
        Transition::Continue(self, action)
    }

    /// Decides on an inventory: fail, finish, start the stopped candidates,
    /// or sleep.
    pub fn observe(self, inventory: &Inventory) -> (t: Transition)
        ensures
            t@ == observed(self@, inventory@),
    {
        let records = instance_reservations(inventory);
        let kept = filter_by_tags(&records, &self.tags);
        let found = project_all(&kept);
        if found.len() == 0 {
            return Transition::Failed(ProvisionError::NoMatchingInstances(self.tags));
        }
        match find_running(&found) {
            Some(i) => {
                let instance = found[i].clone();
                match instance.ip {
                    Some(ip) => Transition::Succeeded(
                        RunningInstance {
                            id: instance.id,
                            state: instance.state,
                            ip,
                            actions: self.actions,
                        },
                    ),
                    None => Transition::Failed(ProvisionError::MissingAddress),
                }
            },
            None => {
                let ids = list_stopped(&found);
                if ids.len() == 0 {
                    let machine = Reconciler {
                        tags: self.tags,
                        actions: self.actions,
                        phase: Phase::Sleeping,
                        pending: Vec::new(),
                    };
                    assert(machine@.pending =~= Seq::empty());
                    Transition::Continue(machine, Action::Sleep(POLL_INTERVAL_SECS))
                } else {
                    let mut actions = self.actions;
                    log_starts(&mut actions, &ids);
                    let machine = Reconciler {
                        tags: self.tags,
                        actions,
                        phase: Phase::Starting,
                        pending: copy_strings(&ids),
                    };
                    Transition::Continue(machine, Action::StartInstances(ids))
                }
            },
        }
    }

    /// Takes the event that reports on the last action and gives the next
    /// action or the result.
    pub fn step(self, event: Event) -> (t: Transition)
        ensures
            t@ == next(self@, event@),
    {
        match self.phase {
            Phase::Clock => match event {
                Event::Elapsed(secs) => {
                    if secs >= TIME_BUDGET_SECS {
                        Transition::Failed(ProvisionError::Timeout)
                    } else {
                        let machine = Reconciler {
                            tags: self.tags,
                            actions: self.actions,
                            phase: Phase::Listing,
                            pending: self.pending,
                        };
                        Transition::Continue(machine, Action::ListInstances)
                    }
                },
                _ => self.ask_again(),
            },
            Phase::Listing => match event {
                Event::Listed(inventory) => self.observe(&inventory),
                Event::ListFailed(text) => Transition::Failed(
                    ProvisionError::UpstreamFetchFailed(text),
                ),
                _ => self.ask_again(),
            },
            Phase::Starting => match event {
                Event::Started => {
                    let machine = Reconciler {
                        tags: self.tags,
                        actions: self.actions,
                        phase: Phase::Sleeping,
                        pending: Vec::new(),
                    };
                    assert(machine@.pending =~= Seq::empty());
                    Transition::Continue(machine, Action::Sleep(POLL_INTERVAL_SECS))
                },
                Event::StartFailed(text) => Transition::Failed(
                    ProvisionError::UpstreamFetchFailed(text),
                ),
                _ => self.ask_again(),
            },
            Phase::Sleeping => match event {
                Event::Slept => {
                    let machine = Reconciler {
                        tags: self.tags,
                        actions: self.actions,
                        phase: Phase::Clock,
                        pending: self.pending,
                    };
                    Transition::Continue(machine, Action::ReadClock)
                },
                _ => self.ask_again(),
            },
        }
    }
}

} // verus!
