use instance_locator::error::ProvisionError;
use instance_locator::inventory::{InstanceRecord, InstanceTag, Inventory, Reservation};
use instance_locator::reconcile::{
    find_running, list_stopped, log_starts, Action, Event, Phase, Reconciler, Transition,
    POLL_INTERVAL_SECS, TIME_BUDGET_SECS,
};
use instance_locator::request::{Request, Tag};
use instance_locator::response::Instance;

fn tag(key: &str, value: &str) -> Tag {
    Tag { key: key.to_string(), value: value.to_string() }
}

fn devcontainer() -> Request {
    Request { tags: vec![tag("devcontainer", "arm64.medium")] }
}

fn record(id: &str, state: &str, ip: Option<&str>, tags: &[(&str, &str)]) -> InstanceRecord {
    InstanceRecord {
        instance_id: Some(id.to_string()),
        state: Some(state.to_string()),
        public_ip_address: ip.map(String::from),
        tags: Some(
            tags.iter()
                .map(|(k, v)| InstanceTag { key: Some(k.to_string()), value: Some(v.to_string()) })
                .collect(),
        ),
    }
}

fn inventory(records: Vec<InstanceRecord>) -> Inventory {
    Inventory { reservations: Some(vec![Reservation { instances: Some(records) }]) }
}

fn snapshot(id: &str, state: &str, ip: Option<&str>) -> Instance {
    Instance { id: id.to_string(), state: state.to_string(), ip: ip.map(String::from) }
}

fn going_on(t: Transition) -> (Reconciler, Action) {
    match t {
        Transition::Continue(machine, action) => (machine, action),
        other => panic!("the reconciliation ended: {:?}", other),
    }
}

fn failure(t: Transition) -> ProvisionError {
    match t {
        Transition::Failed(error) => error,
        other => panic!("the reconciliation did not fail: {:?}", other),
    }
}

/// A machine that has read the clock and waits for the inventory.
fn listing(request: Request) -> Reconciler {
    let (machine, action) = going_on(Reconciler::begin(request));
    assert!(matches!(action, Action::ReadClock));
    let (machine, action) = going_on(machine.step(Event::Elapsed(0)));
    assert!(matches!(action, Action::ListInstances));
    assert_eq!(machine.phase(), Phase::Listing);
    machine
}

#[test]
fn test_provision() {
    let request = devcontainer();
    let (machine, action) = going_on(Reconciler::begin(request));
    assert!(matches!(action, Action::ReadClock));
    assert!(machine.actions().is_empty());

    let (machine, action) = going_on(machine.step(Event::Elapsed(0)));
    assert!(matches!(action, Action::ListInstances));

    let stopped =
        inventory(vec![record("i-xxxx", "stopped", None, &[("devcontainer", "arm64.medium")])]);
    let (machine, action) = going_on(machine.step(Event::Listed(stopped)));
    match action {
        Action::StartInstances(ids) => assert_eq!(ids, vec!["i-xxxx".to_string()]),
        other => panic!("expected a start, got {:?}", other),
    }
    assert_eq!(machine.actions(), &vec!["Starting instance i-xxxx".to_string()]);

    let (machine, action) = going_on(machine.step(Event::Started));
    assert!(matches!(action, Action::Sleep(1)));

    let (machine, action) = going_on(machine.step(Event::Slept));
    assert!(matches!(action, Action::ReadClock));

    let (machine, action) = going_on(machine.step(Event::Elapsed(1)));
    assert!(matches!(action, Action::ListInstances));

    let running = inventory(vec![record(
        "i-xxxx",
        "running",
        Some("203.0.113.5"),
        &[("devcontainer", "arm64.medium")],
    )]);
    let response = match machine.step(Event::Listed(running)) {
        Transition::Succeeded(instance) => instance,
        other => panic!("expected success, got {:?}", other),
    };
    println!("response: {:?}", response);
    assert_eq!(response.id, "i-xxxx");
    assert_eq!(response.state, "running");
    assert_eq!(response.ip, "203.0.113.5");
    assert_eq!(response.actions, vec!["Starting instance i-xxxx".to_string()]);
}

#[test]
fn no_matching_instance_fails_at_once() {
    let machine = listing(devcontainer());
    let others = inventory(vec![
        record("i-1", "stopped", None, &[("devcontainer", "x86.medium")]),
        record("i-2", "running", Some("203.0.113.9"), &[("other", "arm64.medium")]),
        record("i-3", "stopped", None, &[]),
    ]);
    let error = failure(machine.step(Event::Listed(others)));
    match &error {
        ProvisionError::NoMatchingInstances(tags) => {
            assert_eq!(tags.len(), 1);
            assert_eq!(tags[0].key, "devcontainer");
            assert_eq!(tags[0].value, "arm64.medium");
        },
        other => panic!("expected no match, got {:?}", other),
    }
    assert_eq!(
        error.message(),
        "No instances found with tags: [Tag { key: \"devcontainer\", value: \"arm64.medium\" }] []"
    );
}

#[test]
fn an_empty_inventory_has_no_match() {
    let machine = listing(devcontainer());
    let error = failure(machine.step(Event::Listed(Inventory { reservations: None })));
    assert!(matches!(error, ProvisionError::NoMatchingInstances(_)));
}

#[test]
fn a_match_without_identifier_is_no_candidate() {
    let machine = listing(devcontainer());
    let mut nameless = record("i-1", "running", Some("203.0.113.5"), &[("devcontainer", "arm64.medium")]);
    nameless.instance_id = None;
    let error = failure(machine.step(Event::Listed(inventory(vec![nameless]))));
    assert!(matches!(error, ProvisionError::NoMatchingInstances(_)));
}

#[test]
fn an_empty_request_is_invalid() {
    let error = failure(Reconciler::begin(Request { tags: vec![] }));
    assert!(matches!(error, ProvisionError::InvalidRequest));
    assert_eq!(error.message(), "No tags provided");
}

#[test]
fn a_running_match_is_returned_with_an_empty_log() {
    let machine = listing(devcontainer());
    let found = inventory(vec![
        record("i-1", "stopped", None, &[("devcontainer", "arm64.medium")]),
        record("i-2", "running", Some("203.0.113.5"), &[("devcontainer", "arm64.medium"), ("x", "y")]),
        record("i-3", "running", Some("203.0.113.6"), &[("devcontainer", "arm64.medium")]),
    ]);
    match machine.step(Event::Listed(found)) {
        Transition::Succeeded(instance) => {
            assert_eq!(instance.id, "i-2");
            assert_eq!(instance.state, "running");
            assert_eq!(instance.ip, "203.0.113.5");
            assert!(instance.actions.is_empty());
        },
        other => panic!("expected success, got {:?}", other),
    }
}

#[test]
fn a_running_match_without_address_is_an_error() {
    let machine = listing(devcontainer());
    let found = inventory(vec![
        record("i-1", "running", None, &[("devcontainer", "arm64.medium")]),
        record("i-2", "running", Some("203.0.113.6"), &[("devcontainer", "arm64.medium")]),
    ]);
    let error = failure(machine.step(Event::Listed(found)));
    assert!(matches!(error, ProvisionError::MissingAddress));
    assert_eq!(error.message(), "No IP address found");
}

#[test]
fn every_stopped_match_is_started_and_logged() {
    let machine = listing(Request { tags: vec![tag("a", "1"), tag("b", "2")] });
    let found = inventory(vec![
        record("i-1", "stopped", None, &[("a", "1"), ("b", "2")]),
        record("i-2", "stopped", None, &[("a", "1")]),
        record("i-3", "pending", None, &[("b", "2"), ("a", "1")]),
        record("i-4", "stopped", None, &[("b", "2"), ("a", "1"), ("c", "3")]),
        record("i-5", "stopping", None, &[("a", "1"), ("b", "2")]),
    ]);
    let (machine, action) = going_on(machine.step(Event::Listed(found)));
    match action {
        Action::StartInstances(ids) => {
            assert_eq!(ids, vec!["i-1".to_string(), "i-4".to_string()])
        },
        other => panic!("expected a start, got {:?}", other),
    }
    assert_eq!(machine.phase(), Phase::Starting);
    assert_eq!(
        machine.actions(),
        &vec!["Starting instance i-1".to_string(), "Starting instance i-4".to_string()]
    );
    assert_eq!(machine.tags().len(), 2);

    // The next round logs behind what is there.
    let (machine, _) = going_on(machine.step(Event::Started));
    assert_eq!(machine.phase(), Phase::Sleeping);
    let (machine, _) = going_on(machine.step(Event::Slept));
    assert_eq!(machine.phase(), Phase::Clock);
    let (machine, _) = going_on(machine.step(Event::Elapsed(2)));
    let again = inventory(vec![
        record("i-1", "pending", None, &[("a", "1"), ("b", "2")]),
        record("i-4", "stopped", None, &[("a", "1"), ("b", "2")]),
    ]);
    let (machine, action) = going_on(machine.step(Event::Listed(again)));
    match action {
        Action::StartInstances(ids) => assert_eq!(ids, vec!["i-4".to_string()]),
        other => panic!("expected a start, got {:?}", other),
    }
    assert_eq!(
        machine.actions(),
        &vec![
            "Starting instance i-1".to_string(),
            "Starting instance i-4".to_string(),
            "Starting instance i-4".to_string()
        ]
    );
}

#[test]
fn matches_in_between_states_are_waited_for() {
    let machine = listing(devcontainer());
    let found = inventory(vec![
        record("i-1", "pending", None, &[("devcontainer", "arm64.medium")]),
        record("i-2", "shutting-down", None, &[("devcontainer", "arm64.medium")]),
        record("i-3", "stopping", None, &[("devcontainer", "arm64.medium")]),
        record("i-4", "terminated", None, &[("devcontainer", "arm64.medium")]),
        record("i-5", "rebooting", None, &[("devcontainer", "arm64.medium")]),
    ]);
    let (machine, action) = going_on(machine.step(Event::Listed(found)));
    assert!(matches!(action, Action::Sleep(1)));
    assert_eq!(machine.phase(), Phase::Sleeping);
    assert!(machine.actions().is_empty());
}

#[test]
fn the_budget_is_sixty_seconds() {
    assert_eq!(TIME_BUDGET_SECS, 60);
    assert_eq!(POLL_INTERVAL_SECS, 1);
    let (machine, _) = going_on(Reconciler::begin(devcontainer()));
    let (_, action) = going_on(machine.step(Event::Elapsed(59)));
    assert!(matches!(action, Action::ListInstances));

    let (machine, _) = going_on(Reconciler::begin(devcontainer()));
    let error = failure(machine.step(Event::Elapsed(60)));
    assert!(matches!(error, ProvisionError::Timeout));
    assert_eq!(error.message(), "Timeout");

    let (machine, _) = going_on(Reconciler::begin(devcontainer()));
    let error = failure(machine.step(Event::Elapsed(u64::MAX)));
    assert!(matches!(error, ProvisionError::Timeout));
}

#[test]
fn a_reconciliation_that_never_sees_a_running_match_times_out() {
    let (mut machine, mut action) = going_on(Reconciler::begin(devcontainer()));
    let mut clock: u64 = 0;
    let mut starts = 0;
    let error = loop {
        let event = match action {
            Action::ReadClock => Event::Elapsed(clock),
            Action::ListInstances => Event::Listed(inventory(vec![record(
                "i-1",
                "stopped",
                None,
                &[("devcontainer", "arm64.medium")],
            )])),
            Action::StartInstances(_) => {
                starts += 1;
                Event::Started
            },
            Action::Sleep(secs) => {
                clock += secs;
                Event::Slept
            },
        };
        match machine.step(event) {
            Transition::Continue(m, a) => {
                machine = m;
                action = a;
            },
            Transition::Failed(error) => break error,
            Transition::Succeeded(instance) => panic!("unexpected success: {:?}", instance),
        }
    };
    assert!(matches!(error, ProvisionError::Timeout));
    assert_eq!(clock, 60);
    assert_eq!(starts, 60);
}

#[test]
fn provider_failures_end_the_reconciliation() {
    let machine = listing(devcontainer());
    let error = failure(machine.step(Event::ListFailed("service unavailable".to_string())));
    match &error {
        ProvisionError::UpstreamFetchFailed(text) => assert_eq!(text, "service unavailable"),
        other => panic!("expected an upstream failure, got {:?}", other),
    }
    assert_eq!(error.message(), "service unavailable");

    let machine = listing(devcontainer());
    let found = inventory(vec![record("i-1", "stopped", None, &[("devcontainer", "arm64.medium")])]);
    let (machine, _) = going_on(machine.step(Event::Listed(found)));
    let error = failure(machine.step(Event::StartFailed("not authorized".to_string())));
    assert_eq!(error.message(), "not authorized");
    assert_eq!(error.clone().message(), "not authorized");
}

#[test]
fn an_event_out_of_turn_changes_nothing() {
    let (machine, _) = going_on(Reconciler::begin(devcontainer()));
    let (machine, action) = going_on(machine.step(Event::Slept));
    assert!(matches!(action, Action::ReadClock));
    assert_eq!(machine.phase(), Phase::Clock);

    let (machine, _) = going_on(machine.step(Event::Elapsed(3)));
    let (machine, action) = going_on(machine.step(Event::Elapsed(99)));
    assert!(matches!(action, Action::ListInstances));
    assert_eq!(machine.phase(), Phase::Listing);

    let found = inventory(vec![record("i-1", "stopped", None, &[("devcontainer", "arm64.medium")])]);
    let (machine, _) = going_on(machine.step(Event::Listed(found)));
    let (machine, action) = going_on(machine.step(Event::Slept));
    match action {
        Action::StartInstances(ids) => assert_eq!(ids, vec!["i-1".to_string()]),
        other => panic!("expected the start again, got {:?}", other),
    }
    assert_eq!(machine.phase(), Phase::Starting);
    assert_eq!(machine.actions(), &vec!["Starting instance i-1".to_string()]);

    let (machine, _) = going_on(machine.step(Event::Started));
    let (machine, action) = going_on(machine.step(Event::Started));
    assert!(matches!(action, Action::Sleep(1)));
    assert_eq!(machine.phase(), Phase::Sleeping);
}

#[test]
fn the_first_running_snapshot_is_found() {
    let found = vec![
        snapshot("a", "stopped", None),
        snapshot("b", "running", None),
        snapshot("c", "running", Some("203.0.113.5")),
    ];
    assert_eq!(find_running(&found), Some(1));
    assert_eq!(find_running(&vec![snapshot("a", "pending", None)]), None);
    assert_eq!(find_running(&vec![]), None);
}

#[test]
fn the_stopped_snapshots_are_listed() {
    let found = vec![
        snapshot("a", "stopped", None),
        snapshot("b", "running", None),
        snapshot("c", "stopping", None),
        snapshot("d", "stopped", Some("203.0.113.5")),
    ];
    assert_eq!(list_stopped(&found), vec!["a".to_string(), "d".to_string()]);
    assert!(list_stopped(&vec![snapshot("b", "running", None)]).is_empty());
}

#[test]
fn starts_are_logged_in_order() {
    let mut log = vec!["earlier".to_string()];
    log_starts(&mut log, &vec!["i-1".to_string(), "".to_string()]);
    assert_eq!(
        log,
        vec![
            "earlier".to_string(),
            "Starting instance i-1".to_string(),
            "Starting instance ".to_string()
        ]
    );
    log_starts(&mut log, &vec![]);
    assert_eq!(log.len(), 3);
}

#[test]
fn the_message_shows_the_required_tags() {
    let error = ProvisionError::NoMatchingInstances(vec![tag("a", "1"), tag("say \"hi\"", "")]);
    assert_eq!(
        error.message(),
        "No instances found with tags: [Tag { key: \"a\", value: \"1\" }, Tag { key: \"say \\\"hi\\\"\", value: \"\" }] []"
    );
    let error = ProvisionError::NoMatchingInstances(vec![]);
    assert_eq!(error.message(), "No instances found with tags: [] []");
}
