use netwatch::alias::resolve;
use netwatch::endpoint::build_endpoint;
use netwatch::events::{event_start_target, EventKind, RuntimeEvent};
use netwatch::labels::{lookup, Label};
use netwatch::machine::{main_loop_step, LoopAction, LoopInput, LoopState, StreamItem};
use netwatch::model::{
    connect_container_to_network, connect_existing_containers, ensure_network,
    ensure_outcome_after_create, has_name, AttachError, ContainerState, EnsureOutcome,
    RuntimeState,
};
use netwatch::names::network_name;
use netwatch::orchestrator::{handle_loop_input, run_loop, startup};

fn label(key: &str, value: &str) -> Label {
    Label { key: key.to_string(), value: value.to_string() }
}

fn compose_labels(project: &str, service: &str) -> Vec<Label> {
    vec![
        label("com.docker.compose.project", project),
        label("com.docker.compose.service", service),
    ]
}

fn container(id: &str, labels: Vec<Label>, networks: Vec<&str>) -> ContainerState {
    ContainerState {
        id: id.to_string(),
        labels,
        networks: networks.into_iter().map(|n| n.to_string()).collect(),
    }
}

fn start_event(id: &str) -> RuntimeEvent {
    RuntimeEvent {
        kind: EventKind::Container,
        action: "start".to_string(),
        actor_id: Some(id.to_string()),
    }
}

#[test]
fn network_name_is_fixed() {
    assert_eq!(network_name(), "apps-internal");
}

#[test]
fn lookup_finds_value_under_key() {
    let labels = compose_labels("shop", "web");
    let got = lookup(&labels, &"com.docker.compose.project".to_string());
    assert_eq!(got, Some("shop".to_string()));
}

#[test]
fn lookup_misses_absent_key() {
    let labels = compose_labels("shop", "web");
    assert_eq!(lookup(&labels, &"com.docker.compose.oneoff".to_string()), None);
}

#[test]
fn alias_derived_from_both_labels() {
    let labels = compose_labels("shop", "web");
    assert_eq!(resolve(&labels), Some("web.shop.svc.cluster.local".to_string()));
}

#[test]
fn alias_missing_project_label() {
    let labels = vec![label("com.docker.compose.service", "web")];
    assert_eq!(resolve(&labels), None);
}

#[test]
fn alias_missing_service_label() {
    let labels = vec![label("com.docker.compose.project", "shop")];
    assert_eq!(resolve(&labels), None);
}

#[test]
fn alias_missing_both_labels() {
    assert_eq!(resolve(&Vec::new()), None);
}

#[test]
fn endpoint_carries_single_alias() {
    let labels = compose_labels("shop", "web");
    let endpoint = build_endpoint(&labels);
    assert_eq!(endpoint.aliases, Some(vec!["web.shop.svc.cluster.local".to_string()]));
}

#[test]
fn endpoint_without_labels_has_no_aliases() {
    let endpoint = build_endpoint(&Vec::new());
    assert_eq!(endpoint.aliases, None);
}

#[test]
fn ensure_creates_absent_network() {
    let mut state = RuntimeState { network_exists: false, containers: Vec::new() };
    let report = ensure_network(&mut state);
    assert_eq!(report.outcome, EnsureOutcome::Created);
    assert_eq!(report.create_calls, 1);
    assert!(state.network_exists);
}

#[test]
fn ensure_skips_existing_network() {
    let mut state = RuntimeState { network_exists: true, containers: Vec::new() };
    let report = ensure_network(&mut state);
    assert_eq!(report.outcome, EnsureOutcome::AlreadyExists);
    assert_eq!(report.create_calls, 0);
    assert!(state.network_exists);
}

#[test]
fn ensure_twice_creates_exactly_once() {
    let mut state = RuntimeState { network_exists: false, containers: Vec::new() };
    let first = ensure_network(&mut state);
    let second = ensure_network(&mut state);
    assert_eq!(first.outcome, EnsureOutcome::Created);
    assert_eq!(second.outcome, EnsureOutcome::AlreadyExists);
    assert_eq!(first.create_calls + second.create_calls, 1);
}

#[test]
fn failed_create_is_reported_not_fatal() {
    assert_eq!(ensure_outcome_after_create(false), EnsureOutcome::CreateFailed);
    assert_eq!(ensure_outcome_after_create(true), EnsureOutcome::Created);
}

#[test]
fn attach_connects_with_alias() {
    let mut state = RuntimeState {
        network_exists: true,
        containers: vec![container("c1", compose_labels("shop", "web"), vec!["bridge"])],
    };
    let report = connect_container_to_network(&mut state, &"c1".to_string()).unwrap();
    assert_eq!(report.endpoint.aliases, Some(vec!["web.shop.svc.cluster.local".to_string()]));
    assert!(has_name(&state.containers[0].networks, &"apps-internal".to_string()));
    assert!(has_name(&state.containers[0].networks, &"bridge".to_string()));
}

#[test]
fn attach_connects_without_alias_when_labels_missing() {
    let mut state = RuntimeState {
        network_exists: true,
        containers: vec![container("c1", Vec::new(), vec![])],
    };
    let report = connect_container_to_network(&mut state, &"c1".to_string()).unwrap();
    assert_eq!(report.endpoint.aliases, None);
    assert!(has_name(&state.containers[0].networks, &"apps-internal".to_string()));
}

#[test]
fn attach_unknown_container_is_hard_error() {
    let mut state = RuntimeState { network_exists: true, containers: Vec::new() };
    let got = connect_container_to_network(&mut state, &"ghost".to_string());
    assert!(matches!(got, Err(AttachError::NotFound)));
}

#[test]
fn duplicate_attach_is_rejected_not_fatal() {
    let mut state = RuntimeState {
        network_exists: true,
        containers: vec![container("c1", Vec::new(), vec![])],
    };
    assert!(connect_container_to_network(&mut state, &"c1".to_string()).is_ok());
    let second = connect_container_to_network(&mut state, &"c1".to_string());
    assert!(matches!(second, Err(AttachError::AlreadyConnected)));
    // the loop would go on: the state is intact and further calls still work
    assert_eq!(state.containers.len(), 1);
    assert!(has_name(&state.containers[0].networks, &"apps-internal".to_string()));
}

#[test]
fn sweep_attaches_exactly_the_non_members() {
    let mut state = RuntimeState {
        network_exists: true,
        containers: vec![
            container("c1", Vec::new(), vec!["bridge"]),
            container("c2", Vec::new(), vec!["apps-internal"]),
            container("c3", compose_labels("shop", "web"), vec![]),
        ],
    };
    let report = connect_existing_containers(&mut state);
    assert_eq!(report.attached, vec!["c1".to_string(), "c3".to_string()]);
    for c in &state.containers {
        assert!(has_name(&c.networks, &"apps-internal".to_string()));
    }
    // the member kept its networks exactly as they were
    assert_eq!(state.containers[1].networks, vec!["apps-internal".to_string()]);
}

#[test]
fn sweep_of_empty_inventory_attaches_nothing() {
    let mut state = RuntimeState { network_exists: true, containers: Vec::new() };
    let report = connect_existing_containers(&mut state);
    assert!(report.attached.is_empty());
}

#[test]
fn event_start_with_id_yields_target() {
    assert_eq!(event_start_target(&start_event("c9")), Some("c9".to_string()));
}

#[test]
fn event_without_actor_is_ignored() {
    let ev = RuntimeEvent {
        kind: EventKind::Container,
        action: "start".to_string(),
        actor_id: None,
    };
    assert_eq!(event_start_target(&ev), None);
}

#[test]
fn event_filtering_matches_only_container_start() {
    let items = vec![
        StreamItem::Event(start_event("c1")),
        StreamItem::Event(RuntimeEvent {
            kind: EventKind::Container,
            action: "stop".to_string(),
            actor_id: Some("c2".to_string()),
        }),
        StreamItem::Event(RuntimeEvent {
            kind: EventKind::Image,
            action: "start".to_string(),
            actor_id: Some("img".to_string()),
        }),
    ];
    let mut attaches = Vec::new();
    for item in items {
        let (state, action) = main_loop_step(LoopInput::Stream(item));
        assert_eq!(state, LoopState::Listening);
        if let LoopAction::Attach(id) = action {
            attaches.push(id);
        }
    }
    assert_eq!(attaches, vec!["c1".to_string()]);
}

#[test]
fn terminate_signal_closes_loop() {
    let (state, action) = main_loop_step(LoopInput::Terminate);
    assert_eq!(state, LoopState::Closed);
    assert!(matches!(action, LoopAction::ExitTerminate));
}

#[test]
fn interrupt_signal_closes_loop() {
    let (state, action) = main_loop_step(LoopInput::Interrupt);
    assert_eq!(state, LoopState::Closed);
    assert!(matches!(action, LoopAction::ExitInterrupt));
}

#[test]
fn stream_closure_closes_loop() {
    let (state, action) = main_loop_step(LoopInput::Stream(StreamItem::Closed));
    assert_eq!(state, LoopState::Closed);
    assert!(matches!(action, LoopAction::ExitStreamClosed));
}

#[test]
fn stream_error_keeps_listening() {
    let (state, action) = main_loop_step(LoopInput::Stream(StreamItem::Error));
    assert_eq!(state, LoopState::Listening);
    assert!(matches!(action, LoopAction::ReportStreamError));
}

#[test]
fn startup_ensures_network_and_sweeps() {
    let mut state = RuntimeState {
        network_exists: false,
        containers: vec![
            container("c1", Vec::new(), vec![]),
            container("c2", Vec::new(), vec!["apps-internal"]),
        ],
    };
    let (ensure, sweep) = startup(&mut state);
    assert_eq!(ensure.outcome, EnsureOutcome::Created);
    assert_eq!(sweep.attached, vec!["c1".to_string()]);
    assert!(state.network_exists);
    for c in &state.containers {
        assert!(has_name(&c.networks, &"apps-internal".to_string()));
    }
}

#[test]
fn dispatch_attaches_on_container_start() {
    let mut state = RuntimeState {
        network_exists: true,
        containers: vec![container("c1", compose_labels("shop", "web"), vec![])],
    };
    let outcome = handle_loop_input(&mut state, LoopInput::Stream(StreamItem::Event(
        start_event("c1"),
    )));
    assert_eq!(outcome.state, LoopState::Listening);
    let report = outcome.attach.expect("a container start asks for an attach").unwrap();
    assert_eq!(report.endpoint.aliases, Some(vec!["web.shop.svc.cluster.local".to_string()]));
    assert!(has_name(&state.containers[0].networks, &"apps-internal".to_string()));
}

#[test]
fn dispatch_ignores_foreign_events_and_signals() {
    let mut state = RuntimeState { network_exists: true, containers: Vec::new() };
    let stop = handle_loop_input(&mut state, LoopInput::Stream(StreamItem::Event(
        RuntimeEvent {
            kind: EventKind::Container,
            action: "stop".to_string(),
            actor_id: Some("c1".to_string()),
        },
    )));
    assert_eq!(stop.state, LoopState::Listening);
    assert!(stop.attach.is_none());
    let term = handle_loop_input(&mut state, LoopInput::Terminate);
    assert_eq!(term.state, LoopState::Closed);
    assert!(term.attach.is_none());
}

#[test]
fn loop_stops_at_termination_signal_without_reading_further() {
    let mut state = RuntimeState {
        network_exists: true,
        containers: vec![container("c1", Vec::new(), vec![])],
    };
    let inputs = vec![
        LoopInput::Stream(StreamItem::Error),
        LoopInput::Terminate,
        LoopInput::Stream(StreamItem::Event(start_event("c1"))),
    ];
    let report = run_loop(&mut state, inputs);
    assert_eq!(report.state, LoopState::Closed);
    // the event queued behind the signal is never read
    assert_eq!(report.processed, 2);
    assert_eq!(report.attach_calls, 0);
    assert!(!has_name(&state.containers[0].networks, &"apps-internal".to_string()));
}

#[test]
fn loop_issues_one_attach_for_mixed_event_stream() {
    let mut state = RuntimeState {
        network_exists: true,
        containers: vec![container("c1", Vec::new(), vec![])],
    };
    let inputs = vec![
        LoopInput::Stream(StreamItem::Event(start_event("c1"))),
        LoopInput::Stream(StreamItem::Event(RuntimeEvent {
            kind: EventKind::Container,
            action: "stop".to_string(),
            actor_id: Some("c1".to_string()),
        })),
        LoopInput::Stream(StreamItem::Event(RuntimeEvent {
            kind: EventKind::Image,
            action: "start".to_string(),
            actor_id: Some("img".to_string()),
        })),
    ];
    let report = run_loop(&mut state, inputs);
    assert_eq!(report.state, LoopState::Listening);
    assert_eq!(report.processed, 3);
    assert_eq!(report.attach_calls, 1);
    assert!(has_name(&state.containers[0].networks, &"apps-internal".to_string()));
}

#[test]
fn loop_closes_when_stream_ends() {
    let mut state = RuntimeState { network_exists: true, containers: Vec::new() };
    let inputs = vec![
        LoopInput::Stream(StreamItem::Error),
        LoopInput::Stream(StreamItem::Closed),
    ];
    let report = run_loop(&mut state, inputs);
    assert_eq!(report.state, LoopState::Closed);
    assert_eq!(report.processed, 2);
    assert_eq!(report.attach_calls, 0);
}
