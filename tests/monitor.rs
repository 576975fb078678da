use mdwatch::{
    published_state, serve_request, IngestAction, IngestInput, IngestLoop, IngestPhase,
    MonitorAction, MonitorEvent, MonitorTask, MotionEvent, MotionState, StatePublisher,
    SubscriptionRequest, RETRY_DELAY_MS,
};

fn active(since: u64, class: Option<&str>) -> MotionState {
    MotionState::Active { since, classification: class.map(|c| c.to_string()) }
}

fn request() -> (
    SubscriptionRequest,
    tokio::sync::oneshot::Receiver<tokio::sync::watch::Receiver<MotionState>>,
) {
    let (reply, rx) = tokio::sync::oneshot::channel();
    (SubscriptionRequest::Get { reply }, rx)
}

#[test]
fn start_nochange_stop_sequence() {
    let mut publisher = StatePublisher::new();
    let watcher = publisher.subscribe();
    let mut ingest = IngestLoop::new();
    assert_eq!(ingest.step(&mut publisher, IngestInput::SessionOpened), IngestAction::ReadNext);

    let start = MotionEvent::Start(10, Some("person".to_string()));
    assert_eq!(ingest.step(&mut publisher, IngestInput::Event(start)), IngestAction::ReadNext);
    assert_eq!(publisher.current(), active(10, Some("person")));
    assert!(watcher.has_changed().unwrap());

    let mut watcher = watcher;
    watcher.borrow_and_update();
    ingest.step(&mut publisher, IngestInput::Event(MotionEvent::NoChange));
    assert_eq!(publisher.current(), active(10, Some("person")));
    assert!(!watcher.has_changed().unwrap());

    ingest.step(&mut publisher, IngestInput::Event(MotionEvent::Stop(25)));
    assert_eq!(publisher.current(), MotionState::Inactive { since: 25 });
    let late = publisher.subscribe();
    assert_eq!(*late.borrow(), MotionState::Inactive { since: 25 });
    assert_eq!(*watcher.borrow(), MotionState::Inactive { since: 25 });
}

#[test]
fn subscriber_before_any_event_sees_unknown() {
    let publisher = StatePublisher::new();
    let rx = publisher.subscribe();
    assert_eq!(*rx.borrow(), MotionState::Unknown);
    assert_eq!(publisher.current(), MotionState::Unknown);
}

#[test]
fn subscriber_after_active_reads_active_at_once() {
    let mut publisher = StatePublisher::new();
    publisher.publish(active(3, None));
    let rx = publisher.subscribe();
    assert_eq!(*rx.borrow(), active(3, None));
    assert!(!rx.has_changed().unwrap());
}

#[test]
fn publish_with_zero_one_or_many_subscribers() {
    let mut publisher = StatePublisher::new();
    assert_eq!(publisher.publish(MotionState::Inactive { since: 1 }), MotionState::Unknown);
    let one = publisher.subscribe();
    assert_eq!(
        publisher.publish(active(2, Some("vehicle"))),
        MotionState::Inactive { since: 1 }
    );
    assert_eq!(*one.borrow(), active(2, Some("vehicle")));
    let many: Vec<_> = (0..50).map(|_| publisher.subscribe()).collect();
    publisher.publish(MotionState::Inactive { since: 9 });
    for rx in many.iter().chain(std::iter::once(&one)) {
        assert_eq!(*rx.borrow(), MotionState::Inactive { since: 9 });
    }
    drop(many);
    drop(one);
    publisher.publish(MotionState::Inactive { since: 11 });
    assert_eq!(publisher.current(), MotionState::Inactive { since: 11 });
}

#[test]
fn slow_reader_sees_only_latest() {
    let mut publisher = StatePublisher::new();
    let rx = publisher.subscribe();
    publisher.publish(active(1, None));
    publisher.publish(MotionState::Inactive { since: 2 });
    publisher.publish(active(3, Some("person")));
    assert_eq!(*rx.borrow(), active(3, Some("person")));
}

#[test]
fn event_mapping() {
    assert_eq!(
        published_state(MotionEvent::Start(5, Some("person".to_string()))),
        Some(active(5, Some("person")))
    );
    assert_eq!(published_state(MotionEvent::Start(6, None)), Some(active(6, None)));
    assert_eq!(
        published_state(MotionEvent::Stop(7)),
        Some(MotionState::Inactive { since: 7 })
    );
    assert_eq!(published_state(MotionEvent::NoChange), None);
}

#[test]
fn state_tracks_each_event_of_a_sequence() {
    let events = vec![
        MotionEvent::NoChange,
        MotionEvent::Start(1, None),
        MotionEvent::NoChange,
        MotionEvent::Stop(4),
        MotionEvent::Start(8, Some("animal".to_string())),
        MotionEvent::Stop(9),
    ];
    let expected = vec![
        MotionState::Unknown,
        active(1, None),
        active(1, None),
        MotionState::Inactive { since: 4 },
        active(8, Some("animal")),
        MotionState::Inactive { since: 9 },
    ];
    let mut publisher = StatePublisher::new();
    let mut ingest = IngestLoop::new();
    ingest.step(&mut publisher, IngestInput::SessionOpened);
    for (ev, want) in events.into_iter().zip(expected) {
        ingest.step(&mut publisher, IngestInput::Event(ev));
        assert_eq!(publisher.current(), want);
    }
}

#[test]
fn session_open_failure_retries_then_publishes() {
    let mut publisher = StatePublisher::new();
    let mut ingest = IngestLoop::new();
    assert_eq!(ingest.action(), IngestAction::OpenSession);
    assert_eq!(
        ingest.step(&mut publisher, IngestInput::SessionFailed),
        IngestAction::Wait(RETRY_DELAY_MS)
    );
    assert_eq!(RETRY_DELAY_MS, 1000);
    assert_eq!(ingest.phase, IngestPhase::BackingOff);
    assert_eq!(ingest.step(&mut publisher, IngestInput::BackoffElapsed), IngestAction::OpenSession);
    assert_eq!(ingest.step(&mut publisher, IngestInput::SessionFailed), IngestAction::Wait(1000));
    assert_eq!(ingest.step(&mut publisher, IngestInput::BackoffElapsed), IngestAction::OpenSession);
    assert_eq!(publisher.current(), MotionState::Unknown);
    assert_eq!(ingest.step(&mut publisher, IngestInput::SessionOpened), IngestAction::ReadNext);
    ingest.step(&mut publisher, IngestInput::Event(MotionEvent::Start(40, None)));
    assert_eq!(publisher.current(), active(40, None));
}

#[test]
fn read_failure_abandons_session_and_keeps_state() {
    let mut publisher = StatePublisher::new();
    let mut ingest = IngestLoop::new();
    ingest.step(&mut publisher, IngestInput::SessionOpened);
    ingest.step(&mut publisher, IngestInput::Event(MotionEvent::Start(1, None)));
    assert_eq!(ingest.step(&mut publisher, IngestInput::ReadFailed), IngestAction::Wait(1000));
    assert_eq!(publisher.current(), active(1, None));
    // An event that arrives with no open session is not applied.
    ingest.step(&mut publisher, IngestInput::Event(MotionEvent::Stop(2)));
    assert_eq!(publisher.current(), active(1, None));
    ingest.step(&mut publisher, IngestInput::BackoffElapsed);
    ingest.step(&mut publisher, IngestInput::SessionOpened);
    ingest.step(&mut publisher, IngestInput::Event(MotionEvent::Stop(3)));
    assert_eq!(publisher.current(), MotionState::Inactive { since: 3 });
}

#[test]
fn serve_request_delivers_a_live_handle() {
    let mut publisher = StatePublisher::new();
    let (req, mut rx) = request();
    assert!(serve_request(&publisher, req));
    let handle = rx.try_recv().unwrap();
    assert_eq!(*handle.borrow(), MotionState::Unknown);
    publisher.publish(MotionState::Inactive { since: 5 });
    assert_eq!(*handle.borrow(), MotionState::Inactive { since: 5 });
}

#[test]
fn serve_request_to_abandoned_requester_is_not_an_error() {
    let publisher = StatePublisher::new();
    let (req, rx) = request();
    drop(rx);
    assert!(!serve_request(&publisher, req));
    assert_eq!(publisher.current(), MotionState::Unknown);
}

#[test]
fn monitor_starts_unknown_and_opens_a_session() {
    let task = MonitorTask::new();
    assert!(!task.finished());
    assert_eq!(task.publisher().current(), MotionState::Unknown);
    assert_eq!(task.start(), MonitorAction::Ingest(IngestAction::OpenSession));
    assert!(!task.cancel_token().is_cancelled());
}

#[test]
fn monitor_serves_requests_and_ingests() {
    let mut task = MonitorTask::new();
    let (req, mut rx) = request();
    assert_eq!(task.step(MonitorEvent::Request(req)), MonitorAction::Continue);
    let handle = rx.try_recv().unwrap();
    assert_eq!(
        task.step(MonitorEvent::Ingest(IngestInput::SessionOpened)),
        MonitorAction::Ingest(IngestAction::ReadNext)
    );
    task.step(MonitorEvent::Ingest(IngestInput::Event(MotionEvent::Start(7, None))));
    assert_eq!(*handle.borrow(), active(7, None));
    assert_eq!(
        task.step(MonitorEvent::Ingest(IngestInput::ReadFailed)),
        MonitorAction::Ingest(IngestAction::Wait(1000))
    );
}

#[test]
fn closed_request_queue_finishes_the_task() {
    let mut task = MonitorTask::new();
    assert_eq!(task.step(MonitorEvent::RequestsClosed), MonitorAction::Finish);
    assert!(task.finished());
    assert_eq!(
        task.step(MonitorEvent::Ingest(IngestInput::SessionOpened)),
        MonitorAction::Finish
    );
    assert_eq!(task.start(), MonitorAction::Finish);
}

#[test]
fn cancel_with_request_in_flight() {
    let mut task = MonitorTask::new();
    let (served, mut served_rx) = request();
    let (in_flight, mut in_flight_rx) = request();
    task.step(MonitorEvent::Request(served));
    task.cancel();
    assert!(task.cancel_token().is_cancelled());
    assert!(task.finished());
    assert_eq!(task.step(MonitorEvent::Request(in_flight)), MonitorAction::Finish);
    assert!(served_rx.try_recv().is_ok());
    assert!(in_flight_rx.try_recv().is_err());
    assert_eq!(task.step(MonitorEvent::Cancelled), MonitorAction::Finish);
    assert_eq!(task.publisher().current(), MotionState::Unknown);
}

#[test]
fn cancelled_event_keeps_last_state() {
    let mut task = MonitorTask::new();
    task.step(MonitorEvent::Ingest(IngestInput::SessionOpened));
    task.step(MonitorEvent::Ingest(IngestInput::Event(MotionEvent::Stop(12))));
    assert_eq!(task.step(MonitorEvent::Cancelled), MonitorAction::Finish);
    task.step(MonitorEvent::Ingest(IngestInput::Event(MotionEvent::Start(13, None))));
    assert_eq!(task.publisher().current(), MotionState::Inactive { since: 12 });
}

#[test]
fn read_through_handle_sees_latest_publication() {
    let mut publisher = StatePublisher::new();
    let rx = publisher.subscribe();
    assert_eq!(publisher.read(&rx), MotionState::Unknown);
    publisher.publish(active(4, Some("person")));
    publisher.publish(MotionState::Inactive { since: 6 });
    assert_eq!(publisher.read(&rx), MotionState::Inactive { since: 6 });
    let late = publisher.subscribe();
    assert_eq!(publisher.read(&late), MotionState::Inactive { since: 6 });
}

#[test]
fn requests_are_served_in_order_with_live_handles() {
    let mut task = MonitorTask::new();
    let (first, mut first_rx) = request();
    let (dropped, dropped_rx) = request();
    let (third, mut third_rx) = request();
    drop(dropped_rx);
    task.step(MonitorEvent::Request(first));
    task.step(MonitorEvent::Ingest(IngestInput::SessionOpened));
    task.step(MonitorEvent::Ingest(IngestInput::Event(MotionEvent::Start(
        1,
        Some("person".to_string()),
    ))));
    assert_eq!(task.step(MonitorEvent::Request(dropped)), MonitorAction::Continue);
    task.step(MonitorEvent::Ingest(IngestInput::Event(MotionEvent::NoChange)));
    task.step(MonitorEvent::Ingest(IngestInput::Event(MotionEvent::Stop(2))));
    task.step(MonitorEvent::Request(third));
    let first_handle = first_rx.try_recv().unwrap();
    let third_handle = third_rx.try_recv().unwrap();
    assert_eq!(task.publisher().read(&first_handle), MotionState::Inactive { since: 2 });
    assert_eq!(task.publisher().read(&third_handle), MotionState::Inactive { since: 2 });
    assert!(!third_handle.has_changed().unwrap());
}
