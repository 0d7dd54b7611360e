use portscan::scanner::{
    connect_step, gather_results, generate_tasks, read_step, settle_task, ConnectPlan,
    DetectionOutcome, ReadEvent, ReadPlan, Scanner, CONNECT_RETRY_DELAY_MS, HOST_CHUNK_SIZE,
    RESPONSE_CAPACITY, SUBNET_CHUNK_SIZE,
};
use portscan::types::{Address, ConnectOutcome, ScanResult, ScanTask, Service};

#[test]
fn task_generation_covers_the_cross_product() {
    let targets = vec![Address::V4(1), Address::V4(2)];
    let tasks = generate_tasks(&targets, 10, 12);
    assert_eq!(tasks.len(), 2 * 3);
    let want = vec![
        ScanTask { addr: Address::V4(1), port: 10 },
        ScanTask { addr: Address::V4(1), port: 11 },
        ScanTask { addr: Address::V4(1), port: 12 },
        ScanTask { addr: Address::V4(2), port: 10 },
        ScanTask { addr: Address::V4(2), port: 11 },
        ScanTask { addr: Address::V4(2), port: 12 },
    ];
    assert_eq!(tasks, want);
}

#[test]
fn task_count_for_single_port() {
    let targets = vec![Address::V4(9)];
    let tasks = generate_tasks(&targets, 443, 443);
    assert_eq!(tasks.len(), 1);
    assert_eq!(tasks[0], ScanTask { addr: Address::V4(9), port: 443 });
}

#[test]
fn task_count_for_no_targets() {
    let tasks = generate_tasks(&[], 1, 65535);
    assert_eq!(tasks.len(), 0);
}

#[test]
fn chunking_policy_depends_on_target_count() {
    let one = Scanner::new(vec![Address::V4(1)], 1, 10, 1000, 1000, false);
    assert_eq!(one.chunk_size(), HOST_CHUNK_SIZE);
    let two = Scanner::new(vec![Address::V4(1), Address::V4(2)], 1, 10, 1000, 1000, false);
    assert_eq!(two.chunk_size(), SUBNET_CHUNK_SIZE);
}

#[test]
fn open_connection_proceeds() {
    assert_eq!(connect_step(&ConnectOutcome::Open, 0), ConnectPlan::Proceed);
}

#[test]
fn refusal_gives_up_without_retry() {
    assert_eq!(connect_step(&ConnectOutcome::Closed, 0), ConnectPlan::GiveUp);
    assert_eq!(
        connect_step(&ConnectOutcome::Failed(String::from("unreachable")), 0),
        ConnectPlan::GiveUp
    );
}

#[test]
fn timeout_retries_once_then_gives_up() {
    assert_eq!(
        connect_step(&ConnectOutcome::Timeout, 0),
        ConnectPlan::RetryAfter(CONNECT_RETRY_DELAY_MS)
    );
    assert_eq!(connect_step(&ConnectOutcome::Timeout, 1), ConnectPlan::GiveUp);
}

#[test]
fn reading_accumulates_until_full() {
    assert_eq!(read_step(0, &ReadEvent::Data(100)), ReadPlan::Continue(100));
    assert_eq!(read_step(100, &ReadEvent::Data(0)), ReadPlan::Stop(100));
    assert_eq!(
        read_step(RESPONSE_CAPACITY - 1, &ReadEvent::Data(1)),
        ReadPlan::Stop(RESPONSE_CAPACITY)
    );
}

#[test]
fn reading_stops_on_non_data_events() {
    assert_eq!(read_step(7, &ReadEvent::WouldBlock), ReadPlan::Stop(7));
    assert_eq!(read_step(7, &ReadEvent::Failed), ReadPlan::Stop(7));
    assert_eq!(read_step(7, &ReadEvent::DeadlineExpired), ReadPlan::Stop(7));
}

#[test]
fn closed_port_produces_no_result() {
    assert_eq!(settle_task(Address::V4(1), 80, false, true, None), None);
    assert_eq!(settle_task(Address::V4(1), 80, false, false, None), None);
}

#[test]
fn open_port_without_detection_is_bare() {
    let got = settle_task(Address::V4(1), 80, true, false, None).unwrap();
    assert_eq!(got.ip, Address::V4(1));
    assert_eq!(got.port, 80);
    assert_eq!(got.service, None);
    assert_eq!(got.raw_response, "");
}

#[test]
fn detection_outcome_is_ignored_when_detection_is_off() {
    let det = DetectionOutcome {
        service: Some(Service {
            name: String::from("SSH"),
            version: None,
            product: None,
            os_type: None,
            extra_info: None,
            cpe: None,
            vulnerabilities: vec![],
        }),
        raw_response: String::from("SSH-2.0"),
    };
    let got = settle_task(Address::V4(1), 22, true, false, Some(det)).unwrap();
    assert_eq!(got.service, None);
    assert_eq!(got.raw_response, "");
}

#[test]
fn open_port_with_detection_carries_the_outcome() {
    let det = DetectionOutcome { service: None, raw_response: String::from("220 hi\r\n") };
    let got = settle_task(Address::V4(1), 21, true, true, Some(det)).unwrap();
    assert_eq!(got.service, None);
    assert_eq!(got.raw_response, "220 hi\r\n");
}

#[test]
fn failed_detection_still_yields_a_bare_result() {
    let got = settle_task(Address::V4(1), 21, true, true, None).unwrap();
    assert_eq!(got.service, None);
    assert_eq!(got.raw_response, "");
}

#[test]
fn gathering_drops_empty_outcomes_and_keeps_order() {
    let r1 = ScanResult {
        ip: Address::V4(1),
        port: 80,
        service: None,
        raw_response: String::new(),
    };
    let r2 = ScanResult {
        ip: Address::V4(2),
        port: 22,
        service: None,
        raw_response: String::new(),
    };
    let got = gather_results(vec![Some(r1.clone()), None, Some(r2.clone()), None]);
    assert_eq!(got, vec![r1, r2]);
}
