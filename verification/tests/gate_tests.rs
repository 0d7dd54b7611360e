use portscan::gate::AdmissionGate;

#[test]
fn gate_admits_up_to_its_budget_and_no_further() {
    let mut gate = AdmissionGate::new(2);
    assert!(gate.try_acquire());
    assert!(gate.try_acquire());
    assert!(!gate.try_acquire());
    assert!(gate.in_flight <= gate.budget);
    gate.release();
    assert!(gate.try_acquire());
    assert!(!gate.try_acquire());
    assert!(gate.in_flight <= gate.budget);
}

#[test]
fn gate_never_exceeds_budget_under_a_long_mixed_history() {
    let mut gate = AdmissionGate::new(3);
    let mut granted: usize = 0;
    for round in 0..1000usize {
        if round % 3 == 0 && gate.in_flight > 0 {
            gate.release();
            granted -= 1;
        } else {
            if gate.try_acquire() {
                granted += 1;
            }
        }
        assert!(gate.in_flight <= gate.budget);
        assert_eq!(gate.in_flight, granted);
    }
}

#[test]
fn zero_budget_gate_admits_nothing() {
    let mut gate = AdmissionGate::new(0);
    assert!(!gate.try_acquire());
    assert_eq!(gate.in_flight, 0);
}
