use actor_msgs::{Execute, StopArbiter, SystemExit};

#[test]
fn system_exit_carries_its_code() {
    for code in [0, 1, -1, 137] {
        let signal = SystemExit(code);
        assert_eq!(signal.0, code);
    }
}

#[test]
fn stop_arbiter_carries_its_code() {
    for code in [0, 1, -1, 137, i32::MIN, i32::MAX] {
        let signal = StopArbiter(code);
        assert_eq!(signal.0, code);
    }
}

#[test]
fn stopping_one_context_leaves_queued_work_of_another_alone() {
    let for_a = StopArbiter(0);
    let for_b: Execute<i32, ()> = Execute::new(|| Ok(42));
    let StopArbiter(code) = for_a;
    assert_eq!(code, 0);
    assert_eq!(for_b.exec(), Ok(42));
}
