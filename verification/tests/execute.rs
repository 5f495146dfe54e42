use actor_msgs::Execute;
use std::sync::atomic::{AtomicUsize, Ordering};
use std::sync::Arc;

#[test]
fn exec_returns_ok_unchanged() {
    let m: Execute<u32, String> = Execute::new(|| Ok(42));
    assert_eq!(m.exec(), Ok(42));
}

#[test]
fn exec_returns_err_unchanged() {
    let m: Execute<u32, String> = Execute::new(|| Err(String::from("no route")));
    assert_eq!(m.exec(), Err(String::from("no route")));
}

#[test]
fn exec_returns_what_the_captured_state_decides() {
    for limit in [0u32, 5, 10] {
        let m: Execute<u32, u32> = Execute::new(move || if limit < 10 { Ok(limit + 1) } else { Err(limit) });
        let expected = if limit < 10 { Ok(limit + 1) } else { Err(limit) };
        assert_eq!(m.exec(), expected);
    }
}

#[test]
fn exec_hands_back_an_owned_value_untouched() {
    let payload = vec![String::from("a"), String::from("b")];
    let again = payload.clone();
    let m: Execute<Vec<String>, ()> = Execute::new(move || Ok(payload));
    assert_eq!(m.exec(), Ok(again));
}

#[test]
fn default_result_types_are_unit() {
    let m: Execute = Execute::new(|| Ok(()));
    assert_eq!(m.exec(), Ok(()));
}

#[test]
fn new_does_not_run_the_computation() {
    let runs = Arc::new(AtomicUsize::new(0));
    let seen = runs.clone();
    let m: Execute<(), ()> = Execute::new(move || {
        seen.fetch_add(1, Ordering::SeqCst);
        Ok(())
    });
    assert_eq!(runs.load(Ordering::SeqCst), 0);
    assert_eq!(m.exec(), Ok(()));
    assert_eq!(runs.load(Ordering::SeqCst), 1);
}

#[test]
fn dropping_an_unconsumed_wrapper_runs_nothing() {
    let runs = Arc::new(AtomicUsize::new(0));
    let seen = runs.clone();
    let m: Execute<(), ()> = Execute::new(move || {
        seen.fetch_add(1, Ordering::SeqCst);
        Ok(())
    });
    drop(m);
    assert_eq!(runs.load(Ordering::SeqCst), 0);
    assert_eq!(Arc::strong_count(&runs), 1);
}
