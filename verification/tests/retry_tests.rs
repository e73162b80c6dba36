use yuanshen_workarounds_bot::retry::run_with_retries;
use yuanshen_workarounds_bot::retry::Attempt;
use yuanshen_workarounds_bot::retry::ATTEMPT_CAP;

#[test]
fn first_attempt_success_uses_one_attempt() {
    let outcomes = vec![Attempt::Success];
    assert_eq!(run_with_retries(&outcomes), Some(1));
}

#[test]
fn four_transient_failures_then_success_succeeds() {
    let outcomes = vec![
        Attempt::Transient,
        Attempt::Transient,
        Attempt::Transient,
        Attempt::Transient,
        Attempt::Success,
    ];
    assert_eq!(run_with_retries(&outcomes), Some(5));
}

#[test]
fn six_transient_failures_exhaust_the_retries() {
    let outcomes = vec![Attempt::Transient; 6];
    assert_eq!(run_with_retries(&outcomes), None);
}

#[test]
fn success_past_the_cap_is_never_reached() {
    // The fifth attempt is the last one: a success that would only come on
    // the sixth attempt does not save the call.
    let mut outcomes = vec![Attempt::Transient; ATTEMPT_CAP];
    outcomes.push(Attempt::Success);
    assert_eq!(run_with_retries(&outcomes), None);
}

#[test]
fn success_on_the_last_attempt_within_cap_counts() {
    let mut outcomes = vec![Attempt::Transient; ATTEMPT_CAP - 1];
    outcomes.push(Attempt::Success);
    assert_eq!(run_with_retries(&outcomes), Some(ATTEMPT_CAP));
}
