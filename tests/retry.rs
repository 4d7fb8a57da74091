use announce_bot::retry::{PostError, Publisher, RetryPolicy, RetryStep, SendOutcome};
use announce_bot::throttle::RateWindow;

#[test]
fn client_error_ends_after_one_attempt() {
    let p = RetryPolicy::new(Some(2), 3);
    let outcome = SendOutcome::from_failure(Some(401));
    assert_eq!(outcome, SendOutcome::Rejected(401));
    assert_eq!(p.after_attempt(1, outcome), RetryStep::GiveUp(PostError::Rejected(401)));
}

#[test]
fn transient_errors_retry_with_growing_delays() {
    let p = RetryPolicy::new(Some(2), 3);
    assert_eq!(p.max_attempts, 3);
    let mut attempt = 1;
    let mut delays = Vec::new();
    let mut sends = 0;
    loop {
        sends += 1;
        match p.after_attempt(attempt, SendOutcome::from_failure(Some(503))) {
            RetryStep::RetryAfter { delay_secs, next_attempt } => {
                delays.push(delay_secs);
                attempt = next_attempt;
            }
            RetryStep::GiveUp(e) => {
                assert_eq!(e, PostError::ExhaustedRetries(3));
                break;
            }
            RetryStep::Done(_) => panic!("nothing was posted"),
        }
    }
    assert_eq!(sends, 3);
    assert_eq!(delays, vec![3, 6]);
}

#[test]
fn failure_without_status_is_transient() {
    assert_eq!(SendOutcome::from_failure(None), SendOutcome::Transient);
    assert_eq!(SendOutcome::from_failure(Some(500)), SendOutcome::Transient);
    assert_eq!(SendOutcome::from_failure(Some(399)), SendOutcome::Transient);
    assert_eq!(SendOutcome::from_failure(Some(499)), SendOutcome::Rejected(499));
}

#[test]
fn posted_is_done() {
    let p = RetryPolicy::new(None, 3);
    assert_eq!(p.max_attempts, 1);
    assert_eq!(p.after_attempt(1, SendOutcome::Posted("42".to_string())), RetryStep::Done("42".to_string()));
    assert_eq!(p.after_attempt(1, SendOutcome::Transient), RetryStep::GiveUp(PostError::ExhaustedRetries(1)));
}

#[test]
fn retry_count_saturates() {
    assert_eq!(RetryPolicy::new(Some(u64::MAX), 1).max_attempts, u64::MAX);
}

#[test]
fn publisher_counts_only_posts_that_went_out() {
    let mut publisher = Publisher::new(RateWindow::new(1, 60, 0), RetryPolicy::new(Some(1), 2));
    assert_eq!(publisher.before_send(5), 0);
    assert_eq!(publisher.window.count, 1);
    let step = publisher.after_send(1, SendOutcome::Transient);
    assert_eq!(step, RetryStep::RetryAfter { delay_secs: 2, next_attempt: 2 });
    assert_eq!(publisher.window.count, 0);
    assert_eq!(publisher.before_send(7), 0);
    let step = publisher.after_send(2, SendOutcome::Posted("7".to_string()));
    assert_eq!(step, RetryStep::Done("7".to_string()));
    assert_eq!(publisher.window.count, 1);
    assert_eq!(publisher.before_send(10), 50);
}
