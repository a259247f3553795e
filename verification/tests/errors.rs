use hyperqueue::stream::error::StreamError;
use hyperqueue::text::push_decimal;

#[test]
fn decimal_digits() {
    for (n, text) in [
        (0u64, "0"),
        (7, "7"),
        (10, "10"),
        (99, "99"),
        (100, "100"),
        (1234567890, "1234567890"),
        (u64::MAX, "18446744073709551615"),
    ] {
        let mut out = String::from("n=");
        push_decimal(&mut out, n);
        assert_eq!(out, format!("n={}", text));
    }
}

#[test]
fn error_messages() {
    assert_eq!(
        StreamError::AlreadyRegistered(12).message(),
        "Job 12 is already registered for streaming"
    );
    assert_eq!(
        StreamError::NotRegistered(5).message(),
        "Job 5 is not registered for streaming"
    );
    assert_eq!(StreamError::JobStreamErrored(0).message(), "Stream of job 0 has failed");
    assert_eq!(
        StreamError::DataAfterEnd { job: 3, task: 40 }.message(),
        "Task 40 of job 3 sent data after the end of its stream"
    );
    assert_eq!(
        StreamError::PayloadTooLarge { job: 4294967295, task: 1 }.message(),
        "Task 1 of job 4294967295 sent more data than a record can hold"
    );
    assert_eq!(StreamError::WriterClosed(8).message(), "Stream of job 8 is closed");
    assert_eq!(StreamError::WriterLimit.message(), "No writer can be started");
}

#[test]
fn protocol_violations() {
    assert!(StreamError::DataAfterEnd { job: 1, task: 1 }.is_protocol_violation());
    assert!(StreamError::PayloadTooLarge { job: 1, task: 1 }.is_protocol_violation());
    assert!(!StreamError::NotRegistered(1).is_protocol_violation());
    assert!(!StreamError::AlreadyRegistered(1).is_protocol_violation());
    assert!(!StreamError::JobStreamErrored(1).is_protocol_violation());
    assert!(!StreamError::WriterClosed(1).is_protocol_violation());
    assert!(!StreamError::WriterLimit.is_protocol_violation());
}
