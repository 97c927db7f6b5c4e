use netio::bytes_errors::{BytesReadError, BytesReadErrorValue, ReadFailureKind};
use netio::causes::Cause;
use std::io::{Error, ErrorKind};
use std::time::Duration;
use tokio::time::Elapsed;

fn connection_reset() -> Error {
    Error::new(ErrorKind::ConnectionReset, "connection reset")
}

fn expired_deadline() -> Elapsed {
    let mut runtime = tokio::runtime::Builder::new()
        .basic_scheduler()
        .enable_time()
        .build()
        .unwrap();
    let outcome = runtime.block_on(async {
        tokio::time::timeout(Duration::from_millis(1), std::future::pending::<()>()).await
    });
    outcome.unwrap_err()
}

#[test]
fn read_error_from_transport_fault_is_io_fault() {
    let err = BytesReadError::from(connection_reset());
    assert_eq!(err.kind(), ReadFailureKind::IOFault);
    assert_eq!(err.value.kind(), ReadFailureKind::IOFault);
    assert!(matches!(err.value, BytesReadErrorValue::IO(_)));
}

#[test]
fn read_error_gives_back_the_transport_fault() {
    let err = BytesReadError::from(connection_reset());
    match err.cause() {
        Some(Cause::Transport(fault)) => {
            assert_eq!(fault.kind(), ErrorKind::ConnectionReset);
            assert_eq!(fault.to_string(), "connection reset");
        }
        _ => panic!("the transport fault was lost"),
    }
}

#[test]
fn read_error_keeps_an_os_level_fault() {
    let err = BytesReadError::from(Error::from_raw_os_error(32));
    match err.cause() {
        Some(Cause::Transport(fault)) => assert_eq!(fault.raw_os_error(), Some(32)),
        _ => panic!("the transport fault was lost"),
    }
}

#[test]
fn read_error_from_deadline_expiry_is_timed_out() {
    let err = BytesReadError::from(expired_deadline());
    assert_eq!(err.kind(), ReadFailureKind::TimedOut);
    assert!(matches!(err.value, BytesReadErrorValue::TimeoutError(_)));
}

#[test]
fn read_error_gives_back_the_deadline_expiry() {
    let err = BytesReadError::from(expired_deadline());
    match err.cause() {
        Some(Cause::Deadline(expiry)) => assert_eq!(*expiry, expired_deadline()),
        _ => panic!("the deadline expiry was lost"),
    }
}

#[test]
fn read_error_from_value_holds_that_value() {
    let err = BytesReadError::from(BytesReadErrorValue::NotEnoughBytes);
    assert!(matches!(err.value, BytesReadErrorValue::NotEnoughBytes));
    assert_eq!(err.kind(), ReadFailureKind::NotEnoughBytes);

    let err = BytesReadError::from(BytesReadErrorValue::IO(connection_reset()));
    assert_eq!(err.kind(), ReadFailureKind::IOFault);
    assert_eq!(err.to_string(), "io error: connection reset");
}

#[test]
fn not_enough_bytes_has_no_cause() {
    let err = BytesReadError::from(BytesReadErrorValue::NotEnoughBytes);
    assert!(err.cause().is_none());
    assert!(err.value.cause().is_none());
}

#[test]
fn empty_stream_has_no_cause() {
    let err = BytesReadError::from(BytesReadErrorValue::EmptyStream);
    assert_eq!(err.kind(), ReadFailureKind::EmptyStream);
    assert!(err.cause().is_none());
    assert!(err.value.cause().is_none());
}

#[test]
fn read_cause_chain_ends_after_one_step() {
    let err = BytesReadError::from(connection_reset());
    let first = err.cause().unwrap();
    assert!(first.cause().is_none());

    let err = BytesReadError::from(expired_deadline());
    let first = err.cause().unwrap();
    assert!(first.cause().is_none());
}

#[test]
fn read_io_fault_summary_has_marker_and_cause_text() {
    let err = BytesReadError::from(connection_reset());
    let text = err.to_string();
    assert!(text.contains("io error"));
    assert!(text.contains("connection reset"));
    assert_eq!(text, "io error: connection reset");
    assert_eq!(err.value.to_string(), "io error: connection reset");
}

#[test]
fn read_empty_stream_summary_is_the_marker_alone() {
    let err = BytesReadError::from(BytesReadErrorValue::EmptyStream);
    assert_eq!(err.to_string(), "empty stream");
    assert_eq!(err.value.to_string(), "empty stream");
}

#[test]
fn read_not_enough_bytes_summary_is_the_marker_alone() {
    let err = BytesReadError::from(BytesReadErrorValue::NotEnoughBytes);
    assert_eq!(err.to_string(), "not enough bytes");
}

#[test]
fn read_timeout_summary_has_the_deadline_text() {
    let err = BytesReadError::from(expired_deadline());
    assert_eq!(err.to_string(), "elapsed: deadline has elapsed");
}

#[test]
fn read_markers_are_the_four_expected() {
    assert_eq!(ReadFailureKind::NotEnoughBytes.marker(), "not enough bytes");
    assert_eq!(ReadFailureKind::EmptyStream.marker(), "empty stream");
    assert_eq!(ReadFailureKind::IOFault.marker(), "io error");
    assert_eq!(ReadFailureKind::TimedOut.marker(), "elapsed");
}

#[test]
fn read_summaries_are_nonempty_stable_and_distinct() {
    let errors = vec![
        BytesReadError::from(BytesReadErrorValue::NotEnoughBytes),
        BytesReadError::from(BytesReadErrorValue::EmptyStream),
        BytesReadError::from(connection_reset()),
        BytesReadError::from(expired_deadline()),
    ];
    let texts: Vec<String> = errors.iter().map(|e| e.to_string()).collect();
    for (err, text) in errors.iter().zip(texts.iter()) {
        assert!(!text.is_empty());
        assert_eq!(&err.to_string(), text);
    }
    for i in 0..texts.len() {
        for j in 0..texts.len() {
            if i != j {
                assert_ne!(texts[i], texts[j]);
            }
        }
    }
}

#[test]
fn read_kinds_stay_apart_when_the_cause_text_imitates_another_kind() {
    let imitation = BytesReadError::from(Error::new(ErrorKind::Other, "empty stream"));
    let leaf = BytesReadError::from(BytesReadErrorValue::EmptyStream);
    assert_eq!(imitation.to_string(), "io error: empty stream");
    assert_ne!(imitation.to_string(), leaf.to_string());
}

#[test]
fn cause_describes_itself() {
    let err = BytesReadError::from(connection_reset());
    assert_eq!(err.cause().unwrap().to_string(), "connection reset");

    let err = BytesReadError::from(expired_deadline());
    assert_eq!(err.cause().unwrap().to_string(), "deadline has elapsed");
}
