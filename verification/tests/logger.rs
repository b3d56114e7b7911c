use sajl::mailbox::MAX_BUFFER_SIZE;
use sajl::{
    format_line, prepare, submission_outcome, Action, Event, LogLevels, LogObject, Logger,
    LoggerOptions, Rejection, SubmitError,
};
use serde_json::Value;
use std::collections::BTreeMap;
use tokio::sync::mpsc::error::TryRecvError;

fn options(capacity: usize, batch_size: usize, interval_ms: u64) -> Option<LoggerOptions> {
    Some(LoggerOptions::new(Some(capacity), Some(batch_size), Some(interval_ms)))
}

fn payload(name: &str) -> Result<Value, serde_json::Error> {
    serde_json::to_value(name)
}

fn unserializable() -> Result<Value, serde_json::Error> {
    let mut map = BTreeMap::new();
    map.insert((1, 2), 3);
    serde_json::to_value(map)
}

#[test]
fn new_logger_follows_the_options() {
    let (logger, worker) = Logger::new(options(4, 2, 75));
    assert_eq!(logger.capacity(), 4);
    assert_eq!(worker.receiver.max_capacity(), 4);
    assert_eq!(worker.aggregator.batch_size(), 2);
    assert_eq!(worker.aggregator.len(), 0);
    assert!(!worker.aggregator.is_terminated());
    assert_eq!(worker.interval_ms, 75);
}

#[test]
fn new_logger_without_options_takes_the_defaults() {
    let (logger, worker) = Logger::new(None);
    assert_eq!(logger.capacity(), 1024);
    assert_eq!(worker.aggregator.batch_size(), 50);
    assert_eq!(worker.interval_ms, 50);
    let (logger, worker) = Logger::new(Some(LoggerOptions::new(None, None, None)));
    assert_eq!(logger.capacity(), 1024);
    assert_eq!(worker.aggregator.batch_size(), 50);
    assert_eq!(worker.interval_ms, 50);
}

#[test]
fn the_largest_capacity_is_accepted() {
    let (logger, _worker) = Logger::new(options(MAX_BUFFER_SIZE, 1, 1));
    assert_eq!(logger.capacity(), usize::MAX >> 3);
}

#[test]
fn submitted_records_arrive_in_order_with_level_and_payload() {
    let (logger, mut worker) = Logger::new(options(8, 2, 50));
    assert!(logger.info(payload("A")).is_ok());
    assert!(logger.warn(payload("B")).is_ok());
    assert!(logger.error(payload("C")).is_ok());
    assert!(logger.debug(payload("D")).is_ok());
    assert!(logger.log(payload("E"), LogLevels::Warn).is_ok());
    let expected = [
        (LogLevels::Info, "A"),
        (LogLevels::Warn, "B"),
        (LogLevels::Error, "C"),
        (LogLevels::Debug, "D"),
        (LogLevels::Warn, "E"),
    ];
    for (level, name) in expected {
        let log = worker.receiver.try_recv().unwrap();
        assert_eq!(log.log_level, level);
        assert_eq!(log.data, Value::from(name));
        assert_eq!(log.timestamp.len(), 24);
        assert!(log.timestamp.ends_with('Z'));
    }
    assert!(matches!(worker.receiver.try_recv(), Err(TryRecvError::Empty)));
}

#[test]
fn three_submissions_with_batch_size_two_are_flushed_as_two_batches() {
    let (logger, mut worker) = Logger::new(options(4, 2, 50));
    for name in ["A", "B", "C"] {
        assert!(logger.info(payload(name)).is_ok());
    }
    let mut batches: Vec<Vec<Option<String>>> = Vec::new();
    let mut received: Vec<Option<String>> = Vec::new();
    while let Ok(log) = worker.receiver.try_recv() {
        received.push(format_line(&log));
        if let Action::Flush(lines) = worker.aggregator.step(Event::Record(log)) {
            batches.push(lines);
        }
    }
    assert_eq!(batches.len(), 1);
    assert_eq!(batches[0], received[0..2].to_vec());
    assert!(batches[0][0].as_ref().unwrap().ends_with("\"data\":\"A\"}"));
    assert!(batches[0][1].as_ref().unwrap().ends_with("\"data\":\"B\"}"));
    assert_eq!(worker.aggregator.len(), 1);
    match worker.aggregator.step(Event::Tick) {
        Action::Flush(lines) => {
            assert_eq!(lines, received[2..3].to_vec());
            assert!(lines[0].as_ref().unwrap().ends_with("\"data\":\"C\"}"));
        }
        _ => panic!("the tick flushes the pending record"),
    }
    assert!(matches!(worker.aggregator.step(Event::Tick), Action::Wait));
}

#[test]
fn the_fifth_of_five_submissions_into_four_slots_is_dropped() {
    let (logger, mut worker) = Logger::new(options(4, 2, 50));
    let mut outcomes = Vec::new();
    for name in ["A", "B", "C", "D", "E"] {
        outcomes.push(logger.info(payload(name)));
    }
    for outcome in &outcomes[0..4] {
        assert!(outcome.is_ok());
    }
    match &outcomes[4] {
        Err(error) => {
            assert!(matches!(error, SubmitError::MailboxFull));
            assert_eq!(error.message(), "CHANNEL IS FULL");
        }
        Ok(()) => panic!("the mailbox has room for four records only"),
    }
    for name in ["A", "B", "C", "D"] {
        assert_eq!(worker.receiver.try_recv().unwrap().data, Value::from(name));
    }
    assert!(matches!(worker.receiver.try_recv(), Err(TryRecvError::Empty)));
}

#[test]
fn overflow_is_dropped_and_room_comes_back_when_the_mailbox_is_drained() {
    let (logger, mut worker) = Logger::new(options(2, 50, 50));
    let mut taken = 0;
    let mut dropped = 0;
    for i in 0..10 {
        match logger.info(serde_json::to_value(i)) {
            Ok(()) => taken += 1,
            Err(SubmitError::MailboxFull) => dropped += 1,
            Err(other) => panic!("unexpected error: {:?}", other),
        }
    }
    assert_eq!(taken, 2);
    assert_eq!(dropped, 8);
    assert_eq!(worker.receiver.try_recv().unwrap().data, Value::from(0));
    assert!(logger.info(serde_json::to_value(10)).is_ok());
    assert!(matches!(logger.info(serde_json::to_value(11)), Err(SubmitError::MailboxFull)));
}

#[test]
fn submitting_after_the_worker_is_gone_reports_a_closed_mailbox() {
    let (logger, worker) = Logger::new(options(4, 2, 50));
    drop(worker);
    match logger.info(payload("A")) {
        Err(error) => {
            assert!(matches!(error, SubmitError::MailboxClosed));
            assert_eq!(error.message(), "CHANNEL CLOSED");
        }
        Ok(()) => panic!("nobody is left to receive"),
    }
}

#[test]
fn a_failed_conversion_is_reported_and_nothing_is_enqueued() {
    let (logger, mut worker) = Logger::new(options(4, 2, 50));
    let reason = unserializable().unwrap_err().to_string();
    match logger.error(unserializable()) {
        Err(error) => {
            assert!(matches!(error, SubmitError::SerializationFailure(_)));
            assert_eq!(error.message(), format!("Failed to serialize {}", reason));
        }
        Ok(()) => panic!("a map with tuple keys has no structured form"),
    }
    assert!(matches!(worker.receiver.try_recv(), Err(TryRecvError::Empty)));
}

#[test]
fn a_failed_conversion_wins_over_a_closed_mailbox() {
    let (logger, worker) = Logger::new(options(1, 1, 1));
    drop(worker);
    assert!(matches!(
        logger.log(unserializable(), LogLevels::Debug),
        Err(SubmitError::SerializationFailure(_))
    ));
}

#[test]
fn dropping_every_handle_closes_the_mailbox_after_the_last_record() {
    let (logger, mut worker) = Logger::new(options(4, 10, 50));
    let second = logger.clone();
    assert!(logger.info(payload("A")).is_ok());
    drop(logger);
    assert!(second.info(payload("B")).is_ok());
    drop(second);
    let mut events = Vec::new();
    loop {
        match worker.receiver.try_recv() {
            Ok(log) => events.push(Event::Record(log)),
            Err(TryRecvError::Empty) => panic!("the mailbox is closed, not empty"),
            Err(TryRecvError::Disconnected) => {
                events.push(Event::Closed);
                break;
            }
        }
    }
    assert_eq!(events.len(), 3);
    let mut last = None;
    for event in events {
        last = Some(worker.aggregator.step(event));
    }
    match last {
        Some(Action::FinalFlush(lines)) => {
            assert_eq!(lines.len(), 2);
            assert!(lines[0].as_ref().unwrap().ends_with("\"data\":\"A\"}"));
            assert!(lines[1].as_ref().unwrap().ends_with("\"data\":\"B\"}"));
        }
        _ => panic!("closing flushes the two buffered records"),
    }
    assert!(matches!(worker.aggregator.step(Event::Tick), Action::Stop));
}

#[test]
fn a_clone_feeds_the_same_mailbox() {
    let (logger, mut worker) = Logger::new(options(2, 2, 50));
    let second = logger.clone();
    assert_eq!(second.capacity(), 2);
    assert!(logger.info(payload("A")).is_ok());
    assert!(second.info(payload("B")).is_ok());
    assert!(matches!(logger.info(payload("C")), Err(SubmitError::MailboxFull)));
    assert!(matches!(second.info(payload("D")), Err(SubmitError::MailboxFull)));
    assert_eq!(worker.receiver.try_recv().unwrap().data, Value::from("A"));
    assert_eq!(worker.receiver.try_recv().unwrap().data, Value::from("B"));
}

#[test]
fn the_outcome_follows_the_answer_of_the_mailbox() {
    assert!(submission_outcome(Ok(())).is_ok());
    assert!(matches!(submission_outcome(Err(Rejection::Full)), Err(SubmitError::MailboxFull)));
    assert!(matches!(
        submission_outcome(Err(Rejection::Closed)),
        Err(SubmitError::MailboxClosed)
    ));
}

#[test]
fn diagnostics_name_the_error() {
    assert_eq!(SubmitError::MailboxFull.message(), "CHANNEL IS FULL");
    assert_eq!(SubmitError::MailboxClosed.message(), "CHANNEL CLOSED");
    assert_eq!(
        SubmitError::SerializationFailure("key must be a string".to_string()).message(),
        "Failed to serialize key must be a string"
    );
}

#[test]
fn records_can_be_built_by_hand() {
    let log = LogObject::new(LogLevels::Debug, Value::Null, "2024-01-02T03:04:05.678Z".to_string());
    assert_eq!(log.log_level, LogLevels::Debug);
    assert_eq!(log.data, Value::Null);
    assert_eq!(log.timestamp, "2024-01-02T03:04:05.678Z");
    assert_eq!(
        format_line(&log),
        Some(
            "{\"level\":\"DEBUG\",\"timestamp\":\"2024-01-02T03:04:05.678Z\",\"data\":null}"
                .to_string()
        )
    );
}

#[test]
fn a_converted_payload_is_prepared_as_its_record() {
    let prepared = prepare(payload("A"), LogLevels::Warn, "2024-01-02T03:04:05.678Z".to_string());
    match prepared {
        Ok(log) => {
            assert_eq!(log.log_level, LogLevels::Warn);
            assert_eq!(log.data, Value::from("A"));
            assert_eq!(log.timestamp, "2024-01-02T03:04:05.678Z");
        }
        Err(error) => panic!("unexpected error: {:?}", error),
    }
}

#[test]
fn a_failed_conversion_is_prepared_as_a_serialization_failure() {
    let reason = unserializable().unwrap_err().to_string();
    match prepare(unserializable(), LogLevels::Info, "t".to_string()) {
        Err(SubmitError::SerializationFailure(said)) => assert_eq!(said, reason),
        Err(other) => panic!("unexpected error: {:?}", other),
        Ok(_) => panic!("a map with tuple keys has no structured form"),
    }
}
