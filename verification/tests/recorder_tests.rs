use input_recorder::export::{render_table, ExportError};
use input_recorder::log::{EventLog, SemanticEvent};
use input_recorder::recorder::{Recorder, EXPORT_FILE_NAME};

#[test]
fn start_then_stop_exports_the_header_alone() {
    let mut recorder = Recorder::new();
    assert!(!recorder.is_recording());
    recorder.start();
    assert!(recorder.is_recording());
    let table: String = recorder.stop();
    assert_eq!(table, "Timestamp,Event\n");
    assert!(!recorder.is_recording());
    assert_eq!(recorder.logged(), 0);
}

#[test]
fn stop_exports_the_entries_in_order_and_empties_the_log() {
    let mut recorder = Recorder::new();
    recorder.start();
    recorder.log_event("Key pressed: A".to_string(), 100);
    recorder.log_event("Mouse moved from (0,0) to (1,1)".to_string(), 105);
    assert_eq!(recorder.logged(), 2);
    let table: String = recorder.stop();
    assert_eq!(
        table,
        "Timestamp,Event\n100,Key pressed: A\n105,Mouse moved from (0,0) to (1,1)\n"
    );
    assert_eq!(recorder.logged(), 0);
    assert!(!recorder.is_recording());
}

#[test]
fn stop_twice_succeeds_and_exports_the_header_the_second_time() {
    let mut recorder = Recorder::new();
    recorder.start();
    recorder.log_event("Key pressed: A".to_string(), 100);
    let first: String = recorder.stop();
    assert_eq!(first, "Timestamp,Event\n100,Key pressed: A\n");
    let second: String = recorder.stop();
    assert_eq!(second, "Timestamp,Event\n");
    assert!(!recorder.is_recording());
    assert_eq!(recorder.logged(), 0);
}

#[test]
fn start_on_a_running_session_changes_nothing() {
    let mut recorder = Recorder::new();
    recorder.start();
    recorder.log_event("Key pressed: Q".to_string(), 7);
    let before = recorder.clone();
    recorder.start();
    assert_eq!(recorder, before);
    assert!(recorder.is_recording());
    assert_eq!(recorder.stop(), "Timestamp,Event\n7,Key pressed: Q\n");
}

#[test]
fn entries_appended_around_a_drain_land_on_exactly_one_side() {
    let mut log = EventLog::new();
    log.append("first".to_string(), 1);
    log.append("second".to_string(), 2);
    let drained: Vec<SemanticEvent> = log.drain_and_clear();
    assert!(log.is_empty());
    log.append("third".to_string(), 3);
    let rest: Vec<SemanticEvent> = log.drain_and_clear();
    assert_eq!(
        drained,
        vec![
            SemanticEvent { timestamp: 1, description: "first".to_string() },
            SemanticEvent { timestamp: 2, description: "second".to_string() },
        ]
    );
    assert_eq!(rest, vec![SemanticEvent { timestamp: 3, description: "third".to_string() }]);
    assert!(log.is_empty());
    assert_eq!(log.len(), 0);
}

#[test]
fn log_reports_its_length() {
    let mut log = EventLog::new();
    assert!(log.is_empty());
    assert_eq!(log.len(), 0);
    log.append("Key pressed: A".to_string(), 5);
    assert!(!log.is_empty());
    assert_eq!(log.len(), 1);
    log.append("Key pressed: A".to_string(), 5);
    assert_eq!(log.len(), 2);
}

#[test]
fn log_keeps_append_order_whatever_the_timestamps() {
    let mut log = EventLog::new();
    log.append("late".to_string(), 900);
    log.append("early".to_string(), 100);
    let drained: Vec<SemanticEvent> = log.drain_and_clear();
    assert_eq!(drained[0].description, "late");
    assert_eq!(drained[1].description, "early");
}

#[test]
fn table_writes_descriptions_as_they_stand() {
    let entries: Vec<SemanticEvent> = vec![
        SemanticEvent { timestamp: 0, description: "Mouse clicked: [false, true]".to_string() },
        SemanticEvent { timestamp: u64::MAX, description: String::new() },
    ];
    assert_eq!(
        render_table(&entries),
        "Timestamp,Event\n0,Mouse clicked: [false, true]\n18446744073709551615,\n"
    );
    assert_eq!(render_table(&Vec::new()), "Timestamp,Event\n");
}

#[test]
fn export_error_message_is_the_reason() {
    let error = ExportError::IoFailure { reason: "Permission denied (os error 13)".to_string() };
    assert_eq!(error.message(), "Permission denied (os error 13)");
}

#[test]
fn export_file_name_is_fixed() {
    assert_eq!(EXPORT_FILE_NAME, "event_log.csv");
}
