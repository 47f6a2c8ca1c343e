use topology_reporter::cli::{parse_args, port_from_parts, ArgsError, ParseCommand};
use topology_reporter::events::{
    event_timestamp, is_known_event_type, parse_event, parse_events_batch, timestamp_or_zero,
    work_item_event, Event,
};
use topology_reporter::workitem::{transpose_matrix, Matrix, Vector};

fn args(list: &[&str]) -> Vec<String> {
    list.iter().map(|arg| arg.to_string()).collect()
}

fn event(ts: &str, event_type: &str, user: &str, value: i64, sequence: i64) -> Event {
    Event {
        ts: Some(ts.to_string()),
        event_type: Some(event_type.to_string()),
        user: Some(user.to_string()),
        value: Some(value),
        sequence,
    }
}

#[test]
fn no_argument_gives_the_default_setup() {
    match parse_args(&args(&[])) {
        Ok(ParseCommand::Run(config)) => {
            assert_eq!(config.host, "127.0.0.1");
            assert_eq!(config.port, 6002);
            assert_eq!(config.broker_address, "127.0.0.1:50051");
            assert!(config.register_with_broker);
        }
        other => panic!("unexpected {:?}", other),
    }
}

#[test]
fn options_change_the_setup() {
    let given = args(&["--port", "7000", "--host", "0.0.0.0", "--no-broker", "--broker", "b:1"]);
    match parse_args(&given) {
        Ok(ParseCommand::Run(config)) => {
            assert_eq!(config.host, "0.0.0.0");
            assert_eq!(config.port, 7000);
            assert_eq!(config.broker_address, "b:1");
            assert!(!config.register_with_broker);
        }
        other => panic!("unexpected {:?}", other),
    }
    match parse_args(&args(&["--host", "a", "--host", "--port"])) {
        Ok(ParseCommand::Run(config)) => assert_eq!(config.host, "--port"),
        other => panic!("unexpected {:?}", other),
    }
}

#[test]
fn faults_of_the_command_line() {
    match parse_args(&args(&["--host"])) {
        Err(ArgsError::MissingValue(option)) => assert_eq!(option, "--host"),
        other => panic!("unexpected {:?}", other),
    }
    match parse_args(&args(&["--no-broker", "--port"])) {
        Err(ArgsError::MissingValue(option)) => assert_eq!(option, "--port"),
        other => panic!("unexpected {:?}", other),
    }
    match parse_args(&args(&["--broker"])) {
        Err(ArgsError::MissingValue(option)) => assert_eq!(option, "--broker"),
        other => panic!("unexpected {:?}", other),
    }
    match parse_args(&args(&["--port", "70000"])) {
        Err(ArgsError::InvalidPort(text)) => assert_eq!(text, "70000"),
        other => panic!("unexpected {:?}", other),
    }
    match parse_args(&args(&["--port", "-1", "--help"])) {
        Err(ArgsError::InvalidPort(text)) => assert_eq!(text, "-1"),
        other => panic!("unexpected {:?}", other),
    }
    match parse_args(&args(&["--verbose"])) {
        Err(ArgsError::UnknownArgument(argument)) => assert_eq!(argument, "--verbose"),
        other => panic!("unexpected {:?}", other),
    }
}

#[test]
fn a_port_that_was_read_or_not() {
    assert!(matches!(port_from_parts("6002", Some(6002)), Ok(6002)));
    assert!(matches!(port_from_parts("0", Some(0)), Ok(0)));
    match port_from_parts("sixty", None) {
        Err(ArgsError::InvalidPort(text)) => assert_eq!(text, "sixty"),
        other => panic!("unexpected {:?}", other),
    }
}

#[test]
fn help_ends_the_reading() {
    assert!(matches!(parse_args(&args(&["-h"])), Ok(ParseCommand::Help)));
    assert!(matches!(parse_args(&args(&["--help", "--verbose"])), Ok(ParseCommand::Help)));
    assert!(matches!(
        parse_args(&args(&["--port", "1", "--help", "--port"])),
        Ok(ParseCommand::Help)
    ));
    assert!(matches!(
        parse_args(&args(&["--verbose", "--help"])),
        Err(ArgsError::UnknownArgument(_))
    ));
}

#[test]
fn timestamps_are_read_from_rfc3339() {
    assert_eq!(event_timestamp("1970-01-01T00:00:01Z"), 1000);
    assert_eq!(event_timestamp("2001-09-09T01:46:40.555Z"), 1_000_000_000_555);
    assert_eq!(event_timestamp("1970-01-01T01:00:00+01:00"), 0);
    assert_eq!(event_timestamp("1969-12-31T23:59:59Z"), -1000);
    assert_eq!(event_timestamp("yesterday"), 0);
    assert_eq!(event_timestamp(""), 0);
    assert_eq!(timestamp_or_zero(Some(5)), 5);
    assert_eq!(timestamp_or_zero(None), 0);
}

#[test]
fn known_event_types() {
    assert!(is_known_event_type("click"));
    assert!(is_known_event_type("view"));
    assert!(is_known_event_type("purchase"));
    assert!(!is_known_event_type("Click"));
    assert!(!is_known_event_type("scroll"));
    assert!(!is_known_event_type(""));
}

#[test]
fn an_event_passes_the_rules() {
    let parsed = parse_event(&event("2024-01-02T03:04:05Z", "purchase", "ann", 42, 7))
        .expect("a parsed event");
    assert_eq!(parsed.event_type, "purchase");
    assert_eq!(parsed.user, "ann");
    assert_eq!(parsed.value, 42);
    assert_eq!(parsed.timestamp, 1_704_164_645_000);
    assert_eq!(parsed.sequence, 7);

    let undated = parse_event(&event("soon", "view", "bob", -1, 8)).expect("a parsed event");
    assert_eq!(undated.timestamp, 0);
    assert_eq!(undated.value, -1);
}

#[test]
fn a_processed_work_item_travels_as_an_event() {
    let event = work_item_event("{\"id\":\"w1\"}".to_string(), 31);
    assert_eq!(event.event_type, "work-item");
    assert_eq!(event.user, "{\"id\":\"w1\"}");
    assert_eq!(event.value, 0);
    assert_eq!(event.timestamp, 0);
    assert_eq!(event.sequence, 31);
}

#[test]
fn an_event_is_dropped() {
    assert!(parse_event(&event("2024-01-02T03:04:05Z", "scroll", "ann", 1, 1)).is_none());
    let mut missing = event("2024-01-02T03:04:05Z", "click", "ann", 1, 1);
    missing.ts = None;
    assert!(parse_event(&missing).is_none());
    let mut missing = event("2024-01-02T03:04:05Z", "click", "ann", 1, 1);
    missing.event_type = None;
    assert!(parse_event(&missing).is_none());
    let mut missing = event("2024-01-02T03:04:05Z", "click", "ann", 1, 1);
    missing.user = None;
    assert!(parse_event(&missing).is_none());
    let mut missing = event("2024-01-02T03:04:05Z", "click", "ann", 1, 1);
    missing.value = None;
    assert!(parse_event(&missing).is_none());
}

#[test]
fn a_batch_keeps_what_passes_in_order() {
    let batch = vec![
        event("1970-01-01T00:00:01Z", "click", "a", 1, 10),
        event("1970-01-01T00:00:02Z", "hover", "b", 2, 11),
        event("1970-01-01T00:00:03Z", "view", "c", 3, 12),
        Event { ts: None, event_type: None, user: None, value: None, sequence: 13 },
        event("1970-01-01T00:00:05Z", "purchase", "e", 5, 14),
    ];
    let parsed = parse_events_batch(&batch);
    let sequences: Vec<i64> = parsed.iter().map(|event| event.sequence).collect();
    assert_eq!(sequences, vec![10, 12, 14]);
    let stamps: Vec<i64> = parsed.iter().map(|event| event.timestamp).collect();
    assert_eq!(stamps, vec![1000, 3000, 5000]);
    assert!(parse_events_batch(&Vec::new()).is_empty());
}

fn matrix(rows: &[&[f64]]) -> Matrix<f64> {
    Matrix { rows: rows.iter().map(|row| Vector { values: row.to_vec() }).collect() }
}

fn rows_of(matrix: &Matrix<f64>) -> Vec<Vec<f64>> {
    matrix.rows.iter().map(|row| row.values.clone()).collect()
}

#[test]
fn a_matrix_is_transposed() {
    let given = matrix(&[&[1.0, 2.0, 3.0], &[4.0, 5.0, 6.0]]);
    assert_eq!(
        rows_of(&transpose_matrix(&given, 0.0)),
        vec![vec![1.0, 4.0], vec![2.0, 5.0], vec![3.0, 6.0]]
    );
    assert!(transpose_matrix(&matrix(&[]), 0.0).rows.is_empty());
    assert!(transpose_matrix(&matrix(&[&[], &[1.0]]), 0.0).rows.is_empty());
}

#[test]
fn short_rows_are_filled_and_long_rows_cut() {
    let given = matrix(&[&[1.0, 2.0], &[3.0], &[4.0, 5.0, 6.0]]);
    assert_eq!(
        rows_of(&transpose_matrix(&given, 0.0)),
        vec![vec![1.0, 3.0, 4.0], vec![2.0, 0.0, 5.0]]
    );
    assert_eq!(
        rows_of(&transpose_matrix(&given, -1.0)),
        vec![vec![1.0, 3.0, 4.0], vec![2.0, -1.0, 5.0]]
    );
}
