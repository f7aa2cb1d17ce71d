use bedtime::device::{build_targets, make_address, read_directory, DeviceRecord, RunError};
use bedtime::event::{dim_payload, Severity};

fn record(host_id: &str, name: &str) -> DeviceRecord {
    DeviceRecord { host_id: host_id.to_string(), name: name.to_string() }
}

#[test]
fn address_is_network_dot_host_and_port() {
    assert_eq!(make_address("10.0.0", "abc123"), "10.0.0.abc123:38899");
    assert_eq!(make_address("192.168.1", "7f"), "192.168.1.7f:38899");
    assert_eq!(make_address("", ""), ".:38899");
}

#[test]
fn targets_follow_records_in_order() {
    let records = vec![record("abc123", "Bedroom Lamp"), record("def456", "Hall Light")];
    let targets = build_targets("10.0.0", &records);
    assert_eq!(targets.len(), 2);
    assert_eq!(targets[0].address, "10.0.0.abc123:38899");
    assert_eq!(targets[0].name, "Bedroom Lamp");
    assert_eq!(targets[1].address, "10.0.0.def456:38899");
    assert_eq!(targets[1].name, "Hall Light");
}

#[test]
fn empty_directory_yields_no_targets() {
    let targets = build_targets("10.0.0", &Vec::new());
    assert_eq!(targets.len(), 0);
}

#[test]
fn missing_network_id_is_config_error() {
    let rows = Ok(vec![record("abc123", "Bedroom Lamp")]);
    match read_directory(None, rows) {
        Err(RunError::Config(detail)) => assert_eq!(detail, "NETWORK_ID not set"),
        _ => panic!("expected a configuration error"),
    }
}

#[test]
fn failed_query_is_store_error() {
    let rows: Result<Vec<DeviceRecord>, String> = Err("connection reset".to_string());
    match read_directory(Some("10.0.0".to_string()), rows) {
        Err(RunError::Store(detail)) => assert_eq!(detail, "connection reset"),
        _ => panic!("expected a store error"),
    }
}

#[test]
fn directory_rows_become_targets() {
    let rows = Ok(vec![record("abc123", "Bedroom Lamp")]);
    let targets = match read_directory(Some("10.0.0".to_string()), rows) {
        Ok(targets) => targets,
        Err(_) => panic!("expected targets"),
    };
    assert_eq!(targets.len(), 1);
    assert_eq!(targets[0].address, "10.0.0.abc123:38899");
    assert_eq!(targets[0].name, "Bedroom Lamp");
}

#[test]
fn severity_labels_match_the_audit_columns() {
    assert_eq!(Severity::Info.label(), "Info");
    assert_eq!(Severity::Error.label(), "Error");
}

#[test]
fn payload_is_the_fixed_dim_command() {
    assert_eq!(dim_payload(), "{\"method\":\"setPilot\",\"params\":{\"state\":true,\"dimming\":10}}");
}
