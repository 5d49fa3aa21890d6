use std::sync::Arc;

use labrig::cache::StateCache;
use labrig::facade::{ArduinoClient, ArduinoController, DuetClient, DuetController, MicrowaveClient, MicrowaveController, MockDuet};
use labrig::motion::{DuetCommand, DuetState};
use labrig::pressure::{ArduinoCommand, ArduinoState};
use labrig::rf::MicrowaveState;
use tokio::sync::mpsc;

#[test]
fn duet_client_queues_and_marks_progress() {
    let (tx, mut rx) = mpsc::channel(1);
    let client = DuetClient::new(tx, Arc::new(StateCache::new(DuetState::new())));
    client.connect();
    assert_eq!(client.state().status.as_deref(), Some("connecting..."));
    assert!(client.state().last_error.is_none());
    client.send_gcode("G1 X1");
    assert_eq!(client.state().last_error.as_deref(), Some("send failed: no available capacity"));
    assert!(matches!(rx.try_recv(), Ok(DuetCommand::Connect)));
    client.send_gcode("G1 X1");
    assert_eq!(client.state().last_command.as_deref(), Some("G1 X1"));
    assert!(client.state().last_error.is_none());
}

#[test]
fn closed_queue_is_reported() {
    let (tx, rx) = mpsc::channel(4);
    drop(rx);
    let client = MicrowaveClient::new(tx, Arc::new(StateCache::new(MicrowaveState::new())));
    client.rf_on();
    let s = client.state();
    assert_eq!(s.last_error.as_deref(), Some("send failed: channel closed"));
    assert!(!s.enabled);
}

#[test]
fn arduino_client_records_setpoint() {
    let (tx, mut rx) = mpsc::channel(4);
    let client = ArduinoClient::new(tx, Arc::new(StateCache::new(ArduinoState::new())));
    client.set_pressure_setpoint(-10);
    client.set_pressure_setpoint(15_500);
    assert_eq!(client.state().pressure_setpoint_psi, 15_500);
    assert!(matches!(rx.try_recv(), Ok(ArduinoCommand::SetPressureSetpoint(-10))));
    client.enable(true);
    assert!(!client.state().enabled);
    assert_eq!(client.state().status.as_deref(), Some("enabled"));
    let shared = client.state_handle();
    assert_eq!(shared.read().pressure_setpoint_psi, 15_500);
}

#[test]
fn mock_duet_moves_when_connected() {
    let m = MockDuet::new();
    m.send_gcode("G1 X1");
    assert_eq!(m.state().last_error.as_deref(), Some("not connected"));
    m.connect();
    m.send_gcode("G1 X10.000 Y-2.500");
    let s = m.state();
    assert_eq!(s.position, [10_000, -2_500, 0]);
    assert_eq!(s.status.as_deref(), Some("idle"));
    m.send_m_cmd("M112");
    assert_eq!(m.state().last_command.as_deref(), Some("M112"));
    m.disconnect();
    assert!(!m.state().connected);
}
