use labrig::actor::{Plan, QueueError};
use labrig::motion::{
    apply_written_code, motion_plan, motion_step, position_after_code, DuetCommand, DuetState,
    MotionEvent, MotionReport,
};
use labrig::pressure::{
    apply_line, parse_telemetry, pressure_plan, pressure_step, ArduinoCommand, ArduinoState,
    PressureEvent,
};
use labrig::rf::{rf_plan, rf_step, MicrowaveCommand, MicrowaveState, RfEvent};

fn connected_motion() -> DuetState {
    motion_step(DuetState::new(), MotionEvent::Opened(Ok(())))
}

fn connected_pressure() -> ArduinoState {
    pressure_step(ArduinoState::new(), PressureEvent::Opened(Ok(())))
}

fn connected_rf() -> MicrowaveState {
    rf_step(MicrowaveState::new(), RfEvent::Opened(Ok(())))
}

#[test]
fn telemetry_full_line_updates_all_readings() {
    let s = apply_line(connected_pressure(), "P PSI=34.7 MA=12.3 OK=1");
    assert_eq!(s.pressure_measured_psi, 34_700);
    assert_eq!(s.loop_current_ma, Some(12_300));
    assert_eq!(s.signal_ok, Some(true));
    assert!(s.last_error.is_none());
}

#[test]
fn telemetry_psi_only_keeps_optional_readings() {
    let s = apply_line(connected_pressure(), "P PSI=34.7 MA=12.3 OK=1");
    let s = apply_line(s, "PSI=10.0");
    assert_eq!(s.pressure_measured_psi, 10_000);
    assert_eq!(s.loop_current_ma, Some(12_300));
    assert_eq!(s.signal_ok, Some(true));
}

#[test]
fn telemetry_without_psi_changes_nothing() {
    let s = apply_line(connected_pressure(), "P PSI=34.7 MA=12.3 OK=1");
    let s = apply_line(s, "MA=5.0");
    assert_eq!(s.pressure_measured_psi, 34_700);
    assert_eq!(s.loop_current_ma, Some(12_300));
    assert_eq!(s.signal_ok, Some(true));
    assert!(s.connected);
}

#[test]
fn telemetry_parse_reads_fields_in_any_order() {
    let t = parse_telemetry("OK=0 MA=-1.5 PSI=2").unwrap();
    assert_eq!(t.psi, 2_000);
    assert_eq!(t.ma, Some(-1_500));
    assert_eq!(t.ok, Some(false));
    assert!(parse_telemetry("PSI=abc").is_none());
    assert!(parse_telemetry("").is_none());
    let t = parse_telemetry("PSI=1.25 OK=300").unwrap();
    assert_eq!(t.ok, None);
    assert_eq!(t.ma, None);
}

#[test]
fn telemetry_poll_failure_disconnects() {
    let s = pressure_step(connected_pressure(), PressureEvent::Polled(Err("timed out".to_string())));
    assert!(!s.connected);
    assert!(!s.enabled);
    assert_eq!(s.last_error.as_deref(), Some("read failed: timed out"));
    assert_eq!(s.status.as_deref(), Some("error"));
}

#[test]
fn motion_code_moves_named_axes() {
    let s = connected_motion();
    let s = motion_step(s, MotionEvent::Polled(Ok(MotionReport { code: "I".to_string(), position: [0, 0, 7_000] })));
    let cmd = "G1 X10.000 Y-2.500".to_string();
    let s = motion_step(s, MotionEvent::Written(DuetCommand::SendGcode(cmd.clone()), Ok(())));
    assert_eq!(s.position, [10_000, -2_500, 7_000]);
    assert_eq!(s.status.as_deref(), Some("idle"));
    assert_eq!(s.last_command.as_deref(), Some("G1 X10.000 Y-2.500"));
    assert!(s.last_error.is_none());
}

#[test]
fn motion_code_in_lower_case_and_homing() {
    let s = connected_motion();
    let s = motion_step(s, MotionEvent::Written(DuetCommand::SendGcode("g0 z1.5 x2".to_string()), Ok(())));
    assert_eq!(s.position, [2_000, 0, 1_500]);
    let s = motion_step(s, MotionEvent::Written(DuetCommand::SendGcode("G28".to_string()), Ok(())));
    assert_eq!(s.position, [0, 0, 0]);
}

#[test]
fn motion_code_already_upper_case() {
    let s = apply_written_code(connected_motion(), &"g1 x1".to_string(), "G1 X1 Ybad Z-0.25");
    assert_eq!(s.position, [1_000, 0, -250]);
    assert_eq!(s.last_command.as_deref(), Some("g1 x1"));
    assert_eq!(position_after_code([5, 6, 7], "M104 X1"), [5, 6, 7]);
}

#[test]
fn motion_status_poll_maps_codes() {
    let s = motion_step(connected_motion(), MotionEvent::Polled(Ok(MotionReport { code: "P".to_string(), position: [1, 2, 3] })));
    assert_eq!(s.status.as_deref(), Some("processing"));
    assert_eq!(s.position, [1, 2, 3]);
    let s = motion_step(s, MotionEvent::Polled(Ok(MotionReport { code: "Q".to_string(), position: [1, 2, 3] })));
    assert_eq!(s.status.as_deref(), Some("Q"));
    let s = motion_step(s, MotionEvent::Polled(Err("reset".to_string())));
    assert!(!s.connected);
    assert_eq!(s.last_error.as_deref(), Some("poll failed: reset"));
}

#[test]
fn motion_plan_writes_lines_only_while_connected() {
    let s = connected_motion();
    match motion_plan(&s, &DuetCommand::SendGcode("G28".to_string())) {
        Plan::Send(t) => assert_eq!(t, "G28\n"),
        other => panic!("unexpected plan {:?}", other),
    }
    let d = motion_step(s, MotionEvent::Closed);
    assert!(matches!(motion_plan(&d, &DuetCommand::SendMCommand("M112".to_string())), Plan::Refuse));
    assert!(matches!(motion_plan(&d, &DuetCommand::Connect), Plan::Open));
}

#[test]
fn command_after_disconnect_is_refused_on_every_device() {
    let m = motion_step(connected_motion(), MotionEvent::Closed);
    assert!(matches!(motion_plan(&m, &DuetCommand::SendGcode("G1 X1".to_string())), Plan::Refuse));
    let m = motion_step(m, MotionEvent::Refused);
    assert_eq!(m.last_error.as_deref(), Some("not connected"));
    assert!(!m.connected);

    let p = pressure_step(connected_pressure(), PressureEvent::Closed);
    assert!(matches!(pressure_plan(&p, ArduinoCommand::Enable(true)), Plan::Refuse));
    let p = pressure_step(p, PressureEvent::Refused(ArduinoCommand::Enable(true)));
    assert_eq!(p.last_error.as_deref(), Some("not connected"));
    assert!(!p.connected);
    assert!(!p.enabled);

    let r = rf_step(connected_rf(), RfEvent::Closed);
    assert!(matches!(rf_plan(&r, MicrowaveCommand::RfOn), Plan::Refuse));
    let r = rf_step(r, RfEvent::Refused(MicrowaveCommand::RfOn));
    assert_eq!(r.last_error.as_deref(), Some("not connected"));
    assert!(!r.connected);
}

#[test]
fn successful_connect_clears_error() {
    let m = motion_step(DuetState::new(), MotionEvent::Opened(Err("refused".to_string())));
    assert_eq!(m.last_error.as_deref(), Some("connect failed: refused"));
    let m = motion_step(m, MotionEvent::Opened(Ok(())));
    assert!(m.connected);
    assert!(m.last_error.is_none());

    let p = pressure_step(ArduinoState::new(), PressureEvent::Refused(ArduinoCommand::Enable(true)));
    let p = pressure_step(p, PressureEvent::Opened(Ok(())));
    assert!(p.connected && p.last_error.is_none());
    assert_eq!(p.status.as_deref(), Some("connected"));

    let r = rf_step(MicrowaveState::new(), RfEvent::Opened(Err("busy".to_string())));
    assert_eq!(r.last_error.as_deref(), Some("connect failed: busy"));
    let r = rf_step(r, RfEvent::Opened(Ok(())));
    assert!(r.connected && r.last_error.is_none());
}

#[test]
fn pressure_plan_lines() {
    let p = connected_pressure();
    match pressure_plan(&p, ArduinoCommand::Enable(true)) {
        Plan::Send(t) => assert_eq!(t, "ENABLE 1\n"),
        other => panic!("unexpected plan {:?}", other),
    }
    assert!(matches!(pressure_plan(&p, ArduinoCommand::SetPressureSetpoint(5_000)), Plan::Keep));
    let p = pressure_step(p, PressureEvent::Written(ArduinoCommand::Enable(true), Ok(())));
    assert!(p.enabled);
    match pressure_plan(&p, ArduinoCommand::SetPressureSetpoint(12_345)) {
        Plan::Send(t) => assert_eq!(t, "SET_PSI 12.35\n"),
        other => panic!("unexpected plan {:?}", other),
    }
    match pressure_plan(&p, ArduinoCommand::SetPressureSetpoint(-3)) {
        Plan::Send(t) => assert_eq!(t, "SET_PSI 0.00\n"),
        other => panic!("unexpected plan {:?}", other),
    }
}

#[test]
fn pressure_write_failure_disconnects_and_disables() {
    let p = pressure_step(connected_pressure(), PressureEvent::Written(ArduinoCommand::Enable(true), Ok(())));
    let p = pressure_step(p, PressureEvent::Written(ArduinoCommand::SetPressureSetpoint(1_000), Err("broken pipe".to_string())));
    assert!(!p.connected);
    assert!(!p.enabled);
    assert_eq!(p.last_error.as_deref(), Some("write failed: broken pipe"));
}

#[test]
fn queue_errors_are_recorded() {
    let p = pressure_step(ArduinoState::new(), PressureEvent::Queued(ArduinoCommand::Connect, Err(QueueError::Full)));
    assert_eq!(p.last_error.as_deref(), Some("send failed: no available capacity"));
    let r = rf_step(MicrowaveState::new(), RfEvent::Queued(MicrowaveCommand::RfOn, Err(QueueError::Closed)));
    assert_eq!(r.last_error.as_deref(), Some("send failed: channel closed"));
    assert!(!r.enabled);
}

#[test]
fn rf_optimistic_on_needs_connection() {
    let r = rf_step(MicrowaveState::new(), RfEvent::Queued(MicrowaveCommand::RfOn, Ok(())));
    assert!(!r.enabled);
    assert_eq!(r.status.as_deref(), Some("RF on"));
    let r = rf_step(connected_rf(), RfEvent::Queued(MicrowaveCommand::RfOn, Ok(())));
    assert!(r.enabled);
}

#[test]
fn rf_lines_and_statuses() {
    let r = connected_rf();
    match rf_plan(&r, MicrowaveCommand::SetPowerWatts(12_345)) {
        Plan::Send(t) => assert_eq!(t, "SET_POWER 12.3\n"),
        other => panic!("unexpected plan {:?}", other),
    }
    match rf_plan(&r, MicrowaveCommand::SetFrequencyHz(-2450)) {
        Plan::Send(t) => assert_eq!(t, "SET_FREQ -2450\n"),
        other => panic!("unexpected plan {:?}", other),
    }
    let r = rf_step(r, RfEvent::Written(MicrowaveCommand::SetPowerWatts(25_050), Ok(())));
    assert_eq!(r.power_watts, 25_050);
    assert_eq!(r.status.as_deref(), Some("power 25.1W"));
    let r = rf_step(r, RfEvent::Written(MicrowaveCommand::SetFrequencyHz(2_450_000), Ok(())));
    assert_eq!(r.status.as_deref(), Some("freq 2450000 Hz"));
    let r = rf_step(r, RfEvent::Written(MicrowaveCommand::SetPowerWatts(-5), Ok(())));
    assert_eq!(r.power_watts, 0);
}
