use std::sync::Arc;

use labrig::facade::{dispatch, ArduinoController, MicrowaveController, MockArduino, MockMicrowave};
use labrig::job::{find_column_index, Job, JobParseError, Step};
use labrig::motion::parse_motion_report;
use labrig::print::{move_code, ControlAction, HeldSetpoints, PrintCommand, PrintEngine, PrintStatus};

fn job(n: i64) -> Arc<Job> {
    let steps = (0..n).map(|i| Step { x_um: i * 1_000, y_um: -i * 500, z_um: 250 }).collect();
    Arc::new(Job::new("test.csv".to_string(), steps))
}

fn held() -> HeldSetpoints {
    HeldSetpoints { rf_power: 40_000, pressure: 20_000 }
}

#[test]
fn job_runs_to_completion_after_n_ticks() {
    let mut e = PrintEngine::new();
    let mut h = held();
    let actions = e.handle(PrintCommand::Start(job(3)), &mut h);
    assert_eq!(
        actions,
        vec![
            ControlAction::RfSetPower(0),
            ControlAction::RfOn,
            ControlAction::PressureEnable(true),
            ControlAction::PressureSetpoint(20_000),
        ]
    );
    assert_eq!(h.rf_power, 0);
    assert_eq!(e.state.status, PrintStatus::Printing);
    assert_eq!(e.state.total_steps, 3);
    assert_eq!(e.tick().as_deref(), Some("G1 X0.000 Y0.000 Z0.250"));
    assert_eq!(e.state.status, PrintStatus::Printing);
    assert_eq!(e.tick().as_deref(), Some("G1 X1.000 Y-0.500 Z0.250"));
    assert_eq!(e.state.current_index, 1);
    assert_eq!(e.tick().as_deref(), Some("G1 X2.000 Y-1.000 Z0.250"));
    assert_eq!(e.state.status, PrintStatus::Idle);
    assert_eq!(e.state.current_index, 3);
    assert_eq!(e.state.last_gcode.as_deref(), Some("G1 X2.000 Y-1.000 Z0.250"));
    assert_eq!(e.tick(), None);
}

#[test]
fn abort_while_printing_resets_and_keeps_error() {
    let mut e = PrintEngine::new();
    let mut h = held();
    e.handle(PrintCommand::Start(job(5)), &mut h);
    e.tick();
    e.tick();
    e.state.last_error = Some("stage stalled".to_string());
    let actions = e.handle(PrintCommand::Abort, &mut h);
    assert_eq!(
        actions,
        vec![ControlAction::RfOff, ControlAction::PressureSetpoint(0), ControlAction::PressureEnable(false)]
    );
    assert_eq!(e.state.status, PrintStatus::Idle);
    assert_eq!(e.state.total_steps, 0);
    assert_eq!(e.state.current_index, 0);
    assert_eq!(e.state.last_gcode, None);
    assert_eq!(e.state.last_error.as_deref(), Some("stage stalled"));
    assert_eq!(e.tick(), None);
}

#[test]
fn pause_while_idle_is_a_no_op() {
    let mut e = PrintEngine::new();
    let mut h = held();
    let actions = e.handle(PrintCommand::Pause, &mut h);
    assert!(actions.is_empty());
    assert_eq!(e.state.status, PrintStatus::Idle);
    assert_eq!(h, held());
    let rf = MockMicrowave::new();
    let pr = MockArduino::new();
    dispatch(&actions, &rf, &pr);
    assert!(rf.state().status.is_none());
    assert!(pr.state().status.is_none());
}

#[test]
fn pause_and_resume_fire_their_actions() {
    let mut e = PrintEngine::new();
    let mut h = held();
    e.handle(PrintCommand::Start(job(2)), &mut h);
    h.rf_power = 15_000;
    let paused = e.handle(PrintCommand::Pause, &mut h);
    assert_eq!(e.state.status, PrintStatus::Paused);
    assert_eq!(
        paused,
        vec![ControlAction::RfOff, ControlAction::PressureSetpoint(0), ControlAction::PressureEnable(false)]
    );
    assert_eq!(e.tick(), None);
    let resumed = e.handle(PrintCommand::Resume, &mut h);
    assert_eq!(e.state.status, PrintStatus::Printing);
    assert_eq!(
        resumed,
        vec![
            ControlAction::RfSetPower(15_000),
            ControlAction::RfOn,
            ControlAction::PressureEnable(true),
            ControlAction::PressureSetpoint(20_000),
        ]
    );
    assert!(e.handle(PrintCommand::Resume, &mut h).is_empty());
}

#[test]
fn start_while_printing_is_ignored() {
    let mut e = PrintEngine::new();
    let mut h = held();
    e.handle(PrintCommand::Start(job(2)), &mut h);
    e.tick();
    assert!(e.handle(PrintCommand::Start(job(9)), &mut h).is_empty());
    assert_eq!(e.state.total_steps, 2);
    assert_eq!(e.state.current_index, 0);
}

#[test]
fn dispatch_drives_mock_controllers() {
    let rf = MockMicrowave::new();
    let pr = MockArduino::new();
    rf.connect();
    pr.connect();
    let actions = vec![
        ControlAction::RfSetPower(5_000),
        ControlAction::RfOn,
        ControlAction::PressureEnable(true),
        ControlAction::PressureSetpoint(20_000),
    ];
    dispatch(&actions, &rf, &pr);
    let r = rf.state();
    assert!(r.enabled);
    assert_eq!(r.power_watts, 5_000);
    let p = pr.state();
    assert!(p.enabled);
    assert_eq!(p.pressure_setpoint_psi, 20_000);
}

#[test]
fn job_records_its_first_step() {
    let j = job(2);
    assert_eq!(j.row_count, 2);
    assert_eq!(j.first_step, Some(Step { x_um: 0, y_um: 0, z_um: 250 }));
    assert!(j.warnings.is_empty());
    let w = Job::with_warnings("a.csv".to_string(), vec![], vec!["many rows".to_string()]);
    assert_eq!(w.first_step, None);
    assert_eq!(w.warnings.len(), 1);
    assert_eq!(move_code(Step { x_um: -1, y_um: 0, z_um: 1_000_000 }), "G1 X-0.001 Y0.000 Z1000.000");
}

#[test]
fn header_lookup_ignores_case_and_spaces() {
    let names = vec!["y".to_string(), "y_mm".to_string()];
    let headers: Vec<String> = vec![" X ".into(), " Y_MM\t".into(), "y".into()];
    assert_eq!(find_column_index(&headers, &names), Some(1));
    let upper = vec!["Y".to_string()];
    let headers: Vec<String> = vec!["x".into(), "  y".into()];
    assert_eq!(find_column_index(&headers, &upper), Some(1));
    let headers: Vec<String> = vec!["x".into(), "z".into()];
    assert_eq!(find_column_index(&headers, &names), None);
}

#[test]
fn motion_report_is_read_from_status_reply() {
    let r = parse_motion_report("{\"status\":\"I\",\"heaters\":[25.0],\"pos\":[10.000,-2.500,0.125],\"extr\":[0.0]}").unwrap();
    assert_eq!(r.code, "I");
    assert_eq!(r.position, [10_000, -2_500, 125]);
    assert!(parse_motion_report("{\"status\":\"I\"}").is_none());
    assert!(parse_motion_report("{\"status\":\"I\",\"pos\":[1,2]}").is_none());
}

#[test]
fn job_errors_describe_themselves() {
    let e = JobParseError::BadNumber { column: "y".to_string(), row: 2, value: "abc".to_string() };
    assert_eq!(e.message(), "Failed to parse 'abc' as number in column 'y' at row 2");
    let e = JobParseError::TooManyRows { max: 2, actual: 3 };
    assert_eq!(e.message(), "Too many rows: 3 (max: 2)");
    assert_eq!(JobParseError::EmptyJob.message(), "Job file contains no data rows");
    assert_eq!(JobParseError::MissingColumn("x or x_mm".to_string()).message(), "Missing required column: x or x_mm");
}
