//! The pneumatic pressure regulator: its state record, the telemetry line it
//! reports, and the transitions of its actor and façade.
use vstd::prelude::*;
use vstd::string::*;

use crate::actor::{
    failure_message, not_connected_message, not_connected_text, queue_error_message,
    queue_error_text, Plan, QueueError,
};
use crate::decimal::{
    decimal_value, digits_value, fixed_text, is_digit, is_digit_char, parse_decimal, push_fixed,
    whole_value,
};
use crate::text::{chars_of, copy_text, find_key, find_text, owned, text_of};

verus! {

/// A command for the pressure regulator's actor. Pressures are in thousandths of a PSI.
#[derive(Clone, Copy, Debug, PartialEq, Eq, Structural)]
pub enum ArduinoCommand {
    Connect,
    Disconnect,
    /// Turn pressure regulation on or off.
    Enable(bool),
    SetPressureSetpoint(i64),
}

/// Cached state of the pressure regulator. Pressures are in thousandths of a
/// PSI, the loop current in thousandths of a mA.
#[derive(Debug)]
pub struct ArduinoState {
    pub connected: bool,
    pub enabled: bool,
    pub pressure_setpoint_psi: i64,
    pub pressure_measured_psi: i64,
    pub loop_current_ma: Option<i64>,
    pub signal_ok: Option<bool>,
    pub status: Option<String>,
    pub last_error: Option<String>,
}

/// The pressure record as the contracts see it: texts as character sequences.
pub struct PressureView {
    pub connected: bool,
    pub enabled: bool,
    pub setpoint: i64,
    pub measured: i64,
    pub loop_current: Option<i64>,
    pub signal_ok: Option<bool>,
    pub status: Option<Seq<char>>,
    pub last_error: Option<Seq<char>>,
}

impl View for ArduinoState {
    type V = PressureView;

    open spec fn view(&self) -> PressureView {
        PressureView {
            connected: self.connected,
            enabled: self.enabled,
            setpoint: self.pressure_setpoint_psi,
            measured: self.pressure_measured_psi,
            loop_current: self.loop_current_ma,
            signal_ok: self.signal_ok,
            status: text_of(self.status),
            last_error: text_of(self.last_error),
        }
    }
}

impl PressureView {
    /// Regulation is never on while the regulator is disconnected.
    pub open spec fn wf(self) -> bool {
        self.enabled ==> self.connected
    }
}

/// One telemetry line: the measured pressure and, when reported, the loop
/// current and the signal flag.
#[derive(Clone, Copy, Debug, PartialEq, Eq, Structural)]
pub struct Telemetry {
    pub psi: i64,
    pub ma: Option<i64>,
    pub ok: Option<bool>,
}

/// Something that changes the pressure record.
#[derive(Debug)]
pub enum PressureEvent {
    /// The façade tried to queue a command.
    Queued(ArduinoCommand, Result<(), QueueError>),
    /// A command was refused because the regulator is not connected.
    Refused(ArduinoCommand),
    /// A command that needs no I/O was taken into the record.
    Kept(ArduinoCommand),
    /// Opening the transport finished.
    Opened(Result<(), String>),
    /// The transport was dropped on request.
    Closed,
    /// Writing a command finished.
    Written(ArduinoCommand, Result<(), String>),
    /// A telemetry request finished with the line read back.
    Polled(Result<String, String>),
}

pub open spec fn clamp_low(p: i64) -> i64 {
    if p < 0 {
        0
    } else {
        p
    }
}

pub open spec fn number_char(c: char, point: bool) -> bool {
    is_digit(c) || (point && (c == '.' || c == '-'))
}

/// Length of the run of number characters at the start of `s` (digits, and
/// with `point` also `.` and `-`).
pub open spec fn lead_len(s: Seq<char>, point: bool) -> nat
    decreases s.len(),
{
    if s.len() > 0 && number_char(s[0], point) {
        1 + lead_len(s.skip(1), point)
    } else {
        0
    }
}

/// The value after the first `key` of the line: its run of digits, points and
/// signs read as a decimal.
pub open spec fn field_value(line: Seq<char>, key: Seq<char>) -> Option<int> {
    match find_text(line, key) {
        Some(p) => {
            let rest = line.skip(p + key.len());
            decimal_value(rest.take(lead_len(rest, true) as int))
        },
        None => None,
    }
}

/// The flag after the first `OK=`: its run of digits as a byte, non-zero meaning set.
pub open spec fn flag_value(line: Seq<char>) -> Option<bool> {
    match find_text(line, "OK="@) {
        Some(p) => {
            let rest = line.skip(p + 3);
            let d = rest.take(lead_len(rest, false) as int);
            if d.len() > 0 && digits_value(d) <= 255 {
                Some(digits_value(d) != 0)
            } else {
                None
            }
        },
        None => None,
    }
}

/// The reading carried by a telemetry line, if it has a readable `PSI=`.
pub open spec fn telemetry_of(line: Seq<char>) -> Option<(int, Option<int>, Option<bool>)> {
    match field_value(line, "PSI="@) {
        Some(psi) => Some((psi, field_value(line, "MA="@), flag_value(line))),
        None => None,
    }
}

/// The record after a telemetry line: a readable line sets the measured pressure
/// and the optional readings it carries; any other line changes nothing.
pub open spec fn pressure_after_line(s: PressureView, line: Seq<char>) -> PressureView {
    match telemetry_of(line) {
        Some((psi, ma, ok)) => PressureView {
            measured: psi as i64,
            loop_current: match ma {
                Some(m) => Some(m as i64),
                None => s.loop_current,
            },
            signal_ok: match ok {
                Some(b) => Some(b),
                None => s.signal_ok,
            },
            last_error: None,
            ..s
        },
        None => s,
    }
}

/// The record after an I/O failure: the regulator counts as disconnected.
pub open spec fn pressure_failed(s: PressureView, prefix: Seq<char>, detail: Seq<char>) -> PressureView {
    PressureView {
        connected: false,
        enabled: false,
        last_error: Some(prefix + detail),
        status: Some("error"@),
        ..s
    }
}

pub open spec fn enable_status(on: bool) -> Seq<char> {
    if on {
        "enabled"@
    } else {
        "disabled"@
    }
}

/// How each event changes the pressure record.
pub open spec fn pressure_next(s: PressureView, ev: PressureEvent) -> PressureView {
    match ev {
        PressureEvent::Queued(_, Err(e)) => PressureView { last_error: Some(queue_error_text(e)), ..s },
        PressureEvent::Queued(ArduinoCommand::Connect, Ok(())) => PressureView {
            last_error: None,
            status: Some("connecting..."@),
            ..s
        },
        PressureEvent::Queued(ArduinoCommand::Disconnect, Ok(())) => PressureView {
            status: Some("disconnecting..."@),
            ..s
        },
        PressureEvent::Queued(ArduinoCommand::Enable(on), Ok(())) => PressureView {
            last_error: None,
            enabled: on && s.connected,
            status: Some(enable_status(on)),
            ..s
        },
        PressureEvent::Queued(ArduinoCommand::SetPressureSetpoint(p), Ok(())) => PressureView {
            last_error: None,
            setpoint: clamp_low(p),
            ..s
        },
        PressureEvent::Refused(ArduinoCommand::SetPressureSetpoint(p)) => PressureView {
            setpoint: clamp_low(p),
            last_error: Some(not_connected_text()),
            ..s
        },
        PressureEvent::Refused(_) => PressureView { last_error: Some(not_connected_text()), ..s },
        PressureEvent::Kept(ArduinoCommand::SetPressureSetpoint(p)) => PressureView {
            setpoint: clamp_low(p),
            ..s
        },
        PressureEvent::Kept(_) => s,
        PressureEvent::Opened(Ok(())) => PressureView {
            connected: true,
            enabled: false,
            last_error: None,
            status: Some("connected"@),
            measured: 0,
            loop_current: None,
            signal_ok: None,
            ..s
        },
        PressureEvent::Opened(Err(e)) => PressureView {
            connected: false,
            enabled: false,
            last_error: Some("serial open failed: "@ + e@),
            status: Some("error"@),
            ..s
        },
        PressureEvent::Closed => PressureView {
            connected: false,
            enabled: false,
            status: Some("disconnected"@),
            measured: 0,
            loop_current: None,
            signal_ok: None,
            ..s
        },
        PressureEvent::Written(ArduinoCommand::Enable(on), Ok(())) => PressureView {
            enabled: on && s.connected,
            last_error: None,
            status: Some(enable_status(on)),
            ..s
        },
        PressureEvent::Written(ArduinoCommand::SetPressureSetpoint(p), Ok(())) => PressureView {
            setpoint: clamp_low(p),
            last_error: None,
            ..s
        },
        PressureEvent::Written(_, Ok(())) => s,
        PressureEvent::Written(_, Err(e)) => pressure_failed(s, "write failed: "@, e@),
        PressureEvent::Polled(Ok(line)) => pressure_after_line(s, line@),
        PressureEvent::Polled(Err(e)) => pressure_failed(s, "read failed: "@, e@),
    }
}

/// Whether the regulator's actor refuses `cmd`: only commands for the device
/// itself are refused, and only while it is disconnected.
pub open spec fn refuses(connected: bool, cmd: ArduinoCommand) -> bool {
    !connected && !(cmd is Connect) && !(cmd is Disconnect)
}

/// After a disconnect, a command for the regulator itself is refused: the record
/// then holds the error "not connected" and is still disconnected.
pub proof fn lemma_pressure_command_after_disconnect(s: PressureView, cmd: ArduinoCommand)
    requires
        !(cmd is Connect),
        !(cmd is Disconnect),
    ensures
        ({
            let d = pressure_next(s, PressureEvent::Closed);
            let r = pressure_next(d, PressureEvent::Refused(cmd));
            &&& refuses(d.connected, cmd)
            &&& r.last_error == Some(not_connected_text())
            &&& r.connected == d.connected
        }),
{
}

/// A successful connect leaves the regulator connected with no error recorded.
pub proof fn lemma_pressure_connect_clears_error(s: PressureView)
    ensures
        pressure_next(s, PressureEvent::Opened(Ok(()))).last_error is None,
        pressure_next(s, PressureEvent::Opened(Ok(()))).connected,
{
}

/// The line that asks the regulator for the setpoint `p`: `SET_PSI <p>` with two decimals.
pub open spec fn setpoint_line(p: i64) -> Seq<char> {
    "SET_PSI "@ + fixed_text(clamp_low(p) as int, 2) + "\n"@
}

pub open spec fn enable_line(on: bool) -> Seq<char> {
    if on {
        "ENABLE 1\n"@
    } else {
        "ENABLE 0\n"@
    }
}

impl Default for ArduinoState {
    fn default() -> (r: Self)
        ensures
            r@ == (PressureView {
                connected: false,
                enabled: false,
                setpoint: 0,
                measured: 0,
                loop_current: None,
                signal_ok: None,
                status: None,
                last_error: None,
            }),
    {
        ArduinoState::new()
    }
}

impl ArduinoState {
    /// A disconnected regulator with all pressures at zero.
    pub fn new() -> (r: ArduinoState)
        ensures
            r@ == (PressureView {
                connected: false,
                enabled: false,
                setpoint: 0,
                measured: 0,
                loop_current: None,
                signal_ok: None,
                status: None,
                last_error: None,
            }),
    {
        ArduinoState {
            connected: false,
            enabled: false,
            pressure_setpoint_psi: 0,
            pressure_measured_psi: 0,
            loop_current_ma: None,
            signal_ok: None,
            status: None,
            last_error: None,
        }
    }

    /// An independent copy of the record.
    pub fn snapshot(&self) -> (r: ArduinoState)
        ensures
            r@ == self@,
    {
        ArduinoState {
            status: copy_text(&self.status),
            last_error: copy_text(&self.last_error),
            ..*self
        }
    }
}

pub fn lead_end(t: &Vec<char>, from: usize, point: bool) -> (e: usize)
    requires
        from <= t.len(),
    ensures
        from <= e <= t.len(),
        e - from == lead_len(t@.skip(from as int), point),
{
    let mut e = from;
    while e < t.len() && (is_digit_char(t[e]) || (point && (t[e] == '.' || t[e] == '-')))
        invariant
            from <= e <= t.len(),
            lead_len(t@.skip(from as int), point) == (e - from) + lead_len(
                t@.skip(e as int),
                point,
            ),
        decreases t.len() - e,
    {
        assert(t@.skip(e as int).skip(1) =~= t@.skip(e + 1));
        assert(t@.skip(e as int)[0] == t@[e as int]);
        e = e + 1;
    }
    if e < t.len() {
        assert(t@.skip(e as int)[0] == t@[e as int]);
    }
    e
}

fn read_field(t: &Vec<char>, key: &str) -> (r: Option<i64>)
    ensures
        r matches Some(v) ==> field_value(t@, key@) == Some(v as int),
        r is None ==> field_value(t@, key@) is None,
{
    match find_key(t, key) {
        Some(p) => {
            let kc = chars_of(key);
            assert(p + kc@.len() <= t@.len());
            let _n = t.len();
            let from = p + kc.len();
            let e = lead_end(t, from, true);
            let ghost rest = t@.skip(from as int);
            assert(rest.take(e - from) =~= t@.subrange(from as int, e as int));
            parse_decimal(t, from, e)
        },
        None => None,
    }
}

fn read_flag(t: &Vec<char>) -> (r: Option<bool>)
    ensures
        r == flag_value(t@),
{
    proof {
        reveal_strlit("OK=");
    }
    match find_key(t, "OK=") {
        Some(p) => {
            assert(p + 3 <= t@.len());
            let _n = t.len();
            let from = p + 3;
            let e = lead_end(t, from, false);
            let ghost rest = t@.skip(from as int);
            assert(rest.take(e - from) =~= t@.subrange(from as int, e as int));
            assert forall|m: int| 0 <= m < e - from implies is_digit(
                #[trigger] t@.subrange(from as int, e as int)[m],
            ) by {
                lemma_lead_chars(rest, false, m);
                assert(rest[m] == t@.subrange(from as int, e as int)[m]);
            }
            if e == from {
                return None;
            }
            match whole_value(t, from, e) {
                Some(v) => {
                    if v <= 255 {
                        Some(v != 0)
                    } else {
                        None
                    }
                },
                None => None,
            }
        },
        None => None,
    }
}

proof fn lemma_lead_chars(s: Seq<char>, point: bool, m: int)
    requires
        0 <= m < lead_len(s, point),
    ensures
        m < s.len(),
        number_char(s[m], point),
    decreases s.len(),
{
    if m > 0 {
        lemma_lead_chars(s.skip(1), point, m - 1);
        assert(s.skip(1)[m - 1] == s[m]);
    }
}

/// Reads a telemetry line such as `P PSI=34.7 MA=12.3 OK=1` or `PSI=34.7`.
/// `PSI=` is required; `MA=` and `OK=` are optional and may come in any order.
pub fn parse_telemetry(line: &str) -> (r: Option<Telemetry>)
    ensures
        r matches Some(tm) ==> telemetry_of(line@) == Some(
            (
                tm.psi as int,
                match tm.ma {
                    Some(m) => Some(m as int),
                    None => None,
                },
                tm.ok,
            ),
        ),
        r is None ==> telemetry_of(line@) is None,
{
    let t = chars_of(line);
    let psi = match read_field(&t, "PSI=") {
        Some(v) => v,
        None => {
            return None;
        },
    };
    let ma = read_field(&t, "MA=");
    let ok = read_flag(&t);
    Some(Telemetry { psi, ma, ok })
}

/// The record after a line was read back from the regulator.
pub fn apply_line(s: ArduinoState, line: &str) -> (r: ArduinoState)
    ensures
        r@ == pressure_after_line(s@, line@),
{
    match parse_telemetry(line) {
        Some(tm) => ArduinoState {
            pressure_measured_psi: tm.psi,
            loop_current_ma: match tm.ma {
                Some(m) => Some(m),
                None => s.loop_current_ma,
            },
            signal_ok: match tm.ok {
                Some(b) => Some(b),
                None => s.signal_ok,
            },
            last_error: None,
            ..s
        },
        None => s,
    }
}

fn enable_message(on: bool) -> (r: String)
    ensures
        r@ == enable_status(on),
{
    if on {
        owned("enabled")
    } else {
        owned("disabled")
    }
}

fn clamp_exec(p: i64) -> (r: i64)
    ensures
        r == clamp_low(p),
{
    if p < 0 {
        0
    } else {
        p
    }
}

fn pressure_failure(s: ArduinoState, prefix: &str, detail: &String) -> (r: ArduinoState)
    ensures
        r@ == pressure_failed(s@, prefix@, detail@),
{
    ArduinoState {
        connected: false,
        enabled: false,
        last_error: Some(failure_message(prefix, detail)),
        status: Some(owned("error")),
        ..s
    }
}

/// What the regulator's actor does for `cmd`: open or drop the transport;
/// while connected, write `ENABLE` at once and `SET_PSI` when regulation is on
/// (the setpoint is only recorded while it is off); refuse commands while disconnected.
pub fn pressure_plan(s: &ArduinoState, cmd: ArduinoCommand) -> (p: Plan)
    ensures
        cmd is Connect ==> p is Open,
        cmd is Disconnect ==> p is Close,
        p is Refuse <==> refuses(s.connected, cmd),
        cmd matches ArduinoCommand::Enable(on) ==> if s.connected {
            p matches Plan::Send(t) && t@ == enable_line(on)
        } else {
            p is Refuse
        },
        cmd matches ArduinoCommand::SetPressureSetpoint(v) ==> if !s.connected {
            p is Refuse
        } else if s.enabled {
            p matches Plan::Send(t) && t@ == setpoint_line(v)
        } else {
            p is Keep
        },
{
    match cmd {
        ArduinoCommand::Connect => Plan::Open,
        ArduinoCommand::Disconnect => Plan::Close,
        ArduinoCommand::Enable(on) => {
            if !s.connected {
                Plan::Refuse
            } else if on {
                Plan::Send(owned("ENABLE 1\n"))
            } else {
                Plan::Send(owned("ENABLE 0\n"))
            }
        },
        ArduinoCommand::SetPressureSetpoint(v) => {
            if !s.connected {
                Plan::Refuse
            } else if s.enabled {
                let mut t = owned("SET_PSI ");
                push_fixed(&mut t, clamp_exec(v), 2);
                t.append("\n");
                Plan::Send(t)
            } else {
                Plan::Keep
            }
        },
    }
}

/// The pressure record after `ev`.
pub fn pressure_step(s: ArduinoState, ev: PressureEvent) -> (r: ArduinoState)
    ensures
        r@ == pressure_next(s@, ev),
{
    match ev {
        PressureEvent::Queued(_, Err(e)) => ArduinoState {
            last_error: Some(queue_error_message(e)),
            ..s
        },
        PressureEvent::Queued(ArduinoCommand::Connect, Ok(())) => ArduinoState {
            last_error: None,
            status: Some(owned("connecting...")),
            ..s
        },
        PressureEvent::Queued(ArduinoCommand::Disconnect, Ok(())) => ArduinoState {
            status: Some(owned("disconnecting...")),
            ..s
        },
        PressureEvent::Queued(ArduinoCommand::Enable(on), Ok(())) => ArduinoState {
            last_error: None,
            enabled: on && s.connected,
            status: Some(enable_message(on)),
            ..s
        },
        PressureEvent::Queued(ArduinoCommand::SetPressureSetpoint(p), Ok(())) => ArduinoState {
            last_error: None,
            pressure_setpoint_psi: clamp_exec(p),
            ..s
        },
        PressureEvent::Refused(ArduinoCommand::SetPressureSetpoint(p)) => ArduinoState {
            pressure_setpoint_psi: clamp_exec(p),
            last_error: Some(not_connected_message()),
            ..s
        },
        PressureEvent::Refused(_) => ArduinoState {
            last_error: Some(not_connected_message()),
            ..s
        },
        PressureEvent::Kept(ArduinoCommand::SetPressureSetpoint(p)) => ArduinoState {
            pressure_setpoint_psi: clamp_exec(p),
            ..s
        },
        PressureEvent::Kept(_) => s,
        PressureEvent::Opened(Ok(())) => ArduinoState {
            connected: true,
            enabled: false,
            last_error: None,
            status: Some(owned("connected")),
            pressure_measured_psi: 0,
            loop_current_ma: None,
            signal_ok: None,
            ..s
        },
        PressureEvent::Opened(Err(e)) => ArduinoState {
            connected: false,
            enabled: false,
            last_error: Some(failure_message("serial open failed: ", &e)),
            status: Some(owned("error")),
            ..s
        },
        PressureEvent::Closed => ArduinoState {
            connected: false,
            enabled: false,
            status: Some(owned("disconnected")),
            pressure_measured_psi: 0,
            loop_current_ma: None,
            signal_ok: None,
            ..s
        },
        PressureEvent::Written(ArduinoCommand::Enable(on), Ok(())) => ArduinoState {
            enabled: on && s.connected,
            last_error: None,
            status: Some(enable_message(on)),
            ..s
        },
        PressureEvent::Written(ArduinoCommand::SetPressureSetpoint(p), Ok(())) => ArduinoState {
            pressure_setpoint_psi: clamp_exec(p),
            last_error: None,
            ..s
        },
        PressureEvent::Written(_, Ok(())) => s,
        PressureEvent::Written(_, Err(e)) => pressure_failure(s, "write failed: ", &e),
        PressureEvent::Polled(Ok(line)) => apply_line(s, line.as_str()),
        PressureEvent::Polled(Err(e)) => pressure_failure(s, "read failed: ", &e),
    }
}

} // verus!
