//! The RF power source: its state record and the transitions of its actor and façade.
use vstd::prelude::*;
use vstd::string::*;

use crate::actor::{
    failure_message, not_connected_message, not_connected_text, queue_error_message,
    queue_error_text, Plan, QueueError,
};
use crate::decimal::{fixed_text, nat_text, push_fixed, push_nat};
use crate::text::{copy_text, owned, text_of};

verus! {

/// A command for the RF source's actor. Power is in milliwatts.
#[derive(Clone, Copy, Debug, PartialEq, Eq, Structural)]
pub enum MicrowaveCommand {
    Connect,
    Disconnect,
    RfOn,
    RfOff,
    SetPowerWatts(i64),
    SetFrequencyHz(i32),
}

/// Cached state of the RF source. Power is in milliwatts; the optional readings
/// are in thousandths of their units.
#[derive(Debug)]
pub struct MicrowaveState {
    pub connected: bool,
    pub enabled: bool,
    pub last_error: Option<String>,
    pub status: Option<String>,
    pub power_watts: i64,
    pub vswr: Option<i64>,
    pub forward_ratio: Option<i64>,
    pub temperature_c: Option<i64>,
}

/// The RF record as the contracts see it: texts as character sequences.
pub struct RfView {
    pub connected: bool,
    pub enabled: bool,
    pub last_error: Option<Seq<char>>,
    pub status: Option<Seq<char>>,
    pub power: i64,
    pub vswr: Option<i64>,
    pub forward_ratio: Option<i64>,
    pub temperature: Option<i64>,
}

impl View for MicrowaveState {
    type V = RfView;

    open spec fn view(&self) -> RfView {
        RfView {
            connected: self.connected,
            enabled: self.enabled,
            last_error: text_of(self.last_error),
            status: text_of(self.status),
            power: self.power_watts,
            vswr: self.vswr,
            forward_ratio: self.forward_ratio,
            temperature: self.temperature_c,
        }
    }
}

impl RfView {
    /// RF output is never on while the source is disconnected.
    pub open spec fn wf(self) -> bool {
        self.enabled ==> self.connected
    }
}

/// Something that changes the RF record.
#[derive(Debug)]
pub enum RfEvent {
    /// The façade tried to queue a command.
    Queued(MicrowaveCommand, Result<(), QueueError>),
    /// A command was refused because the source is not connected.
    Refused(MicrowaveCommand),
    /// Opening the transport finished.
    Opened(Result<(), String>),
    /// The transport was dropped on request.
    Closed,
    /// Writing a command finished.
    Written(MicrowaveCommand, Result<(), String>),
}

pub open spec fn clamp_power(w: i64) -> i64 {
    if w < 0 {
        0
    } else {
        w
    }
}

pub open spec fn int_text(v: int) -> Seq<char> {
    if v < 0 {
        "-"@ + nat_text((-v) as nat)
    } else {
        nat_text(v as nat)
    }
}

pub open spec fn power_status(w: i64) -> Seq<char> {
    "power "@ + fixed_text(clamp_power(w) as int, 1) + "W"@
}

pub open spec fn frequency_status(hz: i32) -> Seq<char> {
    "freq "@ + int_text(hz as int) + " Hz"@
}

/// How each event changes the RF record.
pub open spec fn rf_next(s: RfView, ev: RfEvent) -> RfView {
    match ev {
        RfEvent::Queued(_, Err(e)) => RfView { last_error: Some(queue_error_text(e)), ..s },
        RfEvent::Queued(MicrowaveCommand::Connect, Ok(())) => RfView {
            last_error: None,
            status: Some("connecting..."@),
            ..s
        },
        RfEvent::Queued(MicrowaveCommand::Disconnect, Ok(())) => RfView {
            status: Some("disconnecting..."@),
            ..s
        },
        RfEvent::Queued(MicrowaveCommand::RfOn, Ok(())) => RfView {
            last_error: None,
            enabled: s.connected,
            status: Some("RF on"@),
            ..s
        },
        RfEvent::Queued(MicrowaveCommand::RfOff, Ok(())) => RfView {
            last_error: None,
            enabled: false,
            status: Some("RF off"@),
            ..s
        },
        RfEvent::Queued(MicrowaveCommand::SetPowerWatts(w), Ok(())) => RfView {
            last_error: None,
            power: clamp_power(w),
            ..s
        },
        RfEvent::Queued(MicrowaveCommand::SetFrequencyHz(_), Ok(())) => RfView {
            last_error: None,
            ..s
        },
        RfEvent::Refused(_) => RfView { last_error: Some(not_connected_text()), ..s },
        RfEvent::Opened(Ok(())) => RfView {
            connected: true,
            enabled: false,
            last_error: None,
            status: Some("connected"@),
            ..s
        },
        RfEvent::Opened(Err(e)) => RfView {
            connected: false,
            enabled: false,
            last_error: Some("connect failed: "@ + e@),
            status: Some("error"@),
            ..s
        },
        RfEvent::Closed => RfView {
            connected: false,
            enabled: false,
            status: Some("disconnected"@),
            vswr: None,
            forward_ratio: None,
            temperature: None,
            ..s
        },
        RfEvent::Written(MicrowaveCommand::RfOn, Ok(())) => RfView {
            enabled: s.connected,
            last_error: None,
            status: Some("RF on"@),
            ..s
        },
        RfEvent::Written(MicrowaveCommand::RfOff, Ok(())) => RfView {
            enabled: false,
            last_error: None,
            status: Some("RF off"@),
            ..s
        },
        RfEvent::Written(MicrowaveCommand::SetPowerWatts(w), Ok(())) => RfView {
            power: clamp_power(w),
            last_error: None,
            status: Some(power_status(w)),
            ..s
        },
        RfEvent::Written(MicrowaveCommand::SetFrequencyHz(hz), Ok(())) => RfView {
            last_error: None,
            status: Some(frequency_status(hz)),
            ..s
        },
        RfEvent::Written(_, Ok(())) => s,
        RfEvent::Written(_, Err(e)) => RfView {
            connected: false,
            enabled: false,
            last_error: Some("write failed: "@ + e@),
            status: Some("error"@),
            ..s
        },
    }
}

/// Whether the RF actor refuses `cmd`: only commands for the source itself are
/// refused, and only while it is disconnected.
pub open spec fn rf_refuses(connected: bool, cmd: MicrowaveCommand) -> bool {
    !connected && !(cmd is Connect) && !(cmd is Disconnect)
}

/// After a disconnect, a command for the source itself is refused: the record
/// then holds the error "not connected" and is still disconnected.
pub proof fn lemma_rf_command_after_disconnect(s: RfView, cmd: MicrowaveCommand)
    requires
        !(cmd is Connect),
        !(cmd is Disconnect),
    ensures
        ({
            let d = rf_next(s, RfEvent::Closed);
            let r = rf_next(d, RfEvent::Refused(cmd));
            &&& rf_refuses(d.connected, cmd)
            &&& r.last_error == Some(not_connected_text())
            &&& r.connected == d.connected
        }),
{
}

/// A successful connect leaves the source connected with no error recorded.
pub proof fn lemma_rf_connect_clears_error(s: RfView)
    ensures
        rf_next(s, RfEvent::Opened(Ok(()))).last_error is None,
        rf_next(s, RfEvent::Opened(Ok(()))).connected,
{
}

/// The line that carries a command to the source.
pub open spec fn rf_line(cmd: MicrowaveCommand) -> Seq<char> {
    match cmd {
        MicrowaveCommand::RfOn => "RF_ON\n"@,
        MicrowaveCommand::RfOff => "RF_OFF\n"@,
        MicrowaveCommand::SetPowerWatts(w) => "SET_POWER "@ + fixed_text(clamp_power(w) as int, 1)
            + "\n"@,
        MicrowaveCommand::SetFrequencyHz(hz) => "SET_FREQ "@ + int_text(hz as int) + "\n"@,
        _ => seq![],
    }
}

impl Default for MicrowaveState {
    fn default() -> (r: Self)
        ensures
            r@ == (RfView {
                connected: false,
                enabled: false,
                last_error: None,
                status: None,
                power: 0,
                vswr: None,
                forward_ratio: None,
                temperature: None,
            }),
    {
        MicrowaveState::new()
    }
}

impl MicrowaveState {
    /// A disconnected source with RF off and no power commanded.
    pub fn new() -> (r: MicrowaveState)
        ensures
            r@ == (RfView {
                connected: false,
                enabled: false,
                last_error: None,
                status: None,
                power: 0,
                vswr: None,
                forward_ratio: None,
                temperature: None,
            }),
    {
        MicrowaveState {
            connected: false,
            enabled: false,
            last_error: None,
            status: None,
            power_watts: 0,
            vswr: None,
            forward_ratio: None,
            temperature_c: None,
        }
    }

    /// An independent copy of the record.
    pub fn snapshot(&self) -> (r: MicrowaveState)
        ensures
            r@ == self@,
    {
        MicrowaveState {
            status: copy_text(&self.status),
            last_error: copy_text(&self.last_error),
            ..*self
        }
    }
}

fn clamp_power_exec(w: i64) -> (r: i64)
    ensures
        r == clamp_power(w),
{
    if w < 0 {
        0
    } else {
        w
    }
}

fn push_int(out: &mut String, v: i32)
    ensures
        final(out)@ == old(out)@ + int_text(v as int),
{
    if v < 0 {
        out.append("-");
        let a: u64 = ((-(v as i64)) as u64);
        push_nat(out, a);
        assert(final(out)@ =~= old(out)@ + int_text(v as int));
    } else {
        push_nat(out, v as u64);
    }
}

fn power_message(w: i64) -> (r: String)
    ensures
        r@ == power_status(w),
{
    let mut t = owned("power ");
    push_fixed(&mut t, clamp_power_exec(w), 1);
    t.append("W");
    t
}

fn frequency_message(hz: i32) -> (r: String)
    ensures
        r@ == frequency_status(hz),
{
    let mut t = owned("freq ");
    push_int(&mut t, hz);
    t.append(" Hz");
    t
}

/// What the RF actor does for `cmd`: open or drop the transport, write the
/// command's line while connected, or refuse it while disconnected.
pub fn rf_plan(s: &MicrowaveState, cmd: MicrowaveCommand) -> (p: Plan)
    ensures
        cmd is Connect ==> p is Open,
        cmd is Disconnect ==> p is Close,
        p is Refuse <==> rf_refuses(s.connected, cmd),
        !(cmd is Connect) && !(cmd is Disconnect) && s.connected ==> (p matches Plan::Send(t)
            && t@ == rf_line(cmd)),
{
    match cmd {
        MicrowaveCommand::Connect => Plan::Open,
        MicrowaveCommand::Disconnect => Plan::Close,
        _ => {
            if !s.connected {
                Plan::Refuse
            } else {
                Plan::Send(rf_line_text(cmd))
            }
        },
    }
}

fn rf_line_text(cmd: MicrowaveCommand) -> (r: String)
    ensures
        r@ == rf_line(cmd),
{
    match cmd {
        MicrowaveCommand::RfOn => owned("RF_ON\n"),
        MicrowaveCommand::RfOff => owned("RF_OFF\n"),
        MicrowaveCommand::SetPowerWatts(w) => {
            let mut t = owned("SET_POWER ");
            push_fixed(&mut t, clamp_power_exec(w), 1);
            t.append("\n");
            t
        },
        MicrowaveCommand::SetFrequencyHz(hz) => {
            let mut t = owned("SET_FREQ ");
            push_int(&mut t, hz);
            t.append("\n");
            t
        },
        _ => String::new(),
    }
}

/// The RF record after `ev`.
pub fn rf_step(s: MicrowaveState, ev: RfEvent) -> (r: MicrowaveState)
    ensures
        r@ == rf_next(s@, ev),
{
    match ev {
        RfEvent::Queued(_, Err(e)) => MicrowaveState { last_error: Some(queue_error_message(e)), ..s },
        RfEvent::Queued(MicrowaveCommand::Connect, Ok(())) => MicrowaveState {
            last_error: None,
            status: Some(owned("connecting...")),
            ..s
        },
        RfEvent::Queued(MicrowaveCommand::Disconnect, Ok(())) => MicrowaveState {
            status: Some(owned("disconnecting...")),
            ..s
        },
        RfEvent::Queued(MicrowaveCommand::RfOn, Ok(())) => MicrowaveState {
            last_error: None,
            enabled: s.connected,
            status: Some(owned("RF on")),
            ..s
        },
        RfEvent::Queued(MicrowaveCommand::RfOff, Ok(())) => MicrowaveState {
            last_error: None,
            enabled: false,
            status: Some(owned("RF off")),
            ..s
        },
        RfEvent::Queued(MicrowaveCommand::SetPowerWatts(w), Ok(())) => MicrowaveState {
            last_error: None,
            power_watts: clamp_power_exec(w),
            ..s
        },
        RfEvent::Queued(MicrowaveCommand::SetFrequencyHz(_), Ok(())) => MicrowaveState {
            last_error: None,
            ..s
        },
        RfEvent::Refused(_) => MicrowaveState { last_error: Some(not_connected_message()), ..s },
        RfEvent::Opened(Ok(())) => MicrowaveState {
            connected: true,
            enabled: false,
            last_error: None,
            status: Some(owned("connected")),
            ..s
        },
        RfEvent::Opened(Err(e)) => MicrowaveState {
            connected: false,
            enabled: false,
            last_error: Some(failure_message("connect failed: ", &e)),
            status: Some(owned("error")),
            ..s
        },
        RfEvent::Closed => MicrowaveState {
            connected: false,
            enabled: false,
            status: Some(owned("disconnected")),
            vswr: None,
            forward_ratio: None,
            temperature_c: None,
            ..s
        },
        RfEvent::Written(MicrowaveCommand::RfOn, Ok(())) => MicrowaveState {
            enabled: s.connected,
            last_error: None,
            status: Some(owned("RF on")),
            ..s
        },
        RfEvent::Written(MicrowaveCommand::RfOff, Ok(())) => MicrowaveState {
            enabled: false,
            last_error: None,
            status: Some(owned("RF off")),
            ..s
        },
        RfEvent::Written(MicrowaveCommand::SetPowerWatts(w), Ok(())) => MicrowaveState {
            power_watts: clamp_power_exec(w),
            last_error: None,
            status: Some(power_message(w)),
            ..s
        },
        RfEvent::Written(MicrowaveCommand::SetFrequencyHz(hz), Ok(())) => MicrowaveState {
            last_error: None,
            status: Some(frequency_message(hz)),
            ..s
        },
        RfEvent::Written(_, Ok(())) => s,
        RfEvent::Written(_, Err(e)) => MicrowaveState {
            connected: false,
            enabled: false,
            last_error: Some(failure_message("write failed: ", &e)),
            status: Some(owned("error")),
            ..s
        },
    }
}

} // verus!
