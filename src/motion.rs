//! The motion stage: its state record, the move-code reading that updates the
//! commanded position, and the transitions of its actor and façade.
use vstd::prelude::*;
use vstd::string::*;

use crate::actor::{
    failure_message, not_connected_message, not_connected_text, queue_error_message,
    queue_error_text, Plan, QueueError,
};
use crate::decimal::{decimal_value, parse_decimal};
use crate::pressure::{lead_end, lead_len};
use crate::text::{
    chars_of, copy_text, find_key, find_text, is_space_char, joined, owned, str_eq, text_of, word_end,
    words,
};

verus! {

/// A command for the motion actor.
#[derive(Clone, Debug)]
pub enum DuetCommand {
    Connect,
    Disconnect,
    /// A motion code (`G0`, `G1`, `G28`, ...).
    SendGcode(String),
    /// An auxiliary machine command (`M...`).
    SendMCommand(String),
}

/// Cached state of the motion stage. Positions are in thousandths of a millimetre.
#[derive(Debug)]
pub struct DuetState {
    pub connected: bool,
    pub last_error: Option<String>,
    pub status: Option<String>,
    pub last_command: Option<String>,
    pub position: [i64; 3],
}

/// The motion record as the contracts see it: texts as character sequences.
pub struct MotionView {
    pub connected: bool,
    pub last_error: Option<Seq<char>>,
    pub status: Option<Seq<char>>,
    pub last_command: Option<Seq<char>>,
    pub position: Seq<i64>,
}

impl View for DuetState {
    type V = MotionView;

    open spec fn view(&self) -> MotionView {
        MotionView {
            connected: self.connected,
            last_error: text_of(self.last_error),
            status: text_of(self.status),
            last_command: text_of(self.last_command),
            position: self.position@,
        }
    }
}

/// A status report read back from the motion controller.
#[derive(Clone, Debug)]
pub struct MotionReport {
    /// The controller's status code, one letter as it was reported.
    pub code: String,
    /// Reported position, in thousandths of a millimetre.
    pub position: [i64; 3],
}

/// Something that changes the motion record.
#[derive(Debug)]
pub enum MotionEvent {
    /// The façade tried to queue a command.
    Queued(DuetCommand, Result<(), QueueError>),
    /// A command other than connect or disconnect arrived while disconnected.
    Refused,
    /// Opening the transport finished.
    Opened(Result<(), String>),
    /// The transport was dropped on request.
    Closed,
    /// Writing a command finished.
    Written(DuetCommand, Result<(), String>),
    /// A status poll finished.
    Polled(Result<MotionReport, String>),
}

/// The text of `G28` and friends is read in upper case.
pub uninterp spec fn upper_of(s: Seq<char>) -> Seq<char>;

/// Relies on `str::to_uppercase`: the upper-case form of a text depends on its
/// characters alone.
#[verifier::external_body]
fn uppercase(s: &str) -> (r: String)
    ensures
        r@ == upper_of(s@),
{
    s.to_uppercase()
}

pub open spec fn starts_with(s: Seq<char>, p: Seq<char>) -> bool {
    p.len() <= s.len() && s.take(p.len() as int) == p
}

pub open spec fn axis_of(c: char) -> int {
    if c == 'X' {
        0
    } else if c == 'Y' {
        1
    } else if c == 'Z' {
        2
    } else {
        -1
    }
}

/// One word of a move: `X<v>`, `Y<v>` or `Z<v>` sets that axis when `<v>` is a decimal.
pub open spec fn apply_word(pos: Seq<i64>, w: Seq<char>) -> Seq<i64> {
    if w.len() > 0 && 0 <= axis_of(w[0]) && decimal_value(w.skip(1)) is Some {
        pos.update(axis_of(w[0]), decimal_value(w.skip(1))->0 as i64)
    } else {
        pos
    }
}

pub open spec fn apply_words(pos: Seq<i64>, ws: Seq<Seq<char>>) -> Seq<i64>
    decreases ws.len(),
{
    if ws.len() == 0 {
        pos
    } else {
        apply_words(apply_word(pos, ws[0]), ws.skip(1))
    }
}

/// Commanded position after the upper-case motion code `g`: `G28` homes all
/// axes, `G0`/`G1` move the axes their words name, anything else moves nothing.
pub open spec fn position_after(pos: Seq<i64>, g: Seq<char>) -> Seq<i64> {
    if starts_with(g, "G28"@) {
        seq![0i64, 0i64, 0i64]
    } else if starts_with(g, "G0"@) || starts_with(g, "G1"@) {
        apply_words(pos, words(g))
    } else {
        pos
    }
}

/// Human-readable status for a controller status code.
pub open spec fn status_text(code: Seq<char>) -> Seq<char> {
    if code == "I"@ {
        "idle"@
    } else if code == "P"@ {
        "processing"@
    } else if code == "S"@ {
        "stopped"@
    } else if code == "H"@ {
        "halted"@
    } else if code == "D"@ {
        "pausing"@
    } else {
        code
    }
}

/// The record after the motion code `cmd` (upper case: `g`) was written.
pub open spec fn motion_written(s: MotionView, cmd: Seq<char>, g: Seq<char>) -> MotionView {
    MotionView {
        last_error: None,
        last_command: Some(cmd),
        status: Some("idle"@),
        position: position_after(s.position, g),
        ..s
    }
}

/// The record after an I/O failure on the transport.
pub open spec fn motion_failed(s: MotionView, prefix: Seq<char>, detail: Seq<char>) -> MotionView {
    MotionView {
        connected: false,
        last_error: Some(prefix + detail),
        status: Some("error"@),
        ..s
    }
}

/// How each event changes the motion record.
pub open spec fn motion_next(s: MotionView, ev: MotionEvent) -> MotionView {
    match ev {
        MotionEvent::Queued(cmd, Err(e)) => MotionView { last_error: Some(queue_error_text(e)), ..s },
        MotionEvent::Queued(DuetCommand::Connect, Ok(())) => MotionView {
            last_error: None,
            status: Some("connecting..."@),
            ..s
        },
        MotionEvent::Queued(DuetCommand::Disconnect, Ok(())) => MotionView {
            status: Some("disconnecting..."@),
            ..s
        },
        MotionEvent::Queued(DuetCommand::SendGcode(c), Ok(())) => MotionView {
            last_error: None,
            last_command: Some(c@),
            ..s
        },
        MotionEvent::Queued(DuetCommand::SendMCommand(c), Ok(())) => MotionView {
            last_error: None,
            last_command: Some(c@),
            ..s
        },
        MotionEvent::Refused => MotionView { last_error: Some(not_connected_text()), ..s },
        MotionEvent::Opened(Ok(())) => MotionView {
            connected: true,
            last_error: None,
            status: Some("connected"@),
            ..s
        },
        MotionEvent::Opened(Err(e)) => MotionView {
            connected: false,
            last_error: Some("connect failed: "@ + e@),
            status: Some("disconnected"@),
            ..s
        },
        MotionEvent::Closed => MotionView {
            connected: false,
            status: Some("disconnected"@),
            ..s
        },
        MotionEvent::Written(DuetCommand::SendGcode(c), Ok(())) => motion_written(
            s,
            c@,
            upper_of(c@),
        ),
        MotionEvent::Written(DuetCommand::SendMCommand(c), Ok(())) => MotionView {
            last_error: None,
            last_command: Some(c@),
            status: Some("idle"@),
            ..s
        },
        MotionEvent::Written(_, Err(e)) => motion_failed(s, "I/O error: "@, e@),
        MotionEvent::Written(_, Ok(())) => s,
        MotionEvent::Polled(Ok(r)) => MotionView {
            last_error: None,
            status: Some(status_text(r.code@)),
            position: r.position@,
            ..s
        },
        MotionEvent::Polled(Err(e)) => motion_failed(s, "poll failed: "@, e@),
    }
}

/// Whether the motion actor refuses `cmd`: only commands for the stage itself
/// are refused, and only while it is disconnected.
pub open spec fn motion_refuses(connected: bool, cmd: DuetCommand) -> bool {
    !connected && !(cmd is Connect) && !(cmd is Disconnect)
}

/// After a disconnect, a command for the stage itself is refused: the record
/// then holds the error "not connected" and is still disconnected.
pub proof fn lemma_motion_command_after_disconnect(s: MotionView, cmd: DuetCommand)
    requires
        !(cmd is Connect),
        !(cmd is Disconnect),
    ensures
        ({
            let d = motion_next(s, MotionEvent::Closed);
            let r = motion_next(d, MotionEvent::Refused);
            &&& motion_refuses(d.connected, cmd)
            &&& r.last_error == Some(not_connected_text())
            &&& r.connected == d.connected
        }),
{
}

/// A successful connect leaves the stage connected with no error recorded.
pub proof fn lemma_motion_connect_clears_error(s: MotionView)
    ensures
        motion_next(s, MotionEvent::Opened(Ok(()))).last_error is None,
        motion_next(s, MotionEvent::Opened(Ok(()))).connected,
{
}

/// The line written for a command to the stage: its text and a newline.
pub open spec fn motion_line(cmd: DuetCommand) -> Seq<char> {
    match cmd {
        DuetCommand::SendGcode(c) => c@ + "\n"@,
        DuetCommand::SendMCommand(c) => c@ + "\n"@,
        _ => seq![],
    }
}

impl Default for DuetState {
    fn default() -> (r: Self)
        ensures
            r@ == (MotionView {
                connected: false,
                last_error: None,
                status: None,
                last_command: None,
                position: seq![0i64, 0i64, 0i64],
            }),
    {
        DuetState::new()
    }
}

impl DuetState {
    /// A disconnected stage at the origin.
    pub fn new() -> (r: DuetState)
        ensures
            r@ == (MotionView {
                connected: false,
                last_error: None,
                status: None,
                last_command: None,
                position: seq![0i64, 0i64, 0i64],
            }),
    {
        let r = DuetState {
            connected: false,
            last_error: None,
            status: None,
            last_command: None,
            position: [0, 0, 0],
        };
        assert(r.position@ =~= seq![0i64, 0i64, 0i64]);
        r
    }

    /// An independent copy of the record.
    pub fn snapshot(&self) -> (r: DuetState)
        ensures
            r@ == self@,
    {
        DuetState {
            connected: self.connected,
            last_error: copy_text(&self.last_error),
            status: copy_text(&self.status),
            last_command: copy_text(&self.last_command),
            position: self.position,
        }
    }
}

/// Commanded position after the words of `g[i..]`, starting from `pos`.
fn apply_move_words(pos: [i64; 3], g: &Vec<char>) -> (r: [i64; 3])
    ensures
        r@ == apply_words(pos@, words(g@)),
{
    let mut cur = pos;
    let mut i: usize = 0;
    assert(g@.skip(0) =~= g@);
    while i < g.len()
        invariant
            i <= g.len(),
            apply_words(pos@, words(g@)) == apply_words(cur@, words(g@.skip(i as int))),
        decreases g.len() - i,
    {
        let ghost rest = g@.skip(i as int);
        assert(rest[0] == g@[i as int]);
        if is_space_char(g[i]) {
            assert(rest.skip(1) =~= g@.skip(i + 1));
            i = i + 1;
        } else {
            let e = word_end(g, i);
            let ghost w = g@.subrange(i as int, e as int);
            assert(rest.take(e - i) =~= w);
            assert(rest.skip(e - i) =~= g@.skip(e as int));
            let ghost ws = words(rest);
            assert(ws[0] == w);
            assert(ws.skip(1) =~= words(g@.skip(e as int)));
            let c = g[i];
            let axis: usize = if c == 'X' {
                0
            } else if c == 'Y' {
                1
            } else if c == 'Z' {
                2
            } else {
                3
            };
            if axis < 3 {
                assert(w.skip(1) =~= g@.subrange(i + 1, e as int));
                match parse_decimal(g, i + 1, e) {
                    Some(v) => {
                        let next = if axis == 0 {
                            [v, cur[1], cur[2]]
                        } else if axis == 1 {
                            [cur[0], v, cur[2]]
                        } else {
                            [cur[0], cur[1], v]
                        };
                        assert(next@ =~= apply_word(cur@, w));
                        cur = next;
                    },
                    None => {},
                }
            }
            i = e;
        }
    }
    assert(g@.skip(i as int).len() == 0);
    cur
}

fn starts_with_text(g: &Vec<char>, p: &str) -> (r: bool)
    ensures
        r == starts_with(g@, p@),
{
    let pc = chars_of(p);
    if pc.len() > g.len() {
        return false;
    }
    let mut i: usize = 0;
    while i < pc.len()
        invariant
            pc@ == p@,
            pc.len() <= g.len(),
            i <= pc.len(),
            g@.take(i as int) == pc@.take(i as int),
        decreases pc.len() - i,
    {
        if g[i] != pc[i] {
            assert(g@.take(pc.len() as int)[i as int] == g@[i as int]);
            return false;
        }
        i = i + 1;
        assert(g@.take(i as int) =~= pc@.take(i as int));
    }
    assert(pc@.take(i as int) =~= pc@);
    true
}

/// Commanded position after a motion code that is already in upper case.
pub fn position_after_code(pos: [i64; 3], g: &str) -> (r: [i64; 3])
    ensures
        r@ == position_after(pos@, g@),
{
    let gc = chars_of(g);
    if starts_with_text(&gc, "G28") {
        let r: [i64; 3] = [0, 0, 0];
        assert(r@ =~= seq![0i64, 0i64, 0i64]);
        r
    } else if starts_with_text(&gc, "G0") || starts_with_text(&gc, "G1") {
        apply_move_words(pos, &gc)
    } else {
        pos
    }
}

/// The record after the motion code `cmd`, whose upper-case form is `g`, was written.
pub fn apply_written_code(s: DuetState, cmd: &String, g: &str) -> (r: DuetState)
    ensures
        r@ == motion_written(s@, cmd@, g@),
{
    let position = position_after_code(s.position, g);
    DuetState {
        last_error: None,
        last_command: Some(cmd.clone()),
        status: Some(owned("idle")),
        position,
        ..s
    }
}

fn status_message(code: &String) -> (r: String)
    ensures
        r@ == status_text(code@),
{
    let c = code.as_str();
    if str_eq(c, "I") {
        owned("idle")
    } else if str_eq(c, "P") {
        owned("processing")
    } else if str_eq(c, "S") {
        owned("stopped")
    } else if str_eq(c, "H") {
        owned("halted")
    } else if str_eq(c, "D") {
        owned("pausing")
    } else {
        code.clone()
    }
}

fn motion_failure(s: DuetState, prefix: &str, detail: &String) -> (r: DuetState)
    ensures
        r@ == motion_failed(s@, prefix@, detail@),
{
    DuetState {
        connected: false,
        last_error: Some(failure_message(prefix, detail)),
        status: Some(owned("error")),
        ..s
    }
}

/// What the motion actor does for `cmd`: open or drop the transport, write the
/// command as one line while connected, or refuse it while disconnected.
pub fn motion_plan(s: &DuetState, cmd: &DuetCommand) -> (p: Plan)
    ensures
        cmd is Connect ==> p is Open,
        cmd is Disconnect ==> p is Close,
        p is Refuse <==> motion_refuses(s.connected, *cmd),
        !(cmd is Connect) && !(cmd is Disconnect) && s.connected ==> (p matches Plan::Send(t)
            && t@ == motion_line(*cmd)),
{
    match cmd {
        DuetCommand::Connect => Plan::Open,
        DuetCommand::Disconnect => Plan::Close,
        DuetCommand::SendGcode(c) | DuetCommand::SendMCommand(c) => {
            if s.connected {
                Plan::Send(joined(c.as_str(), "\n"))
            } else {
                Plan::Refuse
            }
        },
    }
}

/// The motion record after `ev`.
pub fn motion_step(s: DuetState, ev: MotionEvent) -> (r: DuetState)
    ensures
        r@ == motion_next(s@, ev),
{
    match ev {
        MotionEvent::Queued(_, Err(e)) => DuetState { last_error: Some(queue_error_message(e)), ..s },
        MotionEvent::Queued(DuetCommand::Connect, Ok(())) => DuetState {
            last_error: None,
            status: Some(owned("connecting...")),
            ..s
        },
        MotionEvent::Queued(DuetCommand::Disconnect, Ok(())) => DuetState {
            status: Some(owned("disconnecting...")),
            ..s
        },
        MotionEvent::Queued(DuetCommand::SendGcode(c), Ok(())) => DuetState {
            last_error: None,
            last_command: Some(c),
            ..s
        },
        MotionEvent::Queued(DuetCommand::SendMCommand(c), Ok(())) => DuetState {
            last_error: None,
            last_command: Some(c),
            ..s
        },
        MotionEvent::Refused => DuetState { last_error: Some(not_connected_message()), ..s },
        MotionEvent::Opened(Ok(())) => DuetState {
            connected: true,
            last_error: None,
            status: Some(owned("connected")),
            ..s
        },
        MotionEvent::Opened(Err(e)) => DuetState {
            connected: false,
            last_error: Some(failure_message("connect failed: ", &e)),
            status: Some(owned("disconnected")),
            ..s
        },
        MotionEvent::Closed => DuetState {
            connected: false,
            status: Some(owned("disconnected")),
            ..s
        },
        MotionEvent::Written(DuetCommand::SendGcode(c), Ok(())) => {
            let g = uppercase(c.as_str());
            apply_written_code(s, &c, g.as_str())
        },
        MotionEvent::Written(DuetCommand::SendMCommand(c), Ok(())) => DuetState {
            last_error: None,
            last_command: Some(c),
            status: Some(owned("idle")),
            ..s
        },
        MotionEvent::Written(_, Err(e)) => motion_failure(s, "I/O error: ", &e),
        MotionEvent::Written(_, Ok(())) => s,
        MotionEvent::Polled(Ok(rep)) => DuetState {
            last_error: None,
            status: Some(status_message(&rep.code)),
            position: rep.position,
            ..s
        },
        MotionEvent::Polled(Err(e)) => motion_failure(s, "poll failed: ", &e),
    }
}

/// End of the number that starts at `i`: its run of digits, points and signs.
pub open spec fn number_end(s: Seq<char>, i: int) -> int {
    i + lead_len(s.skip(i), true)
}

pub open spec fn number_at(s: Seq<char>, i: int) -> Option<int> {
    decimal_value(s.subrange(i, number_end(s, i)))
}

/// Three numbers from `i` on, separated by commas and closed by `]`.
pub open spec fn coords_at(s: Seq<char>, i: int) -> Option<Seq<i64>> {
    let e0 = number_end(s, i);
    let e1 = number_end(s, e0 + 1);
    let e2 = number_end(s, e1 + 1);
    if e0 < s.len() && s[e0] == ',' && e1 < s.len() && s[e1] == ',' && e2 < s.len() && s[e2]
        == ']' && number_at(s, i) is Some && number_at(s, e0 + 1) is Some && number_at(
        s,
        e1 + 1,
    ) is Some {
        Some(
            seq![
                number_at(s, i)->0 as i64,
                number_at(s, e0 + 1)->0 as i64,
                number_at(s, e1 + 1)->0 as i64,
            ],
        )
    } else {
        None
    }
}

/// The status code and position in a controller status reply: the character
/// after the first `"status":"` and the three numbers after the first `"pos":[`.
pub open spec fn report_of(line: Seq<char>) -> Option<(Seq<char>, Seq<i64>)> {
    match (find_text(line, "\"status\":\""@), find_text(line, "\"pos\":["@)) {
        (Some(p), Some(q)) => {
            let c = p + 10;
            if c < line.len() {
                match coords_at(line, q + 7) {
                    Some(xyz) => Some((line.subrange(c, c + 1), xyz)),
                    None => None,
                }
            } else {
                None
            }
        },
        _ => None,
    }
}

fn number_exec(t: &Vec<char>, i: usize) -> (r: (Option<i64>, usize))
    requires
        i <= t.len(),
    ensures
        r.1 == number_end(t@, i as int),
        r.1 <= t.len(),
        r.0 matches Some(v) ==> number_at(t@, i as int) == Some(v as int),
        r.0 is None ==> number_at(t@, i as int) is None,
{
    let e = lead_end(t, i, true);
    (parse_decimal(t, i, e), e)
}

fn coords_exec(t: &Vec<char>, i: usize) -> (r: Option<[i64; 3]>)
    requires
        i <= t.len(),
    ensures
        r matches Some(a) ==> coords_at(t@, i as int) == Some(a@),
        r is None ==> coords_at(t@, i as int) is None,
{
    let (x, e0) = number_exec(t, i);
    if e0 >= t.len() || t[e0] != ',' {
        return None;
    }
    let (y, e1) = number_exec(t, e0 + 1);
    if e1 >= t.len() || t[e1] != ',' {
        return None;
    }
    let (z, e2) = number_exec(t, e1 + 1);
    if e2 >= t.len() || t[e2] != ']' {
        return None;
    }
    match (x, y, z) {
        (Some(x), Some(y), Some(z)) => {
            let a = [x, y, z];
            assert(a@ =~= seq![x, y, z]);
            Some(a)
        },
        _ => None,
    }
}

/// Reads a status reply of the motion controller, such as
/// `{"status":"I","pos":[10.000,-2.500,0.000]}`.
#[verifier::rlimit(40)]
pub fn parse_motion_report(line: &str) -> (r: Option<MotionReport>)
    ensures
        r matches Some(rep) ==> report_of(line@) == Some((rep.code@, rep.position@)),
        r is None ==> report_of(line@) is None,
{
    let t = chars_of(line);
    proof {
        reveal_strlit("\"status\":\"");
        reveal_strlit("\"pos\":[");
    }
    let p = match find_key(&t, "\"status\":\"") {
        Some(p) => p,
        None => {
            return None;
        },
    };
    let q = match find_key(&t, "\"pos\":[") {
        Some(q) => q,
        None => {
            return None;
        },
    };
    let n = t.len();
    assert(p + 10 <= n && q + 7 <= n);
    let c = p + 10;
    if c >= n {
        return None;
    }
    let position = match coords_exec(&t, q + 7) {
        Some(a) => a,
        None => {
            return None;
        },
    };
    let code = owned(line.substring_char(c, c + 1));
    assert(report_of(line@) == Some((code@, position@)));
    Some(MotionReport { code, position })
}

} // verus!
