//! The load-testing client: its identity, the events it sends, and its send schedule.
//!
//! The client joins the lobby once and then, in a loop, draws a number from 0 to 100: below
//! 80 it sends a movement, otherwise it sends a shot, but only one shot ever; when the draw
//! asks for a second shot the iteration is skipped. Every sixth second it reports how many
//! messages it has sent.

use vstd::prelude::*;

use rand::Rng;
use rand::rngs::ThreadRng;

use crate::ids::{random_id_text, uuid_text, uuid_variant, uuid_version};
use crate::input_messages::game_event::Event;
use crate::input_messages::{Direction, GameEvent, Move, PlayerJoined, Shoot};

verus! {

#[verifier::external_type_specification]
#[verifier::external_body]
pub struct ExThreadRng(rand::rngs::ThreadRng);

/// `rand::thread_rng`: the thread's random number generator.
#[verifier::external_body]
fn thread_rng() -> ThreadRng {
    rand::thread_rng()
}

/// `Rng::gen_range(low..high)` on the thread's generator: per the crate's documentation, a
/// number at least `low` and below `high` (the crate panics on an empty range, which
/// `requires` leaves out). Which number comes is chance, and nothing more is claimed.
#[verifier::external_body]
fn gen_range(rng: &mut ThreadRng, low: i32, high: i32) -> (r: i32)
    requires
        low < high,
    ensures
        low <= r < high,
{
    rng.gen_range(low..high)
}

/// The x and y of a shot's direction: 3.0.
pub const SHOT_DIRECTION_XY: u64 = 0x4008_0000_0000_0000u64;

/// The z of a shot's direction: 1.0.
pub const SHOT_DIRECTION_Z: u64 = 0x3ff0_0000_0000_0000u64;

/// The x of a movement: 2.0.
pub const MOVE_DISTANCE_X: u64 = 0x4000_0000_0000_0000u64;

/// The y of a movement: 6.123456789.
pub const MOVE_DISTANCE_Y: u64 = 0x4018_7e6b_74dc_e58du64;

/// The draws below this send a movement; the others ask for a shot.
pub const MOVEMENT_THRESHOLD: i32 = 80i32;

/// A draw is at least 0 and below this.
pub const DRAW_BOUND: i32 = 101i32;

/// Statistics are reported on the seconds that are multiples of this.
pub const REPORT_PERIOD_SECS: u64 = 6u64;

/// A client's settings and identity.
#[derive(Clone, Debug)]
pub struct GameClient {
    pub rate_limit: i16,
    pub username: String,
    pub id: String,
}

impl GameClient {
    /// A fresh client named `test`, with no rate limit set and a random UUID as its id.
    pub fn new() -> (r: GameClient)
        ensures
            r.rate_limit == 0,
            r.username@ == "test"@,
            exists|u: u128| uuid_version(u) == 4 && uuid_variant(u) == 2 && r.id@ == uuid_text(u),
    {
        GameClient { rate_limit: 0, username: String::from_str("test"), id: random_id_text() }
    }

    /// Sets the rate limit and the username.
    pub fn configure_programmatically(&mut self, rate_limit: i16, username: String)
        ensures
            final(self).rate_limit == rate_limit,
            final(self).username == username,
            final(self).id == old(self).id,
    {
        self.username = username;
        self.rate_limit = rate_limit;
    }

    /// The event that joins this client to the lobby.
    pub fn join_event(&self) -> (r: GameEvent)
        ensures
            r == (GameEvent {
                event: Some(Event::Joined(PlayerJoined { id: self.id, username: self.username })),
            }),
    {
        let payload = PlayerJoined { id: self.id.clone(), username: self.username.clone() };
        GameEvent { event: Some(Event::Joined(payload)) }
    }
}

/// The event of a shot: direction (3.0, 3.0, 1.0).
pub open spec fn shot() -> GameEvent {
    GameEvent {
        event: Some(
            Event::Shoot(
                Shoot {
                    direction: Some(
                        Direction {
                            direction_x: SHOT_DIRECTION_XY,
                            direction_y: SHOT_DIRECTION_XY,
                            direction_z: SHOT_DIRECTION_Z,
                        },
                    ),
                },
            ),
        ),
    }
}

/// The event of a movement: by (2.0, 6.123456789).
pub open spec fn movement() -> GameEvent {
    GameEvent {
        event: Some(Event::Move(Move { distance_x: MOVE_DISTANCE_X, distance_y: MOVE_DISTANCE_Y })),
    }
}

/// The event that the client sends to shoot.
pub fn shoot_event() -> (r: GameEvent)
    ensures
        r == shot(),
{
    let payload = Shoot {
        direction: Some(
            Direction {
                direction_x: SHOT_DIRECTION_XY,
                direction_y: SHOT_DIRECTION_XY,
                direction_z: SHOT_DIRECTION_Z,
            },
        ),
    };
    GameEvent { event: Some(Event::Shoot(payload)) }
}

/// The event that the client sends to move.
pub fn movement_event() -> (r: GameEvent)
    ensures
        r == movement(),
{
    let payload = Move { distance_x: MOVE_DISTANCE_X, distance_y: MOVE_DISTANCE_Y };
    GameEvent { event: Some(Event::Move(payload)) }
}

/// What the client sends in one iteration.
#[derive(Clone, Copy, Debug, PartialEq, Eq, Structural)]
pub enum ClientSend {
    Movement,
    Shot,
}

/// The statistics the client prints: messages per second over the whole run, messages in
/// total, messages since the previous report, and whole seconds elapsed.
#[derive(Clone, Copy, Debug, PartialEq, Eq, Structural)]
pub struct Report {
    pub per_second: u64,
    pub total: u64,
    pub batch: i32,
    pub elapsed: u64,
}

/// What one iteration of the loop does: the message to send, if any, and then the
/// statistics to print, if any.
#[derive(Clone, Copy, Debug, PartialEq, Eq, Structural)]
pub struct SimStep {
    pub send: Option<ClientSend>,
    pub report: Option<Report>,
}

/// The counters and flags of the send loop.
#[derive(Clone, Copy, Debug, PartialEq, Eq, Structural)]
pub struct Simulation {
    pub sent_messages: u64,
    pub allow_print: bool,
    pub batch_messages: i32,
    pub last_sec: u64,
    pub second_messages: i32,
    pub send_messages: bool,
    pub created_shot: bool,
}

/// The counters can count one more message.
pub open spec fn can_count(s: Simulation) -> bool {
    s.sent_messages < u64::MAX && s.batch_messages < i32::MAX && s.second_messages < i32::MAX
}

/// The end of an iteration at second `secs`: the second is remembered, printing is
/// allowed again off the reporting seconds, and on a reporting second where printing is
/// allowed the statistics are reported and the batch count starts over.
pub open spec fn finish_iteration(s: Simulation, secs: u64, send: Option<ClientSend>) -> (
    Simulation,
    SimStep,
) {
    let s2 = Simulation { last_sec: secs, ..s };
    let s3 = if secs > 0 && secs % REPORT_PERIOD_SECS != 0 {
        Simulation { allow_print: true, ..s2 }
    } else {
        s2
    };
    if secs > 0 && secs % REPORT_PERIOD_SECS == 0 && s3.allow_print {
        (
            Simulation { allow_print: false, batch_messages: 0, ..s3 },
            SimStep {
                send,
                report: Some(
                    Report {
                        per_second: (s3.sent_messages / secs) as u64,
                        total: s3.sent_messages,
                        batch: s3.batch_messages,
                        elapsed: secs,
                    },
                ),
            },
        )
    } else {
        (s3, SimStep { send, report: None })
    }
}

/// A message is sent: every counter counts it, then the iteration ends.
pub open spec fn count_send(s: Simulation, secs: u64, send: ClientSend) -> (Simulation, SimStep) {
    finish_iteration(
        Simulation {
            sent_messages: (s.sent_messages + 1) as u64,
            batch_messages: (s.batch_messages + 1) as i32,
            second_messages: (s.second_messages + 1) as i32,
            ..s
        },
        secs,
        Some(send),
    )
}

/// One iteration of the send loop at second `secs` with draw `roll`: a new second lets
/// messages be sent again; then a draw below 80 sends a movement, a higher draw sends the
/// one shot or, when the shot has been sent, skips the rest of the iteration.
pub open spec fn step(s: Simulation, secs: u64, roll: i32) -> (Simulation, SimStep) {
    let s1 = if s.last_sec != secs {
        Simulation { send_messages: true, second_messages: 0, ..s }
    } else {
        s
    };
    if s1.send_messages {
        if roll < MOVEMENT_THRESHOLD {
            count_send(s1, secs, ClientSend::Movement)
        } else if s1.created_shot {
            (s1, SimStep { send: None, report: None })
        } else {
            count_send(Simulation { created_shot: true, ..s1 }, secs, ClientSend::Shot)
        }
    } else {
        finish_iteration(s1, secs, None)
    }
}

impl Simulation {
    /// The loop's state before its first iteration.
    pub fn new() -> (r: Simulation)
        ensures
            r == (Simulation {
                sent_messages: 0,
                allow_print: true,
                batch_messages: 0,
                last_sec: 0,
                second_messages: 0,
                send_messages: true,
                created_shot: false,
            }),
    {
        Simulation {
            sent_messages: 0,
            allow_print: true,
            batch_messages: 0,
            last_sec: 0,
            second_messages: 0,
            send_messages: true,
            created_shot: false,
        }
    }

    /// Whether the counters can count one more message.
    pub fn can_count(&self) -> (r: bool)
        ensures
            r == can_count(*self),
    {
        self.sent_messages < u64::MAX && self.batch_messages < i32::MAX && self.second_messages
            < i32::MAX
    }

    /// The end of an iteration at second `secs`.
    fn finish(&mut self, secs: u64, send: Option<ClientSend>) -> (r: SimStep)
        ensures
            (*final(self), r) == finish_iteration(*old(self), secs, send),
    {
        self.last_sec = secs;
        if secs > 0 && secs % REPORT_PERIOD_SECS != 0 {
            self.allow_print = true;
        }
        if secs > 0 && secs % REPORT_PERIOD_SECS == 0 && self.allow_print {
            let report = Report {
                per_second: self.sent_messages / secs,
                total: self.sent_messages,
                batch: self.batch_messages,
                elapsed: secs,
            };
            self.allow_print = false;
            self.batch_messages = 0;
            return SimStep { send, report: Some(report) };
        }
        SimStep { send, report: None }
    }

    /// One iteration of the send loop at second `secs` with the draw `roll`.
    pub fn advance(&mut self, secs: u64, roll: i32) -> (r: SimStep)
        requires
            can_count(*old(self)),
        ensures
            (*final(self), r) == step(*old(self), secs, roll),
    {
        if self.last_sec != secs {
            self.send_messages = true;
            self.second_messages = 0;
        }
        if self.send_messages {
            let send = if roll < MOVEMENT_THRESHOLD {
                ClientSend::Movement
            } else {
                if self.created_shot {
                    return SimStep { send: None, report: None };
                }
                self.created_shot = true;
                ClientSend::Shot
            };
            self.sent_messages = self.sent_messages + 1;
            self.batch_messages = self.batch_messages + 1;
            self.second_messages = self.second_messages + 1;
            return self.finish(secs, Some(send));
        }
        self.finish(secs, None)
    }

    /// One iteration of the send loop at second `secs`, drawing the number from the
    /// thread's random number generator when messages may be sent.
    pub fn next_step(&mut self, secs: u64) -> (r: SimStep)
        requires
            can_count(*old(self)),
        ensures
            exists|roll: i32|
                0 <= roll < DRAW_BOUND && (*final(self), r) == step(*old(self), secs, roll),
    {
        let roll: i32 = if self.last_sec != secs || self.send_messages {
            let mut rng = thread_rng();
            gen_range(&mut rng, 0, DRAW_BOUND)
        } else {
            0
        };
        self.advance(secs, roll)
    }
}

/// Once the shot has been sent no other shot is: every later iteration sends a movement or
/// nothing, and the shot stays sent.
pub proof fn lemma_one_shot_only(s: Simulation, secs: u64, roll: i32)
    requires
        s.created_shot,
    ensures
        step(s, secs, roll).1.send != Some(ClientSend::Shot),
        step(s, secs, roll).0.created_shot,
{
}

/// A shot is sent only by the first iteration that asks for one.
pub proof fn lemma_shot_marks_sent(s: Simulation, secs: u64, roll: i32)
    requires
        step(s, secs, roll).1.send == Some(ClientSend::Shot),
    ensures
        !s.created_shot,
        roll >= MOVEMENT_THRESHOLD,
        step(s, secs, roll).0.created_shot,
{
}

/// The total counts exactly the messages sent.
pub proof fn lemma_total_counts_sends(s: Simulation, secs: u64, roll: i32)
    requires
        can_count(s),
    ensures
        step(s, secs, roll).0.sent_messages == s.sent_messages + (if step(
            s,
            secs,
            roll,
        ).1.send is Some {
            1int
        } else {
            0int
        }),
{
}

/// A report comes on a reporting second, gives the whole-run rate, and is not repeated
/// within the same second.
pub proof fn lemma_report_once_per_period(s: Simulation, secs: u64, roll: i32, roll2: i32)
    requires
        can_count(s),
        step(s, secs, roll).1.report is Some,
    ensures
        ({
            let rep = step(s, secs, roll).1.report->0;
            &&& secs > 0 && secs % REPORT_PERIOD_SECS == 0
            &&& rep.elapsed == secs
            &&& rep.per_second == rep.total / secs
            &&& rep.total == step(s, secs, roll).0.sent_messages
        }),
        step(step(s, secs, roll).0, secs, roll2).1.report is None,
{
}

} // verus!
