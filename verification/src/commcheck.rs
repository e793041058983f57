use vstd::prelude::*;

verus! {

/// The body of the heartbeat message that a communication-checking agent sends.
pub const COMMCHK: &'static str = "COMMCHK";

/// `<String as PartialEq<str>>::eq`: whether `a` holds the same text as `b`.
#[verifier::external_body]
fn string_eq_str(a: &String, b: &str) -> (res: bool)
    ensures
        res == (a@ == b@),
{
    a == b
}

/// What the master thread of a communication check observes in one round.
pub enum MonitorEvent {
    /// A message with this body arrived from the agent.
    Received(String),
    /// Nothing arrived; `elapsed_ms` milliseconds (truncated toward zero) have
    /// passed since the last message.
    Silent { elapsed_ms: i64 },
}

/// The outcome of one round of a communication check.
#[derive(Clone, Copy, Debug, PartialEq, Eq, Structural)]
pub struct MonitorStep {
    /// Whether the agent is now considered online.
    pub online: bool,
    /// Whether that differs from before, which is logged.
    pub changed: bool,
    /// Whether the agent is kept online only because its silence is within
    /// the tolerance for network delays.
    pub delayed: bool,
}

/// The silence, in milliseconds, that an online agent is allowed: one
/// heartbeat and two seconds of tolerance for accumulated network delays.
pub open spec fn tolerance_ms(heart_beat: u64) -> int {
    (heart_beat + 2) * 1000
}

/// The largest heartbeat whose tolerance window can be measured: beyond it the
/// window in seconds overflows or leaves the range of a `chrono::Duration`
/// (`i64::MAX / 1000` seconds).
pub const MAX_HEART_BEAT: u64 = 9223372036854773;

/// Whether the agent is online after `event`: a heartbeat message keeps or
/// brings it online, any other message takes it offline, and silence keeps an
/// online agent online only within the tolerance window.
pub open spec fn online_after(online: bool, event: MonitorEvent, heart_beat: u64) -> bool {
    match event {
        MonitorEvent::Received(body) => body@ == COMMCHK@,
        MonitorEvent::Silent { elapsed_ms } => online && elapsed_ms < tolerance_ms(heart_beat),
    }
}

/// One round of the master thread of a communication check, with `online` the
/// state before it.
pub fn monitor_step(online: bool, event: &MonitorEvent, heart_beat: u64) -> (res: MonitorStep)
    requires
        (online && event is Silent) ==> heart_beat <= MAX_HEART_BEAT,
    ensures
        res.online == online_after(online, *event, heart_beat),
        event matches MonitorEvent::Silent { elapsed_ms } ==> res.online == (online && elapsed_ms
            < (heart_beat + 2) * 1000),
        event matches MonitorEvent::Received(body) ==> res.online == (body@ == COMMCHK@),
        res.changed == (online != res.online),
        res.delayed == (online && event is Silent && res.online),
{
    let (next, delayed) = match event {
        MonitorEvent::Received(body) => (string_eq_str(body, COMMCHK), false),
        MonitorEvent::Silent { elapsed_ms } => {
            if online {
                let window_ms: i64 = (heart_beat as i64 + 2) * 1000;
                if *elapsed_ms < window_ms {
                    (true, true)
                } else {
                    (false, false)
                }
            } else {
                (false, false)
            }
        },
    };
    MonitorStep { online: next, changed: online != next, delayed }
}

/// The tolerance window: an online agent that has been silent for
/// `elapsed_ms` milliseconds stays online exactly while `elapsed_ms` is below
/// its heartbeat plus two seconds; silence never brings an offline agent
/// online; a message brings or keeps the agent online exactly when it is the
/// heartbeat `COMMCHK`, whatever the state before.
pub proof fn lemma_monitor_window(online: bool, elapsed_ms: i64, heart_beat: u64, body: String)
    requires
        heart_beat <= MAX_HEART_BEAT,
    ensures
        online_after(true, MonitorEvent::Silent { elapsed_ms }, heart_beat) <==> elapsed_ms < (
        heart_beat + 2) * 1000,
        !online_after(false, MonitorEvent::Silent { elapsed_ms }, heart_beat),
        online_after(online, MonitorEvent::Received(body), heart_beat) <==> body@ == COMMCHK@,
        elapsed_ms < 2000 ==> online_after(true, MonitorEvent::Silent { elapsed_ms }, heart_beat),
        (heart_beat + 2) * 1000 <= elapsed_ms ==> !online_after(
            true,
            MonitorEvent::Silent { elapsed_ms },
            heart_beat,
        ),
{
}

} // verus!
