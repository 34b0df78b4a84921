//! The sending side of the alert protocol: when a verdict is critical, one
//! request goes out, and whatever comes back ends the attempt.

use crate::analysis::{neutral_verdict, verdict_for, weighted_sum, OVERALL_CRITICAL};
use crate::metrics::{MetricStatus, Metrics, SCALE};
use crate::types::{Event, EventAck, ICUStatus};
use vstd::prelude::*;
use vstd::string::*;

verus! {

/// Longest time, in seconds, that a request may wait for its answer.
pub const REQUEST_TIMEOUT_SECS: u64 = 60;

/// The character of a decimal digit.
pub open spec fn digit_char(d: int) -> char {
    if d == 0 {
        '0'
    } else if d == 1 {
        '1'
    } else if d == 2 {
        '2'
    } else if d == 3 {
        '3'
    } else if d == 4 {
        '4'
    } else if d == 5 {
        '5'
    } else if d == 6 {
        '6'
    } else if d == 7 {
        '7'
    } else if d == 8 {
        '8'
    } else {
        '9'
    }
}

/// `n` in decimal, without leading zeros.
pub open spec fn decimal(n: nat) -> Seq<char>
    decreases n,
{
    if n < 10 {
        seq![digit_char(n as int)]
    } else {
        decimal(n / 10).push(digit_char((n % 10) as int))
    }
}

/// A reading in hundredths of its unit, rounded to the nearest, halves up.
pub open spec fn hundredths(value: u64) -> nat {
    ((value + 5_000) / 10_000) as nat
}

/// A reading written with two decimals, as in `12.50`.
pub open spec fn reading_text(value: u64) -> Seq<char> {
    let h = hundredths(value);
    decimal(h / 100) + seq!['.', digit_char((h / 10 % 10) as int), digit_char((h % 10) as int)]
}

/// The payload of the alert for `verdict`.
pub open spec fn alert_text(verdict: Metrics) -> Seq<char> {
    "Critical status detected: CPU: "@ + reading_text(verdict.cpu.value) + ", RAM: "@
        + reading_text(verdict.ram.value) + ", Disk: "@ + reading_text(verdict.disk.value)
        + ", Network: "@ + reading_text(verdict.network.value)
}

/// The subject of every alert.
pub open spec fn alert_subject() -> Seq<char> {
    "CriticalAlert"@
}

fn digit_str(d: u64) -> (s: &'static str)
    requires
        d < 10,
    ensures
        s@ == seq![digit_char(d as int)],
{
    proof {
        reveal_strlit("0");
        reveal_strlit("1");
        reveal_strlit("2");
        reveal_strlit("3");
        reveal_strlit("4");
        reveal_strlit("5");
        reveal_strlit("6");
        reveal_strlit("7");
        reveal_strlit("8");
        reveal_strlit("9");
    }
    let s = if d == 0 {
        "0"
    } else if d == 1 {
        "1"
    } else if d == 2 {
        "2"
    } else if d == 3 {
        "3"
    } else if d == 4 {
        "4"
    } else if d == 5 {
        "5"
    } else if d == 6 {
        "6"
    } else if d == 7 {
        "7"
    } else if d == 8 {
        "8"
    } else {
        "9"
    };
    assert(s@ =~= seq![digit_char(d as int)]);
    s
}

fn append_decimal(out: &mut String, n: u64)
    ensures
        final(out)@ == old(out)@ + decimal(n as nat),
    decreases n,
{
    if n >= 10 {
        append_decimal(out, n / 10);
    }
    out.append(digit_str(n % 10));
    assert(out@ =~= old(out)@ + decimal(n as nat));
}

fn append_reading(out: &mut String, value: u64)
    ensures
        final(out)@ == old(out)@ + reading_text(value),
{
    let h: u64 = value / 10_000 + if value % 10_000 >= 5_000 {
        1
    } else {
        0
    };
    assert(h == hundredths(value));
    append_decimal(out, h / 100);
    out.append(".");
    out.append(digit_str(h / 10 % 10));
    out.append(digit_str(h % 10));
    proof {
        reveal_strlit(".");
        assert(out@ =~= old(out)@ + reading_text(value));
    }
}

/// Writes a reading with two decimals.
pub fn format_reading(value: u64) -> (text: String)
    ensures
        text@ == reading_text(value),
{
    let mut text = String::new();
    append_reading(&mut text, value);
    assert(text@ =~= reading_text(value));
    text
}

/// Writes the payload of the alert for `verdict`: a summary that names the
/// four readings.
pub fn alert_payload(verdict: &Metrics) -> (payload: String)
    ensures
        payload@ == alert_text(*verdict),
{
    let mut payload = String::from_str("Critical status detected: CPU: ");
    append_reading(&mut payload, verdict.cpu.value);
    payload.append(", RAM: ");
    append_reading(&mut payload, verdict.ram.value);
    payload.append(", Disk: ");
    append_reading(&mut payload, verdict.disk.value);
    payload.append(", Network: ");
    append_reading(&mut payload, verdict.network.value);
    payload
}

/// Where an alert attempt stands. `Acked`, `TimedOut` and `TransportFailed`
/// are final.
#[derive(Clone, Copy, Debug, PartialEq, Eq, Structural)]
pub enum AlertState {
    Idle,
    Sent,
    Acked,
    TimedOut,
    TransportFailed,
}

impl AlertState {
    /// Whether the attempt is over.
    pub open spec fn is_final(self) -> bool {
        self == AlertState::Acked || self == AlertState::TimedOut || self
            == AlertState::TransportFailed
    }

    /// Whether the attempt is over.
    pub fn is_terminal(&self) -> (over: bool)
        ensures
            over == self.is_final(),
    {
        match self {
            AlertState::Acked | AlertState::TimedOut | AlertState::TransportFailed => true,
            AlertState::Idle | AlertState::Sent => false,
        }
    }
}

/// What came back for a request that was sent.
#[derive(Debug, PartialEq, Eq)]
pub enum AlertReply {
    /// The receiver answered.
    Ack(EventAck),
    /// No answer arrived in time.
    Timeout,
    /// The request or its answer was lost; the text says how.
    TransportError(String),
}

impl AlertReply {
    /// The state in which this reply leaves the attempt.
    pub open spec fn outcome(self) -> AlertState {
        match self {
            AlertReply::Ack(_) => AlertState::Acked,
            AlertReply::Timeout => AlertState::TimedOut,
            AlertReply::TransportError(_) => AlertState::TransportFailed,
        }
    }

    /// Whether this reply means that the alert was not delivered: anything
    /// but an acknowledgement of success.
    pub open spec fn is_failure(self) -> bool {
        match self {
            AlertReply::Ack(ack) => ack.status != ICUStatus::Success,
            _ => true,
        }
    }

    /// The line to log for this reply.
    pub open spec fn log_text(self) -> Seq<char> {
        match self {
            AlertReply::Ack(ack) => if ack.status == ICUStatus::Success {
                "Sent alert: "@ + ack.payload@
            } else {
                "Failed to send alert: "@ + ack.payload@
            },
            AlertReply::Timeout => "Failed to send alert: "@ + "Timeout waiting for reply"@,
            AlertReply::TransportError(reason) => "Failed to send alert: "@ + reason@,
        }
    }
}

/// What to log when an attempt ends. None of it stops the monitor.
#[derive(Debug, PartialEq, Eq)]
pub struct AlertReport {
    /// Whether the alert was not delivered.
    pub failed: bool,
    /// The line to log.
    pub message: String,
}

/// The request to send for `verdict`, if it calls for one.
pub open spec fn alert_due(verdict: Metrics) -> bool {
    verdict.overall_status == MetricStatus::Critical
}

/// Whether `event` is the alert for `verdict`.
pub open spec fn is_alert_for(event: Event, verdict: Metrics) -> bool {
    &&& event.subject@ == alert_subject()
    &&& event.payload@ == alert_text(verdict)
    &&& event.reply
}

/// The state after an attempt in `state` has looked at `verdict`: an idle
/// attempt facing a critical verdict has sent its request.
pub open spec fn after_dispatch(state: AlertState, verdict: Metrics) -> AlertState {
    if state == AlertState::Idle && alert_due(verdict) {
        AlertState::Sent
    } else {
        state
    }
}

/// The state after `reply` has reached an attempt in `state`: only a sent
/// attempt takes it.
pub open spec fn after_reply(state: AlertState, reply: AlertReply) -> AlertState {
    if state == AlertState::Sent {
        reply.outcome()
    } else {
        state
    }
}

/// An alert is due exactly when the weighted sum of the smoothed scores is
/// above the critical cut point; spikes and single dimensions do not matter,
/// and a neutral verdict never calls for one.
pub proof fn lemma_alert_follows_overall_score(
    latest: [u64; 4],
    spikes: [bool; 4],
    smoothed: [u64; 4],
    thresholds: [u64; 4],
)
    ensures
        alert_due(verdict_for(latest, spikes, smoothed, thresholds)) <==> weighted_sum(smoothed)
            > OVERALL_CRITICAL * SCALE,
        !alert_due(neutral_verdict()),
{
}

/// An attempt that is over stays as it is, whatever verdict or reply it is
/// shown.
pub proof fn lemma_final_states_stay(state: AlertState, verdict: Metrics, reply: AlertReply)
    requires
        state.is_final(),
    ensures
        after_dispatch(state, verdict) == state,
        after_reply(state, reply) == state,
{
}

/// Whatever comes back ends a sent attempt.
pub proof fn lemma_reply_ends_attempt(reply: AlertReply)
    ensures
        after_reply(AlertState::Sent, reply).is_final(),
{
}

/// An attempt sends at most one request: once it has left `Idle` it never
/// returns there, and only an idle attempt sends.
pub proof fn lemma_one_request_per_attempt(state: AlertState, verdict: Metrics, reply: AlertReply)
    requires
        state != AlertState::Idle,
    ensures
        after_dispatch(state, verdict) == state,
        after_reply(state, reply) != AlertState::Idle,
{
}

/// The report on `reply`.
pub fn report(reply: &AlertReply) -> (report: AlertReport)
    ensures
        report.failed == reply.is_failure(),
        report.message@ == reply.log_text(),
{
    match reply {
        AlertReply::Ack(ack) => {
            if ack.status == ICUStatus::Success {
                AlertReport {
                    failed: false,
                    message: String::from_str("Sent alert: ").concat(ack.payload.as_str()),
                }
            } else {
                AlertReport {
                    failed: true,
                    message: String::from_str("Failed to send alert: ").concat(
                        ack.payload.as_str(),
                    ),
                }
            }
        },
        AlertReply::Timeout => AlertReport {
            failed: true,
            message: String::from_str("Failed to send alert: ").concat(
                "Timeout waiting for reply",
            ),
        },
        AlertReply::TransportError(reason) => AlertReport {
            failed: true,
            message: String::from_str("Failed to send alert: ").concat(reason.as_str()),
        },
    }
}

/// One attempt to deliver an alert.
#[derive(Debug)]
pub struct AlertAttempt {
    state: AlertState,
}

impl View for AlertAttempt {
    type V = AlertState;

    closed spec fn view(&self) -> AlertState {
        self.state
    }
}

impl AlertAttempt {
    /// A fresh attempt: nothing sent yet.
    pub fn new() -> (attempt: Self)
        ensures
            attempt@ == AlertState::Idle,
    {
        AlertAttempt { state: AlertState::Idle }
    }

    /// Where the attempt stands.
    pub fn state(&self) -> (state: AlertState)
        ensures
            state == self@,
    {
        self.state
    }

    /// Decides whether `verdict` calls for an alert. An idle attempt facing a
    /// critical verdict hands out the request and counts it as sent; in every
    /// other case nothing is sent and nothing changes.
    pub fn dispatch(&mut self, verdict: &Metrics) -> (request: Option<Event>)
        ensures
            request is Some <==> old(self)@ == AlertState::Idle && alert_due(*verdict),
            request matches Some(event) ==> is_alert_for(event, *verdict),
            final(self)@ == after_dispatch(old(self)@, *verdict),
    {
        match (self.state, verdict.overall_status) {
            (AlertState::Idle, MetricStatus::Critical) => {
                self.state = AlertState::Sent;
                Some(Event::new(String::from_str("CriticalAlert"), alert_payload(verdict), true))
            },
            _ => None,
        }
    }

    /// Ends a sent attempt with what came back, and says what to log. An
    /// attempt that is not waiting for an answer stays as it is.
    pub fn conclude(&mut self, reply: &AlertReply) -> (outcome: Option<AlertReport>)
        ensures
            outcome is Some <==> old(self)@ == AlertState::Sent,
            outcome matches Some(r) ==> r.failed == reply.is_failure() && r.message@
                == reply.log_text(),
            final(self)@ == after_reply(old(self)@, *reply),
    {
        match self.state {
            AlertState::Sent => {
                self.state = match reply {
                    AlertReply::Ack(_) => AlertState::Acked,
                    AlertReply::Timeout => AlertState::TimedOut,
                    AlertReply::TransportError(_) => AlertState::TransportFailed,
                };
                Some(report(reply))
            },
            _ => None,
        }
    }
}

} // verus!
