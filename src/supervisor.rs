//! The session supervisor: a state machine from the current phase and the
//! outcome of the last outside step (a connection attempt, a subscription, a
//! notification) to the next phase, the lines to log and the next step to
//! perform. The caller performs each step and feeds back its outcome.
use vstd::prelude::*;
use vstd::string::*;
use crate::error::{error_text, SkipperError};
use crate::runtime::{chain_prefix, prefix_of, runtime_of, ChainPrefix, SupportedRuntime};
use crate::text::{decimal, decimal_string};

verus! {

/// Seconds to wait before retrying a failed connection attempt.
pub const CONNECT_RETRY_SECS: u64 = 6;

/// Seconds to wait before rebuilding a session after a benign stop.
pub const RESTART_DELAY_SECS: u64 = 1;

/// The largest cooldown, in minutes, whose length in seconds fits a `u64`.
pub const MAX_ERROR_INTERVAL: u64 = 307445734561825860;

/// The settings the supervisor reads.
#[derive(Clone, Debug)]
pub struct Config {
    /// The node's RPC endpoint, used again on every connection attempt.
    pub substrate_ws_url: String,
    /// The cooldown, in minutes, after a fault that puts the agent on hold.
    pub error_interval: u64,
}

/// What a connected node reported about itself; `None` where it refused.
#[derive(Clone, Debug)]
pub struct NodeIdentity {
    pub chain: Option<String>,
    pub name: Option<String>,
    pub version: Option<String>,
}

/// What a session is built from: the selected runtime and the chain prefix
/// by which addresses are displayed during the session.
#[derive(Clone, Copy, Debug, PartialEq, Eq, Structural)]
pub struct Session {
    pub runtime: SupportedRuntime,
    pub chain_prefix: ChainPrefix,
}

#[derive(Clone, Copy, Debug, PartialEq, Eq, Structural)]
pub enum LogLevel {
    Info,
    Warn,
    Error,
}

/// One line to log.
pub struct LogLine {
    pub level: LogLevel,
    pub text: String,
}

impl DeepView for LogLine {
    type V = (LogLevel, Seq<char>);

    open spec fn deep_view(&self) -> (LogLevel, Seq<char>) {
        (self.level, self.text@)
    }
}

/// The outcome of the last step the caller performed.
pub enum Event {
    /// A connection attempt failed, with the client's message.
    ConnectFailed(String),
    /// A connection was made; `ss58_format` is the node's `ss58Format`
    /// property, where it reported a number.
    Connected { identity: NodeIdentity, ss58_format: Option<u64> },
    /// The session's event subscription ended.
    SubscriptionStopped(Result<(), SkipperError>),
    /// The operator notification was sent, or failed.
    NotificationDone(Result<(), SkipperError>),
}

/// The next step for the caller to perform.
pub enum Action {
    /// Wait `delay_secs` seconds, then try to connect to the node.
    Connect { delay_secs: u64 },
    /// Build the session and run its event subscription.
    Subscribe(Session),
    /// Send this notification to the operator.
    Notify { message: String, formatted_message: String },
}

/// What an action is, with its texts as character sequences.
pub enum Effect {
    Connect { delay_secs: nat },
    Subscribe(Session),
    Notify { message: Seq<char>, formatted_message: Seq<char> },
}

impl View for Action {
    type V = Effect;

    open spec fn view(&self) -> Effect {
        match self {
            Action::Connect { delay_secs } => Effect::Connect { delay_secs: *delay_secs as nat },
            Action::Subscribe(s) => Effect::Subscribe(*s),
            Action::Notify { message, formatted_message } => Effect::Notify {
                message: message@,
                formatted_message: formatted_message@,
            },
        }
    }
}

/// Where the supervisor stands: waiting for a connection, running a
/// subscription, or waiting for the notification of a fault to be sent.
#[derive(Clone, Copy, Debug, PartialEq, Eq, Structural)]
pub enum Phase {
    Connecting,
    Subscribed,
    Notifying,
}

/// How the supervisor recovers from an error that ended a subscription.
#[derive(Clone, Copy, Debug, PartialEq, Eq, Structural)]
pub enum Recovery {
    /// Log a warning and restart at once.
    Restart,
    /// Log that a notification was dropped and restart at once.
    SkipMessage,
    /// Log an error, notify the operator, and hold for the cooldown.
    Hold,
}

pub open spec fn recovery_of(e: SkipperError) -> Recovery {
    match e {
        SkipperError::SubscriptionFinished => Recovery::Restart,
        SkipperError::MatrixError(_) => Recovery::SkipMessage,
        _ => Recovery::Hold,
    }
}

/// Classifies an error that ended a subscription.
pub fn classify(e: &SkipperError) -> (r: Recovery)
    ensures
        r == recovery_of(*e),
{
    match e {
        SkipperError::SubscriptionFinished => Recovery::Restart,
        SkipperError::MatrixError(_) => Recovery::SkipMessage,
        _ => Recovery::Hold,
    }
}

pub open spec fn or_text(o: Option<String>, fallback: Seq<char>) -> Seq<char> {
    match o {
        Some(s) => s@,
        None => fallback,
    }
}

pub open spec fn awaiting_text(url: Seq<char>) -> Seq<char> {
    "Awaiting for connection using "@ + url
}

pub open spec fn connected_text(id: NodeIdentity, url: Seq<char>) -> Seq<char> {
    "Connected to "@ + or_text(id.chain, "Chain undefined"@) + " network using "@ + url
        + " * Substrate node "@ + or_text(id.name, "Node name undefined"@) + " v"@
        + or_text(id.version, "Node version undefined"@)
}

pub open spec fn skipped_text() -> Seq<char> {
    "Matrix message skipped!"@
}

pub open spec fn unexpected_text() -> Seq<char> {
    "Unexpected event for the current phase; restarting"@
}

/// The plain notification of a fault that puts the agent on hold.
pub open spec fn hold_text(minutes: u64, e: SkipperError) -> Seq<char> {
    "On hold for "@ + decimal(minutes as nat) + " min! "@ + error_text(e)
}

/// The formatted notification of a fault that puts the agent on hold.
pub open spec fn hold_formatted_text(minutes: u64, e: SkipperError) -> Seq<char> {
    "<br/>🚨 An error was raised -> <code>skipper</code> on hold for "@ + decimal(minutes as nat)
        + " min while rescue is on the way 🚁 🚒 🚑 🚓<br/><code>"@ + error_text(e)
        + "</code><br/><br/>"@
}

pub open spec fn notify_failed_text(e: SkipperError) -> Seq<char> {
    "Notification skipped: "@ + error_text(e)
}

/// One move of the supervisor: the phase it goes to, the lines it logs and
/// the step it asks for.
pub struct Transition {
    pub phase: Phase,
    pub logs: Seq<(LogLevel, Seq<char>)>,
    pub effect: Effect,
}

pub open spec fn restart(level: LogLevel, text: Seq<char>) -> Transition {
    Transition {
        phase: Phase::Connecting,
        logs: seq![(level, text)],
        effect: Effect::Connect { delay_secs: RESTART_DELAY_SECS as nat },
    }
}

/// The supervisor's transition function.
///
/// - A failed connection attempt is logged and retried after
///   `CONNECT_RETRY_SECS`; it never ends the connecting phase.
/// - A connection selects the runtime from the chain prefix and starts the
///   subscription.
/// - A subscription that ends cleanly or with `SubscriptionFinished`, or that
///   lost a notification, restarts after `RESTART_DELAY_SECS` with no
///   notification. Any other fault is notified to the operator, and the
///   next connection waits `interval` minutes, whether or not the notice
///   could be sent.
/// - An event that does not fit the phase restarts the cycle.
pub open spec fn transition(phase: Phase, url: Seq<char>, interval: u64, e: Event) -> Transition {
    match (phase, e) {
        (Phase::Connecting, Event::ConnectFailed(m)) => Transition {
            phase: Phase::Connecting,
            logs: seq![(LogLevel::Error, m@), (LogLevel::Info, awaiting_text(url))],
            effect: Effect::Connect { delay_secs: CONNECT_RETRY_SECS as nat },
        },
        (Phase::Connecting, Event::Connected { identity, ss58_format }) => Transition {
            phase: Phase::Subscribed,
            logs: seq![(LogLevel::Info, connected_text(identity, url))],
            effect: Effect::Subscribe(
                Session {
                    runtime: runtime_of(prefix_of(ss58_format)),
                    chain_prefix: prefix_of(ss58_format),
                },
            ),
        },
        (Phase::Subscribed, Event::SubscriptionStopped(Ok(()))) => restart(
            LogLevel::Warn,
            error_text(SkipperError::SubscriptionFinished),
        ),
        (Phase::Subscribed, Event::SubscriptionStopped(Err(err))) => match recovery_of(err) {
            Recovery::Restart => restart(LogLevel::Warn, error_text(err)),
            Recovery::SkipMessage => restart(LogLevel::Warn, skipped_text()),
            Recovery::Hold => Transition {
                phase: Phase::Notifying,
                logs: seq![(LogLevel::Error, error_text(err))],
                effect: Effect::Notify {
                    message: hold_text(interval, err),
                    formatted_message: hold_formatted_text(interval, err),
                },
            },
        },
        (Phase::Notifying, Event::NotificationDone(sent)) => Transition {
            phase: Phase::Connecting,
            logs: match sent {
                Ok(()) => seq![],
                Err(err) => seq![(LogLevel::Error, notify_failed_text(err))],
            },
            effect: Effect::Connect { delay_secs: 60 * interval as nat },
        },
        _ => restart(LogLevel::Warn, unexpected_text()),
    }
}

/// The transitions made from `phase` on `events`, in order.
pub open spec fn trace(phase: Phase, url: Seq<char>, interval: u64, events: Seq<Event>) -> Seq<Transition>
    decreases events.len(),
{
    if events.len() == 0 {
        seq![]
    } else {
        let t = transition(phase, url, interval, events[0]);
        seq![t] + trace(t.phase, url, interval, events.drop_first())
    }
}

/// One failed connection attempt for each message of `failures`, then `last`.
pub open spec fn retry_events(failures: Seq<String>, last: Event) -> Seq<Event> {
    failures.map_values(|m: String| Event::ConnectFailed(m)).push(last)
}

/// Connection attempts that fail any number of times and then succeed: each
/// failure is logged with the endpoint and waits `CONNECT_RETRY_SECS` before
/// the next attempt, staying in the connecting phase, and the one success
/// then starts exactly one subscription. No step of it notifies or reports
/// an error to the loop.
pub proof fn lemma_connect_retries(
    url: Seq<char>,
    interval: u64,
    failures: Seq<String>,
    identity: NodeIdentity,
    ss58_format: Option<u64>,
)
    ensures
        ({
            let t = trace(
                Phase::Connecting,
                url,
                interval,
                retry_events(failures, Event::Connected { identity, ss58_format }),
            );
            &&& t.len() == failures.len() + 1
            &&& forall|i: int|
                0 <= i < failures.len() ==> #[trigger] t[i] == (Transition {
                    phase: Phase::Connecting,
                    logs: seq![(LogLevel::Error, failures[i]@), (LogLevel::Info, awaiting_text(url))],
                    effect: Effect::Connect { delay_secs: CONNECT_RETRY_SECS as nat },
                })
            &&& t[failures.len() as int] == (Transition {
                phase: Phase::Subscribed,
                logs: seq![(LogLevel::Info, connected_text(identity, url))],
                effect: Effect::Subscribe(
                    Session {
                        runtime: runtime_of(prefix_of(ss58_format)),
                        chain_prefix: prefix_of(ss58_format),
                    },
                ),
            })
        }),
    decreases failures.len(),
{
    let last = Event::Connected { identity, ss58_format };
    let events = retry_events(failures, last);
    if failures.len() == 0 {
        assert(events =~= seq![last]);
        assert(events.drop_first() =~= Seq::<Event>::empty());
        let t = trace(Phase::Connecting, url, interval, events);
        assert(trace(Phase::Subscribed, url, interval, events.drop_first()) == Seq::<Transition>::empty());
        assert(t =~= seq![transition(Phase::Connecting, url, interval, last)]);
    } else {
        let rest = failures.drop_first();
        lemma_connect_retries(url, interval, rest, identity, ss58_format);
        assert(events.drop_first() =~= retry_events(rest, last));
        assert(events[0] == Event::ConnectFailed(failures[0]));
        let t = trace(Phase::Connecting, url, interval, events);
        let tr = trace(Phase::Connecting, url, interval, retry_events(rest, last));
        assert(t == seq![transition(Phase::Connecting, url, interval, events[0])] + tr);
        assert(t[0] == transition(Phase::Connecting, url, interval, Event::ConnectFailed(failures[0])));
        assert forall|i: int| 1 <= i <= failures.len() implies #[trigger] t[i] == tr[i - 1] by {}
        assert forall|i: int| 1 <= i < failures.len() implies rest[i - 1] == #[trigger] failures[i] by {}
        assert(t.len() == failures.len() + 1);
    }
}

/// The recovery table: a subscription that finished restarts after
/// `RESTART_DELAY_SECS` with a warning and no notification, as does one that
/// lost a notification, which is not sent again; any other fault sends one
/// notification naming the cooldown and the fault, and the next connection
/// waits `interval` minutes, whether or not that notification went out.
pub proof fn lemma_recovery_table(
    url: Seq<char>,
    interval: u64,
    e: SkipperError,
    sent: Result<(), SkipperError>,
)
    ensures
        transition(Phase::Subscribed, url, interval, Event::SubscriptionStopped(Ok(())))
            == restart(LogLevel::Warn, error_text(SkipperError::SubscriptionFinished)),
        e is SubscriptionFinished ==> transition(
            Phase::Subscribed,
            url,
            interval,
            Event::SubscriptionStopped(Err(e)),
        ) == restart(LogLevel::Warn, error_text(e)),
        e is MatrixError ==> transition(
            Phase::Subscribed,
            url,
            interval,
            Event::SubscriptionStopped(Err(e)),
        ) == restart(LogLevel::Warn, skipped_text()),
        restart(LogLevel::Warn, error_text(e)).effect == (Effect::Connect {
            delay_secs: RESTART_DELAY_SECS as nat,
        }),
        !(e is SubscriptionFinished || e is MatrixError) ==> ({
            let t = transition(Phase::Subscribed, url, interval, Event::SubscriptionStopped(Err(e)));
            let u = transition(t.phase, url, interval, Event::NotificationDone(sent));
            &&& t.phase == Phase::Notifying
            &&& t.effect == (Effect::Notify {
                message: hold_text(interval, e),
                formatted_message: hold_formatted_text(interval, e),
            })
            &&& u.phase == Phase::Connecting
            &&& u.effect == (Effect::Connect { delay_secs: 60 * interval as nat })
        }),
{
}

/// What the caller is to do after an event.
pub struct Step {
    pub logs: Vec<LogLine>,
    pub action: Action,
}

fn append_or(s: &mut String, o: &Option<String>, fallback: &str)
    ensures
        final(s)@ == old(s)@ + or_text(*o, fallback@),
{
    match o {
        Some(t) => s.append(t.as_str()),
        None => s.append(fallback),
    }
}

/// The line logged while waiting to reconnect to `url`.
pub fn awaiting_message(url: &str) -> (r: String)
    ensures
        r@ == awaiting_text(url@),
{
    String::from_str("Awaiting for connection using ").concat(url)
}

/// The line logged once connected to the node at `url`, with a placeholder
/// for each detail the node refused to report.
pub fn connected_message(id: &NodeIdentity, url: &str) -> (r: String)
    ensures
        r@ == connected_text(*id, url@),
{
    let mut s = String::from_str("Connected to ");
    append_or(&mut s, &id.chain, "Chain undefined");
    s.append(" network using ");
    s.append(url);
    s.append(" * Substrate node ");
    append_or(&mut s, &id.name, "Node name undefined");
    s.append(" v");
    append_or(&mut s, &id.version, "Node version undefined");
    assert(s@ =~= connected_text(*id, url@));
    s
}

/// The plain notification of fault `e`, naming the cooldown.
pub fn hold_message(minutes: u64, e: &SkipperError) -> (r: String)
    ensures
        r@ == hold_text(minutes, *e),
{
    let mut s = String::from_str("On hold for ");
    s.append(decimal_string(minutes).as_str());
    s.append(" min! ");
    s.append(e.message().as_str());
    s
}

/// The formatted notification of fault `e`, naming the cooldown.
pub fn hold_formatted_message(minutes: u64, e: &SkipperError) -> (r: String)
    ensures
        r@ == hold_formatted_text(minutes, *e),
{
    let mut s = String::from_str("<br/>🚨 An error was raised -> <code>skipper</code> on hold for ");
    s.append(decimal_string(minutes).as_str());
    s.append(" min while rescue is on the way 🚁 🚒 🚑 🚓<br/><code>");
    s.append(e.message().as_str());
    s.append("</code><br/><br/>");
    assert(s@ =~= hold_formatted_text(minutes, *e));
    s
}

fn one_line(level: LogLevel, text: String) -> (r: Vec<LogLine>)
    ensures
        r.deep_view() == seq![(level, text@)],
{
    let mut v: Vec<LogLine> = Vec::new();
    v.push(LogLine { level, text });
    assert(v.deep_view() =~= seq![(level, text@)]);
    v
}

fn two_lines(l1: LogLevel, t1: String, l2: LogLevel, t2: String) -> (r: Vec<LogLine>)
    ensures
        r.deep_view() == seq![(l1, t1@), (l2, t2@)],
{
    let mut v: Vec<LogLine> = Vec::new();
    v.push(LogLine { level: l1, text: t1 });
    v.push(LogLine { level: l2, text: t2 });
    assert(v.deep_view() =~= seq![(l1, t1@), (l2, t2@)]);
    v
}

fn restart_step(level: LogLevel, text: String) -> (r: Step)
    ensures
        r.logs.deep_view() == restart(level, text@).logs,
        r.action@ == restart(level, text@).effect,
{
    Step { logs: one_line(level, text), action: Action::Connect { delay_secs: RESTART_DELAY_SECS } }
}

/// The supervisor loop's state.
pub struct Supervisor {
    pub phase: Phase,
    pub config: Config,
}

impl Supervisor {
    /// The cooldown fits a `u64` count of seconds.
    pub open spec fn wf(&self) -> bool {
        self.config.error_interval <= MAX_ERROR_INTERVAL
    }

    /// A supervisor about to make its first connection attempt.
    pub fn new(config: Config) -> (r: Supervisor)
        requires
            config.error_interval <= MAX_ERROR_INTERVAL,
        ensures
            r.wf(),
            r.phase == Phase::Connecting,
            r.config == config,
    {
        Supervisor { phase: Phase::Connecting, config }
    }

    /// Moves the supervisor on by `event`, the outcome of the last step, and
    /// returns the lines to log and the next step to perform.
    pub fn step(&mut self, event: Event) -> (r: Step)
        requires
            old(self).wf(),
        ensures
            final(self).wf(),
            final(self).config == old(self).config,
            final(self).phase == transition(
                old(self).phase,
                old(self).config.substrate_ws_url@,
                old(self).config.error_interval,
                event,
            ).phase,
            r.logs.deep_view() == transition(
                old(self).phase,
                old(self).config.substrate_ws_url@,
                old(self).config.error_interval,
                event,
            ).logs,
            r.action@ == transition(
                old(self).phase,
                old(self).config.substrate_ws_url@,
                old(self).config.error_interval,
                event,
            ).effect,
    {
        let ghost t = transition(
            self.phase,
            self.config.substrate_ws_url@,
            self.config.error_interval,
            event,
        );
        let interval = self.config.error_interval;
        match (self.phase, event) {
            (Phase::Connecting, Event::ConnectFailed(m)) => {
                let text = awaiting_message(self.config.substrate_ws_url.as_str());
                let logs = two_lines(LogLevel::Error, m, LogLevel::Info, text);
                Step { logs, action: Action::Connect { delay_secs: CONNECT_RETRY_SECS } }
            },
            (Phase::Connecting, Event::Connected { identity, ss58_format }) => {
                let text = connected_message(&identity, self.config.substrate_ws_url.as_str());
                let prefix = chain_prefix(ss58_format);
                self.phase = Phase::Subscribed;
                Step {
                    logs: one_line(LogLevel::Info, text),
                    action: Action::Subscribe(
                        Session { runtime: SupportedRuntime::from(prefix), chain_prefix: prefix },
                    ),
                }
            },
            (Phase::Subscribed, Event::SubscriptionStopped(Ok(()))) => {
                self.phase = Phase::Connecting;
                restart_step(LogLevel::Warn, SkipperError::SubscriptionFinished.message())
            },
            (Phase::Subscribed, Event::SubscriptionStopped(Err(err))) => {
                match classify(&err) {
                    Recovery::Restart => {
                        self.phase = Phase::Connecting;
                        restart_step(LogLevel::Warn, err.message())
                    },
                    Recovery::SkipMessage => {
                        self.phase = Phase::Connecting;
                        restart_step(LogLevel::Warn, String::from_str("Matrix message skipped!"))
                    },
                    Recovery::Hold => {
                        self.phase = Phase::Notifying;
                        let message = hold_message(interval, &err);
                        let formatted_message = hold_formatted_message(interval, &err);
                        Step {
                            logs: one_line(LogLevel::Error, err.message()),
                            action: Action::Notify { message, formatted_message },
                        }
                    },
                }
            },
            (Phase::Notifying, Event::NotificationDone(sent)) => {
                self.phase = Phase::Connecting;
                let logs = match sent {
                    Ok(()) => {
                        let v: Vec<LogLine> = Vec::new();
                        assert(v.deep_view() =~= Seq::<(LogLevel, Seq<char>)>::empty());
                        v
                    },
                    Err(err) => one_line(
                        LogLevel::Error,
                        String::from_str("Notification skipped: ").concat(err.message().as_str()),
                    ),
                };
                Step { logs, action: Action::Connect { delay_secs: 60 * interval } }
            },
            _ => {
                self.phase = Phase::Connecting;
                restart_step(
                    LogLevel::Warn,
                    String::from_str("Unexpected event for the current phase; restarting"),
                )
            },
        }
    }
}

} // verus!
