//! The controller: watches the events, changes the colour once enough of
//! them have come in, and ends the session with a single `TurnOff`.

use crate::pim447::{Command, Input};
use crate::pipeline::config::PipelineConfig;
use vstd::prelude::*;

verus! {

/// What the controller is waiting for.
#[derive(Debug, Clone, Copy, PartialEq, Eq)]
pub enum ControllerPhase {
    /// Nothing yet: the session has not begun.
    Ready,
    /// The next event, or the end of the receive interval.
    Watching,
    /// The end of the poller, after `TurnOff` has been sent.
    Joining,
    /// Nothing more: the session is over.
    Finished,
}

/// What the caller reports to the controller.
#[derive(Debug, Clone, Copy, PartialEq, Eq)]
pub enum ControllerEvent {
    /// The session begins.
    Started,
    /// An event arrived within the receive interval.
    Received(Input),
    /// The receive interval passed without an event.
    TimedOut,
    /// No event will ever arrive: the queue is closed.
    EventsClosed,
    /// The poller has finished.
    PollerFinished,
}

/// What the caller knows by itself when it reports an event.
#[derive(Debug, Clone, Copy, PartialEq, Eq)]
pub struct Observation {
    /// Whether the session has been asked to end from outside.
    pub cancelled: bool,
    /// Milliseconds since the session began.
    pub elapsed_ms: u64,
}

/// What the controller asks of the caller.
#[derive(Debug, Clone, Copy, PartialEq, Eq)]
pub enum ControllerAction {
    /// Send `send`, if there is one, then wait up to `wait_ms` milliseconds
    /// for one event and report how the wait ended.
    Watch { send: Option<Command>, wait_ms: u64 },
    /// Send `send`, if there is one, then send `TurnOff`, then wait for the
    /// poller to finish and report `PollerFinished`.
    /// [`ControllerAction::commands`] lists what is to be sent.
    ShutDown { send: Option<Command> },
    /// The session is over.
    Finish,
    /// The event was not awaited: nothing has changed, and the last
    /// request stands.
    Ignore,
}

/// A controller as contracts see it.
pub struct ControllerState {
    pub config: PipelineConfig,
    pub phase: ControllerPhase,
    /// Number of events received so far; it stops counting at `u32::MAX`.
    pub seen: u32,
}

/// The state in which a session begins.
pub open spec fn controller_init(config: PipelineConfig) -> ControllerState {
    ControllerState { config, phase: ControllerPhase::Ready, seen: 0 }
}

/// The commands that an action sends, in the order in which they go out.
pub open spec fn commands_of(action: ControllerAction) -> Seq<Command> {
    match action {
        ControllerAction::Watch { send: Some(command), .. } => seq![command],
        ControllerAction::ShutDown { send: Some(command) } => seq![command, Command::TurnOff],
        ControllerAction::ShutDown { send: None } => seq![Command::TurnOff],
        _ => Seq::empty(),
    }
}

impl ControllerAction {
    /// The commands to send, in the order in which they go out.
    pub fn commands(&self) -> (commands: Vec<Command>)
        ensures
            commands@ == commands_of(*self),
    {
        let mut commands: Vec<Command> = Vec::new();
        match *self {
            ControllerAction::Watch { send: Some(command), .. } => {
                commands.push(command);
            },
            ControllerAction::ShutDown { send } => {
                if let Some(command) = send {
                    commands.push(command);
                }
                commands.push(Command::TurnOff);
            },
            _ => {},
        }
        assert(commands@ =~= commands_of(*self));
        commands
    }
}

/// Whether `event` is one that the controller counts.
pub open spec fn counts(s: ControllerState, event: ControllerEvent) -> bool {
    event is Received && s.seen < u32::MAX
}

/// The number of events received once `event` has been taken in.
pub open spec fn seen_after(s: ControllerState, event: ControllerEvent) -> u32 {
    if counts(s, event) {
        (s.seen + 1) as u32
    } else {
        s.seen
    }
}

/// The command that changes the colour, due exactly when `event` is the one
/// that brings the count up to the threshold.
pub open spec fn alert_for(s: ControllerState, event: ControllerEvent) -> Option<Command> {
    if counts(s, event) && s.seen + 1 == s.config.event_threshold {
        let c = s.config.alert_colour;
        Some(Command::SetColour(c.0, c.1, c.2, c.3))
    } else {
        None
    }
}

/// Whether the session is to end: it was cancelled, the event queue is
/// closed, or its time is up.
pub open spec fn must_stop(s: ControllerState, event: ControllerEvent, now: Observation) -> bool {
    now.cancelled || event is EventsClosed || now.elapsed_ms >= s.config.session_timeout_ms
}

/// The length of the next wait: the receive interval, cut short where the
/// session ends before it.
pub open spec fn next_wait(s: ControllerState, now: Observation) -> u64 {
    let left = s.config.session_timeout_ms - now.elapsed_ms;
    if left < s.config.receive_interval_ms {
        left as u64
    } else {
        s.config.receive_interval_ms
    }
}

/// One turn of the loop: take the event in, then go on or end the session.
pub open spec fn watch_step(s: ControllerState, event: ControllerEvent, now: Observation) -> (
    ControllerState,
    ControllerAction,
) {
    let send = alert_for(s, event);
    let counted = seen_after(s, event);
    if must_stop(s, event, now) {
        (
            ControllerState { phase: ControllerPhase::Joining, seen: counted, ..s },
            ControllerAction::ShutDown { send },
        )
    } else {
        (
            ControllerState { phase: ControllerPhase::Watching, seen: counted, ..s },
            ControllerAction::Watch { send, wait_ms: next_wait(s, now) },
        )
    }
}

/// The next state of a controller and what it asks for, given what happened.
pub open spec fn controller_step(
    s: ControllerState,
    event: ControllerEvent,
    now: Observation,
) -> (ControllerState, ControllerAction) {
    match s.phase {
        ControllerPhase::Ready => match event {
            ControllerEvent::Started => watch_step(s, event, now),
            _ => (s, ControllerAction::Ignore),
        },
        ControllerPhase::Watching => match event {
            ControllerEvent::Received(_)
            | ControllerEvent::TimedOut
            | ControllerEvent::EventsClosed => watch_step(s, event, now),
            _ => (s, ControllerAction::Ignore),
        },
        ControllerPhase::Joining => match event {
            ControllerEvent::PollerFinished => (
                ControllerState { phase: ControllerPhase::Finished, ..s },
                ControllerAction::Finish,
            ),
            _ => (s, ControllerAction::Ignore),
        },
        ControllerPhase::Finished => (s, ControllerAction::Ignore),
    }
}

/// One report of the caller: what happened, and what the caller knew then.
pub struct Report {
    pub event: ControllerEvent,
    pub now: Observation,
}

/// A whole session: the state a controller is in after a sequence of
/// reports, and every command it has sent on the way, in order.
pub open spec fn controller_run(config: PipelineConfig, reports: Seq<Report>) -> (
    ControllerState,
    Seq<Command>,
)
    decreases reports.len(),
{
    if reports.len() == 0 {
        (controller_init(config), Seq::empty())
    } else {
        let (s, sent) = controller_run(config, reports.drop_last());
        let (next, action) = controller_step(s, reports.last().event, reports.last().now);
        (next, sent + commands_of(action))
    }
}

/// The command with which a controller changes the colour.
pub open spec fn alert_command(config: PipelineConfig) -> Command {
    let c = config.alert_colour;
    Command::SetColour(c.0, c.1, c.2, c.3)
}

/// Whether the session has been ended, that is `TurnOff` has been sent.
pub open spec fn has_shut_down(s: ControllerState) -> bool {
    s.phase is Joining || s.phase is Finished
}

/// Whether the count has reached the threshold, that is the colour has been
/// changed.
pub open spec fn has_alerted(s: ControllerState) -> bool {
    1 <= s.config.event_threshold <= s.seen
}

/// A step sends `TurnOff` exactly when it ends the session, and then as
/// its last command; a session that has been ended stays ended.
pub proof fn lemma_turn_off_ends_session(
    s: ControllerState,
    event: ControllerEvent,
    now: Observation,
)
    ensures
        ({
            let (next, action) = controller_step(s, event, now);
            let sent = commands_of(action);
            &&& has_shut_down(s) ==> has_shut_down(next) && sent.len() == 0
            &&& !has_shut_down(s) && has_shut_down(next) ==> sent.len() >= 1 && sent.last()
                == Command::TurnOff
            &&& !has_shut_down(next) ==> (forall|i: int|
                0 <= i < sent.len() ==> sent[i] != Command::TurnOff)
            &&& forall|i: int| 0 <= i < sent.len() - 1 ==> sent[i] != Command::TurnOff
        }),
{
}

/// A step changes the colour exactly when it counts the event that brings
/// the count up to the threshold. The count never goes down, so this
/// happens at most once.
pub proof fn lemma_alert_at_threshold(
    s: ControllerState,
    event: ControllerEvent,
    now: Observation,
)
    ensures
        ({
            let (next, action) = controller_step(s, event, now);
            let sent = commands_of(action);
            &&& next.config == s.config
            &&& s.seen <= next.seen <= s.seen + 1
            &&& next.seen == s.seen + 1 ==> event is Received
            &&& has_alerted(s) ==> has_alerted(next)
            &&& has_alerted(s) == has_alerted(next) ==> (forall|i: int|
                0 <= i < sent.len() ==> !(sent[i] is SetColour))
            &&& !has_alerted(s) && has_alerted(next) ==> sent.len() >= 1 && sent[0]
                == alert_command(s.config) && (forall|i: int|
                1 <= i < sent.len() ==> !(sent[i] is SetColour))
        }),
{
}

/// Every wait is bounded: it lasts no longer than the receive interval and
/// does not reach beyond the end of the session.
pub proof fn lemma_waits_are_bounded(
    s: ControllerState,
    event: ControllerEvent,
    now: Observation,
)
    ensures
        controller_step(s, event, now).1 matches ControllerAction::Watch { wait_ms, .. } ==> {
            &&& wait_ms <= s.config.receive_interval_ms
            &&& now.elapsed_ms + wait_ms <= s.config.session_timeout_ms
            &&& !now.cancelled
        },
{
}

/// In every session `TurnOff` is sent at most once, as the last command of
/// all, and it has been sent exactly when the session has been ended.
pub proof fn lemma_turn_off_sent_once(config: PipelineConfig, reports: Seq<Report>)
    ensures
        ({
            let (end, sent) = controller_run(config, reports);
            &&& forall|i: int| 0 <= i < sent.len() - 1 ==> sent[i] != Command::TurnOff
            &&& has_shut_down(end) <==> sent.len() >= 1 && sent.last() == Command::TurnOff
        }),
    decreases reports.len(),
{
    if reports.len() > 0 {
        let s = controller_run(config, reports.drop_last()).0;
        lemma_turn_off_sent_once(config, reports.drop_last());
        lemma_turn_off_ends_session(s, reports.last().event, reports.last().now);
    }
}

/// In every session the colour is changed at most once, by the command
/// that the settings name, and it has been changed exactly when the count
/// of events has reached the threshold.
pub proof fn lemma_alert_sent_once(config: PipelineConfig, reports: Seq<Report>)
    ensures
        ({
            let (end, sent) = controller_run(config, reports);
            &&& end.config == config
            &&& forall|i: int, j: int|
                0 <= i < j < sent.len() ==> !(sent[i] is SetColour && sent[j] is SetColour)
            &&& forall|i: int|
                0 <= i < sent.len() && sent[i] is SetColour ==> sent[i] == alert_command(config)
            &&& has_alerted(end) <==> exists|i: int| 0 <= i < sent.len() && sent[i] is SetColour
        }),
    decreases reports.len(),
{
    if reports.len() > 0 {
        let (s, before) = controller_run(config, reports.drop_last());
        let (end, sent) = controller_run(config, reports);
        let action = controller_step(s, reports.last().event, reports.last().now).1;
        let added = commands_of(action);
        lemma_alert_sent_once(config, reports.drop_last());
        lemma_alert_at_threshold(s, reports.last().event, reports.last().now);
        assert(sent == before + added);
        assert forall|i: int| 0 <= i < sent.len() implies (sent[i] == if i < before.len() {
            before[i]
        } else {
            added[i - before.len()]
        }) by {}
        if has_alerted(end) {
            if has_alerted(s) {
                let i = choose|i: int| 0 <= i < before.len() && before[i] is SetColour;
                assert(sent[i] is SetColour);
            } else {
                assert(sent[before.len() as int] is SetColour);
            }
        }
    }
}

/// Whether a sequence of reports is the beginning of an undisturbed
/// session: it starts with `Started`, then come events and waits that time
/// out, and nothing asks for the end.
pub open spec fn undisturbed(config: PipelineConfig, reports: Seq<Report>) -> bool {
    &&& reports.len() >= 1
    &&& reports[0].event is Started
    &&& forall|i: int|
        0 <= i < reports.len() ==> {
            &&& !(#[trigger] reports[i]).now.cancelled
            &&& reports[i].now.elapsed_ms < config.session_timeout_ms
            &&& i >= 1 ==> reports[i].event is Received || reports[i].event is TimedOut
        }
}

/// Number of events among the reports.
pub open spec fn received(reports: Seq<Report>) -> nat
    decreases reports.len(),
{
    if reports.len() == 0 {
        0
    } else {
        received(reports.drop_last()) + if reports.last().event is Received {
            1nat
        } else {
            0nat
        }
    }
}

/// In an undisturbed session every event is counted, up to `u32::MAX`. So
/// the colour has been changed exactly when as many events as the
/// threshold asks for have come in: the event that completes the number
/// triggers the change, not the one after it.
pub proof fn lemma_every_event_counts(config: PipelineConfig, reports: Seq<Report>)
    requires
        undisturbed(config, reports),
    ensures
        ({
            let (end, sent) = controller_run(config, reports);
            &&& end.phase is Watching
            &&& end.config == config
            &&& end.seen == if received(reports) < u32::MAX {
                received(reports)
            } else {
                u32::MAX as nat
            }
            &&& forall|i: int| 0 <= i < sent.len() ==> sent[i] == alert_command(config)
            &&& sent.len() == if 1 <= config.event_threshold <= received(reports) {
                1nat
            } else {
                0nat
            }
        }),
    decreases reports.len(),
{
    let before = reports.drop_last();
    assert(reports.last() == reports[reports.len() - 1]);
    if reports.len() == 1 {
        assert(received(before) == 0);
    } else {
        assert(before[0] == reports[0]);
        assert forall|i: int| 0 <= i < before.len() implies {
            &&& !(#[trigger] before[i]).now.cancelled
            &&& before[i].now.elapsed_ms < config.session_timeout_ms
            &&& i >= 1 ==> before[i].event is Received || before[i].event is TimedOut
        } by {
            assert(before[i] == reports[i]);
        }
        lemma_every_event_counts(config, before);
    }
}

/// The controller: its settings, where in its loop it stands and how many
/// events it has counted.
pub struct Controller {
    config: PipelineConfig,
    phase: ControllerPhase,
    seen: u32,
}

impl View for Controller {
    type V = ControllerState;

    closed spec fn view(&self) -> ControllerState {
        ControllerState { config: self.config, phase: self.phase, seen: self.seen }
    }
}

impl Controller {
    /// A controller for a session with these settings.
    pub fn new(config: PipelineConfig) -> (controller: Self)
        ensures
            controller@ == controller_init(config),
    {
        Controller { config, phase: ControllerPhase::Ready, seen: 0 }
    }

    /// What the controller is waiting for.
    pub fn phase(&self) -> (phase: ControllerPhase)
        ensures
            phase == self@.phase,
    {
        self.phase
    }

    /// Number of events received so far.
    pub fn seen(&self) -> (seen: u32)
        ensures
            seen == self@.seen,
    {
        self.seen
    }

    fn watch_step(&mut self, event: ControllerEvent, now: Observation) -> (action:
        ControllerAction)
        ensures
            (final(self)@, action) == watch_step(old(self)@, event, now),
    {
        let mut send: Option<Command> = None;
        if let ControllerEvent::Received(_) = event {
            if self.seen < u32::MAX {
                self.seen = self.seen + 1;
                if self.seen == self.config.event_threshold {
                    let c: (u8, u8, u8, u8) = self.config.alert_colour;
                    send = Some(Command::SetColour(c.0, c.1, c.2, c.3));
                }
            }
        }
        let closed: bool = match event {
            ControllerEvent::EventsClosed => true,
            _ => false,
        };
        if now.cancelled || closed || now.elapsed_ms >= self.config.session_timeout_ms {
            self.phase = ControllerPhase::Joining;
            ControllerAction::ShutDown { send }
        } else {
            let left: u64 = self.config.session_timeout_ms - now.elapsed_ms;
            let wait_ms: u64 = if left < self.config.receive_interval_ms {
                left
            } else {
                self.config.receive_interval_ms
            };
            self.phase = ControllerPhase::Watching;
            ControllerAction::Watch { send, wait_ms }
        }
    }

    /// Takes in what happened and says what to do next.
    pub fn step(&mut self, event: ControllerEvent, now: Observation) -> (action:
        ControllerAction)
        ensures
            (final(self)@, action) == controller_step(old(self)@, event, now),
    {
        match self.phase {
            ControllerPhase::Ready => match event {
                ControllerEvent::Started => self.watch_step(event, now),
                _ => ControllerAction::Ignore,
            },
            ControllerPhase::Watching => match event {
                ControllerEvent::Received(_)
                | ControllerEvent::TimedOut
                | ControllerEvent::EventsClosed => self.watch_step(event, now),
                _ => ControllerAction::Ignore,
            },
            ControllerPhase::Joining => match event {
                ControllerEvent::PollerFinished => {
                    self.phase = ControllerPhase::Finished;
                    ControllerAction::Finish
                },
                _ => ControllerAction::Ignore,
            },
            ControllerPhase::Finished => ControllerAction::Ignore,
        }
    }
}

} // verus!
