//! The poller: samples the ball, passes on what is worth reporting, carries
//! out commands, and leaves the device dark when it ends.

use crate::pim447::{
    colour_writes, input_of, is_dark, lemma_state_update, lemma_zero_contrast_is_dark,
    requests_of, state_after, Command, DeviceState, Input, Trackball,
};
use crate::plan::{
    attempted, lemma_plan_stops_at_first_failure, next_request, progress_after, progress_init,
    progress_inv, status_of, PlanRun, Progress,
};
use crate::protocol::{BusRequest, INPUT_BLOCK_LEN, REG_LEFT};
use vstd::prelude::*;

verus! {

/// What the poller is waiting for.
#[derive(Debug, Clone, Copy, PartialEq, Eq)]
pub enum PollerPhase {
    /// Nothing yet: the run has not begun.
    Ready,
    /// The outcome of a motion read.
    Sampling,
    /// The next command, or the end of the poll interval.
    Listening,
    /// The outcome of a transaction that carries out a command.
    Applying,
    /// The outcome of one of the writes that darken the device.
    Cleaning,
    /// Nothing more: the run is over.
    Finished,
}

/// What cut a run short.
#[derive(Debug, Clone, Copy, PartialEq, Eq)]
pub enum PollerFault {
    /// A bus transaction failed.
    Transport,
    /// An event could not be passed on: nobody listens any more.
    EventQueueClosed,
}

/// What the caller reports to the poller.
#[derive(Debug, Clone, Copy, PartialEq, Eq)]
pub enum PollerEvent {
    /// The run begins.
    Started,
    /// The motion read delivered these five bytes.
    Sampled([u8; 5]),
    /// A command arrived within the poll interval.
    CommandReceived(Command),
    /// The poll interval passed without a command.
    CommandTimedOut,
    /// No command will ever arrive: the queue is closed.
    CommandsClosed,
    /// The event to pass on could not be delivered: its queue is closed.
    EventsClosed,
    /// The transaction asked for was carried out.
    BusCompleted,
    /// The transaction asked for failed.
    BusFailed,
}

/// What the poller asks of the caller.
#[derive(Debug, Clone, Copy, PartialEq, Eq)]
pub enum PollerAction {
    /// Perform this read and report `Sampled` or `BusFailed`.
    Sample(BusRequest),
    /// Pass `forward` on, if there is one, then wait up to `wait_ms`
    /// milliseconds for one command. Report `EventsClosed` if the event
    /// cannot be delivered, else how the wait ended.
    Listen { forward: Option<Input>, wait_ms: u64 },
    /// Perform this transaction and report `BusCompleted` or `BusFailed`.
    Transact(BusRequest),
    /// The run is over; `fault` tells whether anything cut it short.
    Finish { fault: Option<PollerFault> },
    /// The event was not awaited: nothing has changed, and the last
    /// request stands.
    Ignore,
}

/// A poller as contracts see it.
pub struct PollerState {
    /// What the driver remembers.
    pub device: DeviceState,
    pub phase: PollerPhase,
    /// What went wrong, if anything did. A failure on the bus outweighs a
    /// closed event queue.
    pub fault: Option<PollerFault>,
    /// Longest wait for a command, in milliseconds.
    pub poll_interval_ms: u64,
    /// The plan that is being carried out, or was last.
    pub transfer: Progress,
}

/// The state in which a run begins.
pub open spec fn poller_init(device: DeviceState, poll_interval_ms: u64) -> PollerState {
    PollerState {
        device,
        phase: PollerPhase::Ready,
        fault: None,
        poll_interval_ms,
        transfer: progress_init(Seq::empty()),
    }
}

/// The action that asks for the next motion sample.
pub open spec fn sample_action() -> PollerAction {
    PollerAction::Sample(BusRequest::BlockRead { register: REG_LEFT, length: INPUT_BLOCK_LEN })
}

/// The sample to pass on: the decoded bytes if they report anything, else
/// nothing.
pub open spec fn worth_forwarding(raw: [u8; 5]) -> Option<Input> {
    let input = input_of(raw[0], raw[1], raw[2], raw[3], raw[4]);
    if input.state_update {
        Some(input)
    } else {
        None
    }
}

/// The beginning of a plan: the poller enters phase `then` and asks for the
/// plan's first transaction. A plan without transactions is over at once.
pub open spec fn set_out(s: PollerState, then: PollerPhase, plan: Seq<BusRequest>) -> (
    PollerState,
    PollerAction,
) {
    carry_on(PollerState { phase: then, transfer: progress_init(plan), ..s })
}

/// What follows in the middle of a plan: the next transaction is asked for,
/// or, when none is left, the plan is over. After a command the loop then
/// turns to the next sample; after the darkening writes the run ends.
pub open spec fn carry_on(s: PollerState) -> (PollerState, PollerAction) {
    match next_request(s.transfer) {
        Some(request) => (s, PollerAction::Transact(request)),
        None => if s.phase is Cleaning {
            (
                PollerState { phase: PollerPhase::Finished, ..s },
                PollerAction::Finish { fault: s.fault },
            )
        } else {
            (PollerState { phase: PollerPhase::Sampling, ..s }, sample_action())
        },
    }
}

/// The end of the loop: the driver executes `TurnOff`, and the darkening
/// writes set out. `fault` is what ended the loop, if it was a fault.
pub open spec fn wind_down(s: PollerState, fault: Option<PollerFault>) -> (
    PollerState,
    PollerAction,
) {
    set_out(
        PollerState { device: state_after(s.device, Command::TurnOff), fault, ..s },
        PollerPhase::Cleaning,
        requests_of(s.device, Command::TurnOff),
    )
}

/// The next state of a poller and what it asks for, given what happened.
pub open spec fn poller_step(s: PollerState, event: PollerEvent) -> (PollerState, PollerAction) {
    match s.phase {
        PollerPhase::Ready => match event {
            PollerEvent::Started => (
                PollerState { phase: PollerPhase::Sampling, ..s },
                sample_action(),
            ),
            _ => (s, PollerAction::Ignore),
        },
        PollerPhase::Sampling => match event {
            PollerEvent::Sampled(raw) => (
                PollerState { phase: PollerPhase::Listening, ..s },
                PollerAction::Listen {
                    forward: worth_forwarding(raw),
                    wait_ms: s.poll_interval_ms,
                },
            ),
            PollerEvent::BusFailed => wind_down(s, Some(PollerFault::Transport)),
            _ => (s, PollerAction::Ignore),
        },
        PollerPhase::Listening => match event {
            PollerEvent::CommandReceived(Command::TurnOff) => wind_down(s, None),
            PollerEvent::CommandReceived(command) => set_out(
                PollerState { device: state_after(s.device, command), ..s },
                PollerPhase::Applying,
                requests_of(s.device, command),
            ),
            PollerEvent::CommandTimedOut => (
                PollerState { phase: PollerPhase::Sampling, ..s },
                sample_action(),
            ),
            PollerEvent::CommandsClosed => wind_down(s, None),
            PollerEvent::EventsClosed => wind_down(s, Some(PollerFault::EventQueueClosed)),
            _ => (s, PollerAction::Ignore),
        },
        PollerPhase::Applying => match event {
            PollerEvent::BusCompleted => carry_on(
                PollerState { transfer: progress_after(s.transfer, true), ..s },
            ),
            PollerEvent::BusFailed => wind_down(s, Some(PollerFault::Transport)),
            _ => (s, PollerAction::Ignore),
        },
        PollerPhase::Cleaning => match event {
            PollerEvent::BusCompleted => carry_on(
                PollerState { transfer: progress_after(s.transfer, true), ..s },
            ),
            PollerEvent::BusFailed => (
                PollerState {
                    phase: PollerPhase::Finished,
                    fault: Some(PollerFault::Transport),
                    transfer: progress_after(s.transfer, false),
                    ..s
                },
                PollerAction::Finish { fault: Some(PollerFault::Transport) },
            ),
            _ => (s, PollerAction::Ignore),
        },
        PollerPhase::Finished => (s, PollerAction::Ignore),
    }
}

/// What holds of a poller at every moment of a run: the plan in hand has
/// not come further than it reaches; while the loop turns nothing has gone
/// wrong yet; and once it has ended the driver has executed `TurnOff` and
/// nothing after it.
pub open spec fn poller_inv(s: PollerState) -> bool {
    &&& progress_inv(s.transfer)
    &&& match s.phase {
        PollerPhase::Cleaning | PollerPhase::Finished => s.device.contrast == 0,
        _ => s.fault is None,
    }
}

/// A run begins in order.
pub proof fn lemma_poller_init_in_order(device: DeviceState, poll_interval_ms: u64)
    ensures
        poller_inv(poller_init(device, poll_interval_ms)),
{
}

/// A poller that is in order stays in order, whatever happens.
pub proof fn lemma_poller_step_keeps_order(s: PollerState, event: PollerEvent)
    requires
        poller_inv(s),
    ensures
        poller_inv(poller_step(s, event).0),
{
    lemma_plan_stops_at_first_failure(s.transfer, true);
    lemma_plan_stops_at_first_failure(s.transfer, false);
}

/// A sample that reports nothing is never passed on: whenever a step hands
/// out an event, that event has `state_update` set, and a sample whose four
/// motion bytes are zero and whose switch byte is even leads to none.
pub proof fn lemma_silent_sample_is_dropped(s: PollerState, event: PollerEvent)
    ensures
        poller_step(s, event).1 matches PollerAction::Listen { forward: Some(input), .. }
            ==> input.state_update,
        s.phase is Sampling && (event matches PollerEvent::Sampled(raw) && raw[0] == 0 && raw[1]
            == 0 && raw[2] == 0 && raw[3] == 0 && raw[4] % 2 == 0) ==> poller_step(s, event).1
            == (PollerAction::Listen { forward: None, wait_ms: s.poll_interval_ms }),
{
    if let PollerEvent::Sampled(raw) = event {
        lemma_state_update(raw[0], raw[1], raw[2], raw[3], raw[4]);
    }
}

/// The driver changes only by executing a command: the one that was
/// received, or `TurnOff` when the loop ends.
pub proof fn lemma_device_changes_by_command(s: PollerState, event: PollerEvent)
    ensures
        ({
            let next = poller_step(s, event).0;
            ||| next.device == s.device
            ||| next.device == state_after(s.device, Command::TurnOff)
            ||| event matches PollerEvent::CommandReceived(command) && next.device == state_after(
                s.device,
                command,
            )
        }),
{
}

/// A plan is carried out transaction by transaction, in its order, and the
/// first failure is its end: the transactions behind the one that failed
/// are never asked for. After a command that went through, the loop turns
/// to the next sample; after one that failed, it ends and the darkening
/// writes set out. After the darkening writes the run is over, however
/// they fared.
pub proof fn lemma_plan_is_followed(s: PollerState, event: PollerEvent)
    requires
        s.phase is Applying || s.phase is Cleaning,
        next_request(s.transfer) is Some,
    ensures
        ({
            let (next, action) = poller_step(s, event);
            let plan = s.transfer.plan;
            let done = s.transfer.done as int;
            &&& event is BusCompleted && done + 1 < plan.len() ==> {
                &&& next.phase == s.phase
                &&& action == PollerAction::Transact(plan[done + 1])
                &&& attempted(next.transfer) == plan.take(done + 1)
            }
            &&& event is BusCompleted && done + 1 == plan.len() ==> {
                &&& attempted(next.transfer) == plan
                &&& s.phase is Applying ==> next.phase is Sampling && action == sample_action()
                &&& s.phase is Cleaning ==> next.phase is Finished && action == (
                PollerAction::Finish { fault: s.fault })
            }
            &&& event is BusFailed ==> {
                &&& next.fault == Some(PollerFault::Transport)
                &&& s.phase is Applying ==> next.phase is Cleaning && action
                    == PollerAction::Transact(colour_writes(next.device)[0])
                &&& s.phase is Cleaning ==> next.phase is Finished && action == (
                PollerAction::Finish { fault: next.fault }) && attempted(next.transfer)
                    == plan.take(done + 1)
            }
        }),
{
    lemma_plan_stops_at_first_failure(s.transfer, true);
    let (next, action) = poller_step(s, event);
    if event is BusCompleted {
        assert(attempted(next.transfer) =~= s.transfer.plan.take(s.transfer.done as int + 1));
        if s.transfer.done + 1 == s.transfer.plan.len() {
            assert(attempted(next.transfer) =~= s.transfer.plan);
        }
    }
}

/// The loop ends in one way only. Whatever ends it (`TurnOff`, a closed
/// queue, a failure), the driver executes `TurnOff` and the darkening
/// writes set out; the run is over once they are through or one of them
/// has failed, and the driver then remembers a dark device.
pub proof fn lemma_poller_ends_dark(s: PollerState, event: PollerEvent)
    requires
        poller_inv(s),
    ensures
        ({
            let (next, action) = poller_step(s, event);
            &&& next.phase is Cleaning && !(s.phase is Cleaning) ==> {
                &&& next.device == state_after(s.device, Command::TurnOff)
                &&& next.transfer == progress_init(colour_writes(next.device))
                &&& action == PollerAction::Transact(colour_writes(next.device)[0])
                &&& is_dark(next.device)
            }
            &&& next.phase is Finished && !(s.phase is Finished) ==> {
                &&& s.phase is Cleaning
                &&& next.device == s.device
                &&& is_dark(next.device)
                &&& action == (PollerAction::Finish { fault: next.fault })
            }
            &&& s.phase is Finished ==> next == s && action == PollerAction::Ignore
        }),
{
    let next = poller_step(s, event).0;
    if next.phase is Cleaning || next.phase is Finished {
        lemma_poller_step_keeps_order(s, event);
        lemma_zero_contrast_is_dark(next.device);
    }
}

/// No failure goes unreported. A fault, once noted, is not forgotten, and a
/// failure on the bus is reported as such even when it strikes during the
/// darkening writes; a loop that ends without a fault was ended by
/// `TurnOff` or by the closing of the command queue.
pub proof fn lemma_faults_are_reported(s: PollerState, event: PollerEvent)
    requires
        poller_inv(s),
    ensures
        ({
            let (next, action) = poller_step(s, event);
            &&& s.fault is Some ==> next.fault is Some
            &&& s.fault == Some(PollerFault::Transport) ==> next.fault == s.fault
            &&& event is BusFailed && action != PollerAction::Ignore ==> next.fault == Some(
                PollerFault::Transport,
            )
            &&& event is EventsClosed && action != PollerAction::Ignore ==> next.fault == Some(
                PollerFault::EventQueueClosed,
            )
            &&& action matches PollerAction::Finish { fault } ==> fault == next.fault
            &&& next.phase is Cleaning && !(s.phase is Cleaning) && next.fault is None
                ==> s.phase is Listening && (event == PollerEvent::CommandReceived(
                Command::TurnOff,
            ) || event == PollerEvent::CommandsClosed)
        }),
{
}

/// A whole run: the state a poller is in after a sequence of events, and
/// every action it has asked for on the way, in order.
pub open spec fn poller_run(
    device: DeviceState,
    poll_interval_ms: u64,
    events: Seq<PollerEvent>,
) -> (PollerState, Seq<PollerAction>)
    decreases events.len(),
{
    if events.len() == 0 {
        (poller_init(device, poll_interval_ms), Seq::empty())
    } else {
        let (s, asked) = poller_run(device, poll_interval_ms, events.drop_last());
        let (next, action) = poller_step(s, events.last());
        (next, asked.push(action))
    }
}

/// The bus transactions among a sequence of actions, in order.
pub open spec fn bus_log(asked: Seq<PollerAction>) -> Seq<BusRequest>
    decreases asked.len(),
{
    if asked.len() == 0 {
        Seq::empty()
    } else {
        let before = bus_log(asked.drop_last());
        match asked.last() {
            PollerAction::Sample(request) => before.push(request),
            PollerAction::Transact(request) => before.push(request),
            _ => before,
        }
    }
}

/// Whether `log` ends with the transactions `tail`.
pub open spec fn ends_with(log: Seq<BusRequest>, tail: Seq<BusRequest>) -> bool {
    &&& tail.len() <= log.len()
    &&& log.subrange(log.len() - tail.len(), log.len() as int) == tail
}

/// The transactions of the current plan that have been asked for: those
/// carried out and the one whose outcome is awaited or was a failure.
pub open spec fn asked_of_plan(s: PollerState) -> Seq<BusRequest> {
    if next_request(s.transfer) is Some {
        s.transfer.plan.take(s.transfer.done as int + 1)
    } else {
        attempted(s.transfer)
    }
}

/// In every run the poller is in order at every moment, and no sample that
/// reports nothing is ever passed on.
pub proof fn lemma_every_run_in_order(
    device: DeviceState,
    poll_interval_ms: u64,
    events: Seq<PollerEvent>,
)
    ensures
        ({
            let (end, asked) = poller_run(device, poll_interval_ms, events);
            &&& poller_inv(end)
            &&& asked.len() == events.len()
            &&& forall|i: int|
                0 <= i < asked.len() ==> (#[trigger] asked[i] matches PollerAction::Listen {
                    forward: Some(input),
                    ..
                } ==> input.state_update)
        }),
    decreases events.len(),
{
    if events.len() > 0 {
        let s = poller_run(device, poll_interval_ms, events.drop_last()).0;
        lemma_every_run_in_order(device, poll_interval_ms, events.drop_last());
        lemma_poller_step_keeps_order(s, events.last());
        lemma_silent_sample_is_dropped(s, events.last());
    }
}

proof fn lemma_ends_with_push(log: Seq<BusRequest>, tail: Seq<BusRequest>, request: BusRequest)
    requires
        ends_with(log, tail),
    ensures
        ends_with(log.push(request), tail.push(request)),
        ends_with(log.push(request), seq![request]),
{
    let longer = log.push(request);
    assert(longer.subrange(longer.len() - (tail.len() + 1), longer.len() as int) =~= tail.push(
        request,
    ));
    assert(longer.subrange(longer.len() - 1, longer.len() as int) =~= seq![request]);
}

/// In every run, the transactions of the plan in hand are the last thing
/// that was asked of the bus. So a run that is over has ended on the bus
/// with the darkening writes: all four of them, red first, unless one of
/// them failed, and then those up to the one that failed. Nothing touches
/// the bus after them.
pub proof fn lemma_last_bus_activity_darkens(
    device: DeviceState,
    poll_interval_ms: u64,
    events: Seq<PollerEvent>,
)
    ensures
        ({
            let (end, asked) = poller_run(device, poll_interval_ms, events);
            let log = bus_log(asked);
            &&& end.phase is Applying || end.phase is Cleaning ==> next_request(end.transfer)
                is Some && ends_with(log, asked_of_plan(end))
            &&& end.phase is Cleaning || end.phase is Finished ==> end.transfer.plan
                == colour_writes(end.device) && is_dark(end.device)
            &&& end.phase is Finished ==> {
                &&& ends_with(log, attempted(end.transfer))
                &&& attempted(end.transfer).len() >= 1
                &&& status_of(end.transfer) is Completed ==> attempted(end.transfer)
                    == colour_writes(end.device)
                &&& end.fault != Some(PollerFault::Transport) ==> status_of(end.transfer)
                    is Completed
            }
        }),
    decreases events.len(),
{
    if events.len() > 0 {
        let (s, before) = poller_run(device, poll_interval_ms, events.drop_last());
        let (end, asked) = poller_run(device, poll_interval_ms, events);
        let event = events.last();
        let action = poller_step(s, event).1;
        lemma_last_bus_activity_darkens(device, poll_interval_ms, events.drop_last());
        lemma_every_run_in_order(device, poll_interval_ms, events.drop_last());
        lemma_plan_stops_at_first_failure(s.transfer, true);
        assert(asked.drop_last() == before);
        let old_log = bus_log(before);
        let log = bus_log(asked);
        if end.phase is Cleaning || end.phase is Finished {
            lemma_zero_contrast_is_dark(end.device);
        }
        if action == PollerAction::Ignore {
        } else if let PollerAction::Transact(request) = action {
            assert(log == old_log.push(request));
            if s.phase == end.phase && (s.phase is Applying || s.phase is Cleaning) && (
            event is BusCompleted) {
                // The next transaction of the plan in hand.
                assert(asked_of_plan(end) =~= asked_of_plan(s).push(request));
                lemma_ends_with_push(old_log, asked_of_plan(s), request);
            } else {
                // The first transaction of a new plan.
                assert(asked_of_plan(end) =~= seq![request]);
                assert(old_log.subrange(old_log.len() as int, old_log.len() as int)
                    =~= Seq::empty());
                lemma_ends_with_push(old_log, Seq::empty(), request);
            }
        } else if end.phase is Finished {
            assert(attempted(end.transfer) =~= asked_of_plan(s));
        }
    }
}

/// The poller: the driver and where in its loop it stands.
pub struct Poller {
    driver: Trackball,
    phase: PollerPhase,
    fault: Option<PollerFault>,
    poll_interval_ms: u64,
    transfer: PlanRun,
}

impl View for Poller {
    type V = PollerState;

    closed spec fn view(&self) -> PollerState {
        PollerState {
            device: self.driver@,
            phase: self.phase,
            fault: self.fault,
            poll_interval_ms: self.poll_interval_ms,
            transfer: self.transfer@,
        }
    }
}

impl Poller {
    #[verifier::type_invariant]
    closed spec fn well_formed(self) -> bool {
        poller_inv(self@)
    }

    /// A poller that takes over `driver` and waits at most
    /// `poll_interval_ms` milliseconds for each command.
    pub fn new(driver: Trackball, poll_interval_ms: u64) -> (poller: Self)
        ensures
            poller@ == poller_init(driver@, poll_interval_ms),
    {
        Poller {
            driver,
            phase: PollerPhase::Ready,
            fault: None,
            poll_interval_ms,
            transfer: PlanRun::new(Vec::new()),
        }
    }

    /// What the poller is waiting for. Whatever it is, the poller is in
    /// order; in particular a poller that has finished has left the device
    /// dark.
    pub fn phase(&self) -> (phase: PollerPhase)
        ensures
            phase == self@.phase,
            poller_inv(self@),
            phase is Finished ==> is_dark(self@.device),
    {
        proof {
            use_type_invariant(self);
            if self.phase is Finished {
                lemma_zero_contrast_is_dark(self@.device);
            }
        }
        self.phase
    }

    /// What cut the run short, if anything has.
    pub fn fault(&self) -> (fault: Option<PollerFault>)
        ensures
            fault == self@.fault,
    {
        self.fault
    }

    /// The driver, for a look at what it remembers.
    pub fn driver(&self) -> (driver: &Trackball)
        ensures
            driver@ == self@.device,
    {
        &self.driver
    }

    /// Gives the driver back. After a finished run it is dark.
    pub fn into_driver(self) -> (driver: Trackball)
        ensures
            driver@ == self@.device,
            self@.phase is Finished ==> is_dark(driver@),
    {
        proof {
            use_type_invariant(&self);
            if self.phase is Finished {
                lemma_zero_contrast_is_dark(self@.device);
            }
        }
        self.driver
    }

    fn carry_on(&mut self) -> (action: PollerAction)
        requires
            old(self)@.phase is Applying || old(self)@.phase is Cleaning,
        ensures
            (final(self)@, action) == carry_on(old(self)@),
    {
        proof {
            use_type_invariant(&*self);
        }
        match self.transfer.next() {
            Some(request) => PollerAction::Transact(request),
            None => match self.phase {
                PollerPhase::Cleaning => {
                    self.phase = PollerPhase::Finished;
                    PollerAction::Finish { fault: self.fault }
                },
                _ => {
                    self.phase = PollerPhase::Sampling;
                    sample()
                },
            },
        }
    }

    fn execute(&mut self, command: Command) -> (action: PollerAction)
        requires
            old(self)@.phase is Listening,
            command != Command::TurnOff,
        ensures
            (final(self)@, action) == set_out(
                PollerState { device: state_after(old(self)@.device, command), ..old(self)@ },
                PollerPhase::Applying,
                requests_of(old(self)@.device, command),
            ),
    {
        proof {
            use_type_invariant(&*self);
        }
        self.driver.remember(command);
        self.transfer = PlanRun::new(self.driver.requests(command));
        self.phase = PollerPhase::Applying;
        self.carry_on()
    }

    fn wind_down(&mut self, fault: Option<PollerFault>) -> (action: PollerAction)
        requires
            !(old(self)@.phase is Cleaning),
            !(old(self)@.phase is Finished),
        ensures
            (final(self)@, action) == wind_down(old(self)@, fault),
    {
        proof {
            use_type_invariant(&*self);
        }
        self.driver.remember(Command::TurnOff);
        self.transfer = PlanRun::new(self.driver.requests(Command::TurnOff));
        self.phase = PollerPhase::Cleaning;
        self.fault = fault;
        self.carry_on()
    }

    /// Takes in what happened and says what to do next.
    pub fn step(&mut self, event: PollerEvent) -> (action: PollerAction)
        ensures
            (final(self)@, action) == poller_step(old(self)@, event),
            poller_inv(old(self)@),
            poller_inv(final(self)@),
    {
        proof {
            use_type_invariant(&*self);
        }
        match self.phase {
            PollerPhase::Ready => match event {
                PollerEvent::Started => {
                    self.phase = PollerPhase::Sampling;
                    sample()
                },
                _ => PollerAction::Ignore,
            },
            PollerPhase::Sampling => match event {
                PollerEvent::Sampled(raw) => {
                    let input: Input = self.driver.read_input(raw);
                    self.phase = PollerPhase::Listening;
                    PollerAction::Listen {
                        forward: if input.state_update {
                            Some(input)
                        } else {
                            None
                        },
                        wait_ms: self.poll_interval_ms,
                    }
                },
                PollerEvent::BusFailed => self.wind_down(Some(PollerFault::Transport)),
                _ => PollerAction::Ignore,
            },
            PollerPhase::Listening => match event {
                PollerEvent::CommandReceived(Command::TurnOff) => self.wind_down(None),
                PollerEvent::CommandReceived(command) => self.execute(command),
                PollerEvent::CommandTimedOut => {
                    self.phase = PollerPhase::Sampling;
                    sample()
                },
                PollerEvent::CommandsClosed => self.wind_down(None),
                PollerEvent::EventsClosed => self.wind_down(Some(PollerFault::EventQueueClosed)),
                _ => PollerAction::Ignore,
            },
            PollerPhase::Applying => match event {
                PollerEvent::BusCompleted => {
                    self.transfer.report(true);
                    self.carry_on()
                },
                PollerEvent::BusFailed => self.wind_down(Some(PollerFault::Transport)),
                _ => PollerAction::Ignore,
            },
            PollerPhase::Cleaning => match event {
                PollerEvent::BusCompleted => {
                    self.transfer.report(true);
                    self.carry_on()
                },
                PollerEvent::BusFailed => {
                    self.transfer.report(false);
                    self.fault = Some(PollerFault::Transport);
                    self.phase = PollerPhase::Finished;
                    PollerAction::Finish { fault: self.fault }
                },
                _ => PollerAction::Ignore,
            },
            PollerPhase::Finished => PollerAction::Ignore,
        }
    }
}

fn sample() -> (action: PollerAction)
    ensures
        action == sample_action(),
{
    PollerAction::Sample(Trackball::input_request())
}

} // verus!
