use pim447_trackball::pim447::{Command, Endianness, Input, Trackball};
use pim447_trackball::pipeline::config::PipelineConfig;
use pim447_trackball::pipeline::controller::{
    Controller, ControllerAction, ControllerEvent, ControllerPhase, Observation,
};
use pim447_trackball::pipeline::poller::{
    Poller, PollerAction, PollerEvent, PollerFault, PollerPhase,
};
use pim447_trackball::protocol::BusRequest;
use std::collections::VecDeque;

/// A bus that answers from a script and keeps a log.
struct ScriptedBus {
    /// Motion samples to hand out; at rest once they are used up.
    samples: VecDeque<[u8; 5]>,
    /// Every transaction that was attempted, in order.
    log: Vec<BusRequest>,
    /// Position in the log of the transaction that fails, if one does.
    fails_at: Option<usize>,
}

impl ScriptedBus {
    fn new(samples: &[[u8; 5]]) -> Self {
        ScriptedBus { samples: samples.iter().copied().collect(), log: Vec::new(), fails_at: None }
    }

    fn perform(&mut self, request: BusRequest) -> Result<(), ()> {
        self.log.push(request);
        if self.fails_at == Some(self.log.len() - 1) {
            Err(())
        } else {
            Ok(())
        }
    }

    fn sample(&mut self, request: BusRequest) -> Result<[u8; 5], ()> {
        self.perform(request)?;
        Ok(self.samples.pop_front().unwrap_or([0; 5]))
    }
}

/// Both loops on one thread, a turn each, with queues between them and a
/// clock that only moves when the controller waits in vain.
struct Pipeline {
    bus: ScriptedBus,
    poller: Poller,
    poller_action: PollerAction,
    poller_result: Option<Option<PollerFault>>,
    controller: Controller,
    controller_action: ControllerAction,
    events: VecDeque<Input>,
    commands: VecDeque<Command>,
    elapsed_ms: u64,
    cancel_at_ms: Option<u64>,
    /// Everything that went through the queues.
    forwarded: Vec<Input>,
    sent: Vec<Command>,
    received: Vec<Command>,
}

impl Pipeline {
    fn start(
        driver: Trackball,
        bus: ScriptedBus,
        config: PipelineConfig,
        cancel_at_ms: Option<u64>,
    ) -> Self {
        let mut poller = Poller::new(driver, config.poll_interval_ms);
        let poller_action = poller.step(PollerEvent::Started);
        let mut controller = Controller::new(config);
        let controller_action = controller.step(
            ControllerEvent::Started,
            Observation { cancelled: cancel_at_ms == Some(0), elapsed_ms: 0 },
        );
        Pipeline {
            bus,
            poller,
            poller_action,
            poller_result: None,
            controller,
            controller_action,
            events: VecDeque::new(),
            commands: VecDeque::new(),
            elapsed_ms: 0,
            cancel_at_ms,
            forwarded: Vec::new(),
            sent: Vec::new(),
            received: Vec::new(),
        }
    }

    /// One turn of the poller's loop: up to and including one wait for a
    /// command.
    fn poller_turn(&mut self) {
        while self.poller_result.is_none() {
            let action = std::mem::replace(&mut self.poller_action, PollerAction::Ignore);
            let (event, waited) = match action {
                PollerAction::Sample(request) => match self.bus.sample(request) {
                    Ok(raw) => (PollerEvent::Sampled(raw), false),
                    Err(()) => (PollerEvent::BusFailed, false),
                },
                PollerAction::Listen { forward, wait_ms } => {
                    assert_eq!(wait_ms, 100);
                    if let Some(input) = forward {
                        self.events.push_back(input);
                        self.forwarded.push(input);
                    }
                    match self.commands.pop_front() {
                        Some(command) => {
                            self.received.push(command);
                            (PollerEvent::CommandReceived(command), true)
                        }
                        None => (PollerEvent::CommandTimedOut, true),
                    }
                }
                PollerAction::Transact(request) => match self.bus.perform(request) {
                    Ok(()) => (PollerEvent::BusCompleted, false),
                    Err(()) => (PollerEvent::BusFailed, false),
                },
                PollerAction::Finish { fault } => {
                    self.poller_result = Some(fault);
                    return;
                }
                PollerAction::Ignore => panic!("the poller was told something out of turn"),
            };
            self.poller_action = self.poller.step(event);
            if waited {
                return;
            }
        }
    }

    fn observe(&self) -> Observation {
        Observation {
            cancelled: self.cancel_at_ms.map_or(false, |t| self.elapsed_ms >= t),
            elapsed_ms: self.elapsed_ms,
        }
    }

    fn send(&mut self, action: ControllerAction) {
        for command in action.commands() {
            self.commands.push_back(command);
            self.sent.push(command);
        }
    }

    /// One turn of the controller's loop. Returns whether the session is over.
    fn controller_turn(&mut self) -> bool {
        self.send(self.controller_action);
        match self.controller_action {
            ControllerAction::Watch { wait_ms, .. } => {
                let event = match self.events.pop_front() {
                    Some(input) => ControllerEvent::Received(input),
                    None if self.poller_result.is_some() => ControllerEvent::EventsClosed,
                    None => {
                        self.elapsed_ms += wait_ms;
                        ControllerEvent::TimedOut
                    }
                };
                self.controller_action = self.controller.step(event, self.observe());
                false
            }
            ControllerAction::ShutDown { .. } => {
                let mut turns = 0;
                while self.poller_result.is_none() {
                    self.poller_turn();
                    turns += 1;
                    assert!(turns < 100, "the poller does not end");
                }
                self.controller_action =
                    self.controller.step(ControllerEvent::PollerFinished, self.observe());
                false
            }
            ControllerAction::Finish => true,
            ControllerAction::Ignore => panic!("the controller was told something out of turn"),
        }
    }

    fn run(mut self) -> Self {
        let mut turns = 0;
        loop {
            self.poller_turn();
            if self.controller_turn() {
                return self;
            }
            turns += 1;
            assert!(turns < 10_000, "the session does not end");
        }
    }
}

fn lit_driver() -> Trackball {
    let mut driver = Trackball::new(Endianness::Little);
    driver.execute_command(Command::TurnOn);
    driver.execute_command(Command::SetContrast(0xff));
    let (r, g, b) = Trackball::convert_hex_colour_to_rgb("#FFFFFF".to_string()).unwrap();
    let (r, g, b, w) = Trackball::rgbw_with_white(r, g, b, 255);
    driver.execute_command(Command::SetColour(r, g, b, w));
    driver
}

fn writes(r: u8, g: u8, b: u8, w: u8) -> Vec<BusRequest> {
    vec![
        BusRequest::BlockWrite { register: 0x00, value: r },
        BusRequest::BlockWrite { register: 0x01, value: g },
        BusRequest::BlockWrite { register: 0x02, value: b },
        BusRequest::BlockWrite { register: 0x03, value: w },
    ]
}

fn led_writes(log: &[BusRequest]) -> Vec<BusRequest> {
    log.iter().copied().filter(|r| matches!(r, BusRequest::BlockWrite { .. })).collect()
}

#[test]
fn quiet_session_ends_with_one_turn_off_and_a_dark_device() {
    let end = Pipeline::start(
        lit_driver(),
        ScriptedBus::new(&[]),
        PipelineConfig::default(),
        Some(3_000),
    )
    .run();
    // The controller has sent nothing but the one TurnOff, and the poller got it once.
    assert_eq!(end.sent, vec![Command::TurnOff]);
    assert_eq!(end.received, vec![Command::TurnOff]);
    assert!(end.forwarded.is_empty());
    assert_eq!(end.poller_result, Some(None));
    assert_eq!(end.poller.phase(), PollerPhase::Finished);
    assert_eq!(end.controller.phase(), ControllerPhase::Finished);
    assert_eq!(end.controller.seen(), 0);
    // The last thing on the bus is the darkening of the four LEDs.
    assert_eq!(end.bus.log[end.bus.log.len() - 4..], writes(0, 0, 0, 0)[..]);
    assert_eq!(led_writes(&end.bus.log), writes(0, 0, 0, 0));
    let driver = end.poller.into_driver();
    assert_eq!(driver.state().contrast, 0);
    assert_eq!(driver.physical_colour(), (0, 0, 0, 0));
    // The colour is remembered through the darkness.
    assert_eq!(driver.state().white, 255);
}

#[test]
fn session_timeout_ends_a_quiet_session_too() {
    let end =
        Pipeline::start(lit_driver(), ScriptedBus::new(&[]), PipelineConfig::default(), None).run();
    assert_eq!(end.elapsed_ms, 120_000);
    assert_eq!(end.sent, vec![Command::TurnOff]);
    assert_eq!(end.received, vec![Command::TurnOff]);
    assert_eq!(end.poller.driver().state().contrast, 0);
    assert_eq!(end.bus.log[end.bus.log.len() - 4..], writes(0, 0, 0, 0)[..]);
}

#[test]
fn five_events_trigger_one_colour_change() {
    let moves =
        [[0, 1, 0, 0, 0], [2, 0, 0, 0, 0], [0, 0, 3, 0, 0], [0, 0, 0, 4, 0], [0, 0, 0, 0, 1]];
    let end = Pipeline::start(
        lit_driver(),
        ScriptedBus::new(&moves),
        PipelineConfig::default(),
        Some(5_000),
    )
    .run();
    assert_eq!(end.forwarded.len(), 5);
    assert_eq!(end.controller.seen(), 5);
    assert_eq!(end.sent, vec![Command::SetColour(255, 0, 0, 0), Command::TurnOff]);
    assert_eq!(end.received, vec![Command::SetColour(255, 0, 0, 0), Command::TurnOff]);
    // Red was shown at full contrast, then the LEDs went dark.
    let mut expected = writes(255, 0, 0, 0);
    expected.extend(writes(0, 0, 0, 0));
    assert_eq!(led_writes(&end.bus.log), expected);
    let state = end.poller.driver().state();
    assert_eq!((state.red, state.green, state.blue, state.white), (255, 0, 0, 0));
    assert_eq!(state.contrast, 0);
}

#[test]
fn four_events_trigger_none_and_six_no_second() {
    let moves = [[0, 1, 0, 0, 0]; 6];
    let four = Pipeline::start(
        lit_driver(),
        ScriptedBus::new(&moves[..4]),
        PipelineConfig::default(),
        Some(5_000),
    )
    .run();
    assert_eq!(four.controller.seen(), 4);
    assert_eq!(four.sent, vec![Command::TurnOff]);

    let six = Pipeline::start(
        lit_driver(),
        ScriptedBus::new(&moves),
        PipelineConfig::default(),
        Some(5_000),
    )
    .run();
    assert_eq!(six.controller.seen(), 6);
    assert_eq!(six.sent, vec![Command::SetColour(255, 0, 0, 0), Command::TurnOff]);
}

#[test]
fn samples_at_rest_never_reach_the_controller() {
    // Motion and rest in turn; held down without a change counts as rest.
    let samples = [
        [0, 0, 0, 0, 0],
        [0, 5, 0, 0, 0],
        [0, 0, 0, 0, 0x80],
        [0, 0, 0, 0, 0x81],
        [0, 0, 0, 0, 0],
        [1, 1, 1, 1, 0],
    ];
    let end = Pipeline::start(
        lit_driver(),
        ScriptedBus::new(&samples),
        PipelineConfig::default(),
        Some(5_000),
    )
    .run();
    assert_eq!(
        end.forwarded,
        vec![
            Input { x: 5, y: 0, clicked: 0, click_state_update: 0, state_update: true },
            Input { x: 0, y: 0, clicked: 0x80, click_state_update: 1, state_update: true },
            Input { x: 0, y: 0, clicked: 0, click_state_update: 0, state_update: true },
        ]
    );
    assert!(end.forwarded.iter().all(|input| input.state_update));
    assert_eq!(end.controller.seen(), 3);
}

#[test]
fn bus_failure_ends_the_session_in_the_dark() {
    let mut bus = ScriptedBus::new(&[]);
    // The third motion read fails.
    bus.fails_at = Some(2);
    let end =
        Pipeline::start(lit_driver(), bus, PipelineConfig::default(), None).run();
    assert_eq!(end.poller_result, Some(Some(PollerFault::Transport)));
    assert_eq!(end.bus.log[end.bus.log.len() - 4..], writes(0, 0, 0, 0)[..]);
    assert_eq!(end.poller.driver().state().contrast, 0);
    // The controller notices the closed queue and still says TurnOff once.
    assert_eq!(end.sent, vec![Command::TurnOff]);
    assert_eq!(end.controller.phase(), ControllerPhase::Finished);
    assert!(end.elapsed_ms < 120_000);
}

#[test]
fn failing_cleanup_does_not_hang_the_session() {
    let mut bus = ScriptedBus::new(&[]);
    // Three reads, then the second of the darkening writes fails.
    bus.fails_at = Some(4);
    let end = Pipeline::start(lit_driver(), bus, PipelineConfig::default(), Some(200)).run();
    assert_eq!(end.poller_result, Some(Some(PollerFault::Transport)));
    assert_eq!(end.poller.phase(), PollerPhase::Finished);
    assert_eq!(end.controller.phase(), ControllerPhase::Finished);
    // The writes behind the failed one were not attempted.
    assert_eq!(
        led_writes(&end.bus.log),
        vec![
            BusRequest::BlockWrite { register: 0x00, value: 0 },
            BusRequest::BlockWrite { register: 0x01, value: 0 },
        ]
    );
    assert_eq!(end.poller.driver().state().contrast, 0);
}
