//! The alarm state machine.
//!
//! The controller is driven tick by tick. On each tick the driver hands it
//! the levels sampled from the input lines; the controller decides the next
//! state and returns the calls to carry out before the next tick.

use vstd::prelude::*;
use crate::action::{Action, POLL_INTERVAL_MS};
use crate::auth::{AuthModel, Authenticator, EntryResult, PASSWORD_LEN};
use crate::feedback::{script, FeedbackController};
use crate::keypad::{is_symbol, lemma_scan_symbol, scan, KeypadScanner};
use crate::sensor::MotionSensor;
use crate::state::{AlarmState, Event};

verus! {

/// Number of ticks of the lockout countdown.
pub const LOCKOUT_TICKS: u8 = 5;

/// The levels of the input lines, sampled once for a tick.
#[derive(Clone, Copy, Debug)]
pub struct Inputs {
    /// The four keypad lines, in priority order.
    pub keypad: [bool; 4],
    /// The motion sensor line.
    pub motion: bool,
}

/// The wait between two polls of an input on which nothing was sensed.
pub open spec fn idle() -> Seq<Action> {
    seq![Action::Sleep { millis: POLL_INTERVAL_MS }]
}

/// Whether every symbol of a sequence belongs to the keypad's alphabet.
pub open spec fn all_symbols(symbols: Seq<char>) -> bool {
    forall|i: int| 0 <= i < symbols.len() ==> is_symbol(#[trigger] symbols[i])
}

/// The controller as a mathematical value.
#[verifier::ext_equal]
pub struct ControllerModel {
    /// The active state.
    pub state: AlarmState,
    /// The authenticator.
    pub auth: AuthModel,
    /// The symbols of the new password received so far.
    pub setup: Seq<char>,
    /// Ticks of the lockout countdown still to run.
    pub lockout_remaining: nat,
}

impl ControllerModel {
    /// Invariant of the controller between ticks.
    ///
    /// The password exists from `Armed` on and not before; symbols of a new
    /// password are held only in `SettingPassword`, and a partial entry only
    /// in `VerifyingPassword`; the authenticator is locked exactly in
    /// `Locked`, and only then a countdown is running; every stored symbol
    /// came from the keypad.
    pub open spec fn wf(self) -> bool {
        &&& self.auth.wf()
        &&& self.setup.len() < PASSWORD_LEN
        &&& !(self.state is SettingPassword) ==> self.setup.len() == 0
        &&& self.auth.password is None <==> (self.state is Booting || self.state
            is CalibratingSensor || self.state is SettingPassword)
        &&& !(self.state is VerifyingPassword) ==> self.auth.entry.len() == 0
        &&& self.auth.locked <==> self.state is Locked
        &&& self.state is Locked ==> 1 <= self.lockout_remaining <= LOCKOUT_TICKS
        &&& !(self.state is Locked) ==> self.lockout_remaining == 0
        &&& all_symbols(self.setup)
        &&& all_symbols(self.auth.entry)
        &&& self.auth.password matches Some(p) ==> all_symbols(p)
    }

    /// The controller at power-on.
    pub open spec fn initial() -> ControllerModel {
        ControllerModel {
            state: AlarmState::Booting,
            auth: AuthModel::initial(),
            setup: Seq::empty(),
            lockout_remaining: 0,
        }
    }

    /// A tick in `SettingPassword`: a polled symbol is echoed and joins the
    /// new password; the fourth symbol completes it and arms the alarm.
    pub open spec fn step_setting_password(self, inputs: Inputs) -> (ControllerModel, Seq<Action>) {
        match scan(inputs.keypad@) {
            None => (self, idle()),
            Some(symbol) => {
                let setup = self.setup.push(symbol);
                let echo = script(
                    AlarmState::SettingPassword,
                    Event::KeyAccepted { symbol, position: self.setup.len() as u8 },
                );
                if setup.len() < PASSWORD_LEN {
                    (ControllerModel { setup, ..self }, echo)
                } else {
                    (
                        ControllerModel {
                            state: AlarmState::Armed,
                            auth: self.auth.set_password(setup).0,
                            setup: Seq::empty(),
                            ..self
                        },
                        echo + script(AlarmState::SettingPassword, Event::PasswordStored),
                    )
                }
            },
        }
    }

    /// A tick in `VerifyingPassword`: a polled symbol is echoed and submitted
    /// to the authenticator, whose answer decides the next state.
    pub open spec fn step_verifying(self, inputs: Inputs) -> (ControllerModel, Seq<Action>) {
        match scan(inputs.keypad@) {
            None => (self, idle()),
            Some(symbol) => {
                let (auth, result) = self.auth.submit(symbol);
                let echo = script(
                    AlarmState::VerifyingPassword,
                    Event::KeyAccepted { symbol, position: self.auth.entry.len() as u8 },
                );
                match result {
                    EntryResult::Pending => (ControllerModel { auth, ..self }, echo),
                    EntryResult::Correct => (
                        ControllerModel { state: AlarmState::Disarmed, auth, ..self },
                        echo + script(AlarmState::VerifyingPassword, Event::EntryCorrect),
                    ),
                    EntryResult::Incorrect(_) => (
                        ControllerModel { auth, ..self },
                        echo + script(AlarmState::VerifyingPassword, Event::EntryIncorrect),
                    ),
                    EntryResult::LockedOut => (
                        ControllerModel {
                            state: AlarmState::Locked,
                            auth,
                            lockout_remaining: LOCKOUT_TICKS as nat,
                            ..self
                        },
                        echo + script(AlarmState::VerifyingPassword, Event::LockedOut),
                    ),
                    EntryResult::Rejected => (self, idle()),
                }
            },
        }
    }

    /// A tick in `Locked`: the countdown advances whatever the keypad shows;
    /// its last tick ends the lockout and returns to `VerifyingPassword`.
    pub open spec fn step_locked(self) -> (ControllerModel, Seq<Action>) {
        let tick = script(
            AlarmState::Locked,
            Event::LockoutCountdown { remaining: self.lockout_remaining as u8 },
        );
        if self.lockout_remaining <= 1 {
            (
                ControllerModel {
                    state: AlarmState::VerifyingPassword,
                    auth: self.auth.expire_lockout(),
                    lockout_remaining: 0,
                    ..self
                },
                tick + script(AlarmState::Locked, Event::LockoutExpired),
            )
        } else {
            (
                ControllerModel {
                    lockout_remaining: (self.lockout_remaining - 1) as nat,
                    ..self
                },
                tick,
            )
        }
    }

    /// One tick: the next controller and the calls to carry out, given the
    /// sampled inputs.
    pub open spec fn step(self, inputs: Inputs) -> (ControllerModel, Seq<Action>) {
        match self.state {
            AlarmState::Booting => (
                ControllerModel { state: AlarmState::CalibratingSensor, ..self },
                script(AlarmState::Booting, Event::Advance),
            ),
            AlarmState::CalibratingSensor => (
                ControllerModel { state: AlarmState::SettingPassword, ..self },
                script(AlarmState::CalibratingSensor, Event::Advance),
            ),
            AlarmState::SettingPassword => self.step_setting_password(inputs),
            AlarmState::Armed => if MotionSensor::triggered(inputs.motion) {
                (
                    ControllerModel { state: AlarmState::Triggered, ..self },
                    script(AlarmState::Armed, Event::MotionDetected),
                )
            } else {
                (self, idle())
            },
            AlarmState::Triggered => (
                ControllerModel { state: AlarmState::VerifyingPassword, ..self },
                script(AlarmState::Triggered, Event::Advance),
            ),
            AlarmState::VerifyingPassword => self.step_verifying(inputs),
            AlarmState::Locked => self.step_locked(),
            AlarmState::Disarmed => (
                ControllerModel { state: AlarmState::Armed, ..self },
                script(AlarmState::Disarmed, Event::Advance),
            ),
        }
    }

    /// The controller after the first `k` of `inputs` have been handled, one
    /// per tick.
    pub open spec fn run(self, inputs: Seq<Inputs>, k: int) -> ControllerModel
        decreases k,
    {
        if k <= 0 {
            self
        } else {
            self.run(inputs, k - 1).step(inputs[k - 1]).0
        }
    }

    /// The calls returned by tick `k`, counted from zero, when `inputs` are
    /// handled one per tick.
    pub open spec fn actions_at(self, inputs: Seq<Inputs>, k: int) -> Seq<Action> {
        self.run(inputs, k).step(inputs[k]).1
    }
}

/// The controller at power-on satisfies the invariant.
pub proof fn initial_is_well_formed()
    ensures
        ControllerModel::initial().wf(),
{
}

/// A tick keeps the invariant, whatever the inputs.
pub proof fn step_keeps_invariant(controller: ControllerModel, inputs: Inputs)
    requires
        controller.wf(),
    ensures
        controller.step(inputs).0.wf(),
{
    lemma_scan_symbol(inputs.keypad@);
}

/// Sequences the alarm: start-up, password setup, arming, alert on motion,
/// password verification, lockout and disarm.
#[derive(Clone, Debug)]
pub struct AlarmController {
    state: AlarmState,
    auth: Authenticator,
    setup: Vec<char>,
    lockout_remaining: u8,
    scanner: KeypadScanner,
    sensor: MotionSensor,
    feedback: FeedbackController,
}

impl View for AlarmController {
    type V = ControllerModel;

    closed spec fn view(&self) -> ControllerModel {
        ControllerModel {
            state: self.state,
            auth: self.auth@,
            setup: self.setup@,
            lockout_remaining: self.lockout_remaining as nat,
        }
    }
}

impl AlarmController {
    /// A controller at power-on: in `Booting`, without a password.
    pub fn new() -> (controller: AlarmController)
        ensures
            controller@ == ControllerModel::initial(),
            controller@.wf(),
    {
        AlarmController {
            state: AlarmState::Booting,
            auth: Authenticator::new(),
            setup: Vec::new(),
            lockout_remaining: 0,
            scanner: KeypadScanner::new(),
            sensor: MotionSensor::new(),
            feedback: FeedbackController::new(),
        }
    }

    /// The active state.
    pub fn state(&self) -> (state: AlarmState)
        ensures
            state == self@.state,
    {
        self.state
    }

    /// The authenticator, for inspection.
    pub fn authenticator(&self) -> (auth: &Authenticator)
        ensures
            auth@ == self@.auth,
    {
        &self.auth
    }

    /// Number of symbols of the new password received so far.
    pub fn setup_len(&self) -> (len: usize)
        ensures
            len == self@.setup.len(),
    {
        self.setup.len()
    }

    /// Ticks of the lockout countdown still to run; zero outside `Locked`.
    pub fn lockout_remaining(&self) -> (ticks: u8)
        ensures
            ticks == self@.lockout_remaining,
    {
        self.lockout_remaining
    }

    fn tick_setting_password(&mut self, inputs: Inputs) -> (actions: Vec<Action>)
        requires
            old(self)@.wf(),
            old(self)@.state is SettingPassword,
        ensures
            (final(self)@, actions@) == old(self)@.step_setting_password(inputs),
    {
        let mut actions: Vec<Action> = Vec::new();
        match self.scanner.poll(inputs.keypad) {
            None => {
                actions.push(Action::Sleep { millis: POLL_INTERVAL_MS });
            },
            Some(symbol) => {
                let position: u8 = self.setup.len() as u8;
                self.feedback.render_into(
                    AlarmState::SettingPassword,
                    Event::KeyAccepted { symbol, position },
                    &mut actions,
                );
                self.setup.push(symbol);
                if self.setup.len() >= PASSWORD_LEN {
                    let sequence: [char; 4] = [
                        self.setup[0],
                        self.setup[1],
                        self.setup[2],
                        self.setup[3],
                    ];
                    self.auth.set_password(sequence);
                    self.setup.clear();
                    self.state = AlarmState::Armed;
                    self.feedback.render_into(
                        AlarmState::SettingPassword,
                        Event::PasswordStored,
                        &mut actions,
                    );
                }
            },
        }
        actions
    }

    fn tick_verifying(&mut self, inputs: Inputs) -> (actions: Vec<Action>)
        requires
            old(self)@.wf(),
            old(self)@.state is VerifyingPassword,
        ensures
            (final(self)@, actions@) == old(self)@.step_verifying(inputs),
    {
        let mut actions: Vec<Action> = Vec::new();
        match self.scanner.poll(inputs.keypad) {
            None => {
                actions.push(Action::Sleep { millis: POLL_INTERVAL_MS });
            },
            Some(symbol) => {
                let position: u8 = self.auth.entry_len() as u8;
                match self.auth.submit(symbol) {
                    EntryResult::Pending => {
                        self.feedback.render_into(
                            AlarmState::VerifyingPassword,
                            Event::KeyAccepted { symbol, position },
                            &mut actions,
                        );
                    },
                    EntryResult::Correct => {
                        self.feedback.render_into(
                            AlarmState::VerifyingPassword,
                            Event::KeyAccepted { symbol, position },
                            &mut actions,
                        );
                        self.feedback.render_into(
                            AlarmState::VerifyingPassword,
                            Event::EntryCorrect,
                            &mut actions,
                        );
                        self.state = AlarmState::Disarmed;
                    },
                    EntryResult::Incorrect(_) => {
                        self.feedback.render_into(
                            AlarmState::VerifyingPassword,
                            Event::KeyAccepted { symbol, position },
                            &mut actions,
                        );
                        self.feedback.render_into(
                            AlarmState::VerifyingPassword,
                            Event::EntryIncorrect,
                            &mut actions,
                        );
                    },
                    EntryResult::LockedOut => {
                        self.feedback.render_into(
                            AlarmState::VerifyingPassword,
                            Event::KeyAccepted { symbol, position },
                            &mut actions,
                        );
                        self.feedback.render_into(
                            AlarmState::VerifyingPassword,
                            Event::LockedOut,
                            &mut actions,
                        );
                        self.state = AlarmState::Locked;
                        self.lockout_remaining = LOCKOUT_TICKS;
                    },
                    EntryResult::Rejected => {
                        actions.push(Action::Sleep { millis: POLL_INTERVAL_MS });
                    },
                }
            },
        }
        actions
    }

    fn tick_locked(&mut self) -> (actions: Vec<Action>)
        requires
            old(self)@.wf(),
            old(self)@.state is Locked,
        ensures
            (final(self)@, actions@) == old(self)@.step_locked(),
    {
        let mut actions: Vec<Action> = Vec::new();
        self.feedback.render_into(
            AlarmState::Locked,
            Event::LockoutCountdown { remaining: self.lockout_remaining },
            &mut actions,
        );
        if self.lockout_remaining <= 1 {
            self.auth.on_lockout_expired();
            self.lockout_remaining = 0;
            self.state = AlarmState::VerifyingPassword;
            self.feedback.render_into(AlarmState::Locked, Event::LockoutExpired, &mut actions);
        } else {
            self.lockout_remaining = self.lockout_remaining - 1;
        }
        actions
    }

    /// Handles one tick: decides the next state from the sampled inputs and
    /// returns the calls to carry out, in order, before the next tick.
    pub fn tick(&mut self, inputs: Inputs) -> (actions: Vec<Action>)
        requires
            old(self)@.wf(),
        ensures
            final(self)@.wf(),
            (final(self)@, actions@) == old(self)@.step(inputs),
    {
        proof {
            step_keeps_invariant(self@, inputs);
        }
        match self.state {
            AlarmState::Booting => {
                self.state = AlarmState::CalibratingSensor;
                self.feedback.render(AlarmState::Booting, Event::Advance)
            },
            AlarmState::CalibratingSensor => {
                self.state = AlarmState::SettingPassword;
                self.feedback.render(AlarmState::CalibratingSensor, Event::Advance)
            },
            AlarmState::SettingPassword => self.tick_setting_password(inputs),
            AlarmState::Armed => {
                if self.sensor.poll(inputs.motion) {
                    self.state = AlarmState::Triggered;
                    self.feedback.render(AlarmState::Armed, Event::MotionDetected)
                } else {
                    let mut actions: Vec<Action> = Vec::new();
                    actions.push(Action::Sleep { millis: POLL_INTERVAL_MS });
                    actions
                }
            },
            AlarmState::Triggered => {
                self.state = AlarmState::VerifyingPassword;
                self.feedback.render(AlarmState::Triggered, Event::Advance)
            },
            AlarmState::VerifyingPassword => self.tick_verifying(inputs),
            AlarmState::Locked => self.tick_locked(),
            AlarmState::Disarmed => {
                self.state = AlarmState::Armed;
                self.feedback.render(AlarmState::Disarmed, Event::Advance)
            },
        }
    }
}

} // verus!
