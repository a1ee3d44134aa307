//! What the alarm state machine guarantees over several ticks.

use vstd::prelude::*;
use crate::action::{
    elapsed, fits_display, lemma_fits_concat, Action, Led, ALARM_TONE_DUTY, ALARM_TONE_FREQUENCY,
};
use crate::alarm::{idle, step_keeps_invariant, ControllerModel, Inputs, LOCKOUT_TICKS};
use crate::auth::{
    correct_entry_is_accepted, partial_entry_is_buffered, wrong_entry_is_counted, AuthModel,
    MAX_ATTEMPTS, PASSWORD_LEN,
};
use crate::feedback::{attract, banner, motion_alert, rearm, script, script_fits_display};
use crate::keypad::scan;
use crate::melody;
use crate::state::{AlarmState, Event};

verus! {

/// Whether the keypad samples in `inputs` spell `symbols`: on tick `i` the
/// keypad reports `symbols[i]`.
pub open spec fn spells(inputs: Seq<Inputs>, symbols: Seq<char>) -> bool {
    &&& inputs.len() == symbols.len()
    &&& forall|i: int|
        0 <= i < inputs.len() ==> scan(#[trigger] inputs[i].keypad@) == Some(symbols[i])
}

/// Whether the motion line is inactive on each of the first `k` ticks.
pub open spec fn no_motion(inputs: Seq<Inputs>, k: int) -> bool {
    forall|i: int| 0 <= i < k ==> !(#[trigger] inputs[i]).motion
}

/// Whether a script sounds the buzzer and silences it again before it writes
/// `prompt`, with no tone between the silence and the prompt.
pub open spec fn silent_before(actions: Seq<Action>, prompt: &'static str) -> bool {
    exists|on: int, off: int, at: int|
        {
            &&& 0 <= on < off < at < actions.len()
            &&& #[trigger] actions[on] is SetTone
            &&& #[trigger] actions[off] == Action::ToneOff
            &&& #[trigger] actions[at] == (Action::WriteText { text: prompt })
            &&& forall|i: int| off < i <= at ==> !(#[trigger] actions[i] is SetTone)
        }
}

/// The transitions of the alarm: from each state, the states that one tick
/// can lead to. No state is final; once armed, the alarm cycles through
/// `Armed`, `Triggered`, `VerifyingPassword` and `Disarmed` or `Locked`.
pub open spec fn may_follow(from: AlarmState, to: AlarmState) -> bool {
    match from {
        AlarmState::Booting => to is CalibratingSensor,
        AlarmState::CalibratingSensor => to is SettingPassword,
        AlarmState::SettingPassword => to is SettingPassword || to is Armed,
        AlarmState::Armed => to is Armed || to is Triggered,
        AlarmState::Triggered => to is VerifyingPassword,
        AlarmState::VerifyingPassword => to is VerifyingPassword || to is Disarmed || to
            is Locked,
        AlarmState::Locked => to is Locked || to is VerifyingPassword,
        AlarmState::Disarmed => to is Armed,
    }
}

/// A tick moves the alarm along one of its transitions and nowhere else.
/// Four states last exactly one tick: the two start-up states, `Triggered`
/// and `Disarmed`.
pub proof fn tick_follows_transitions(controller: ControllerModel, inputs: Inputs)
    requires
        controller.wf(),
    ensures
        may_follow(controller.state, controller.step(inputs).0.state),
{
}

/// Start-up takes two ticks, whatever the inputs: the first runs the greeting
/// and the first countdown, the second the second countdown and the request
/// for a password. The alarm then waits in `SettingPassword`.
pub proof fn startup_reaches_setup(first: Inputs, second: Inputs)
    ensures
        ({
            let (calibrating, boot) = ControllerModel::initial().step(first);
            let (setting, calibration) = calibrating.step(second);
            &&& calibrating == (ControllerModel {
                state: AlarmState::CalibratingSensor,
                ..ControllerModel::initial()
            })
            &&& boot == script(AlarmState::Booting, Event::Advance)
            &&& setting == (ControllerModel {
                state: AlarmState::SettingPassword,
                ..ControllerModel::initial()
            })
            &&& calibration == script(AlarmState::CalibratingSensor, Event::Advance)
        }),
{
}

/// In `SettingPassword` the first three keystrokes are collected and change
/// nothing else.
pub proof fn setup_collects_keystrokes(
    controller: ControllerModel,
    inputs: Seq<Inputs>,
    symbols: Seq<char>,
    k: int,
)
    requires
        controller.wf(),
        controller.state is SettingPassword,
        controller.setup.len() == 0,
        spells(inputs, symbols),
        0 <= k < PASSWORD_LEN,
        k <= inputs.len(),
    ensures
        controller.run(inputs, k) == (ControllerModel { setup: symbols.take(k), ..controller }),
    decreases k,
{
    if k > 0 {
        setup_collects_keystrokes(controller, inputs, symbols, k - 1);
        assert(scan(inputs[k - 1].keypad@) == Some(symbols[k - 1]));
        assert(symbols.take(k - 1).push(symbols[k - 1]) =~= symbols.take(k));
    } else {
        assert(symbols.take(0) =~= controller.setup);
    }
}

/// Four keystrokes in `SettingPassword` become the password and arm the
/// alarm.
pub proof fn four_keystrokes_set_password(
    controller: ControllerModel,
    inputs: Seq<Inputs>,
    symbols: Seq<char>,
)
    requires
        controller.wf(),
        controller.state is SettingPassword,
        controller.setup.len() == 0,
        spells(inputs, symbols),
        symbols.len() == PASSWORD_LEN,
    ensures
        controller.run(inputs, 4) == (ControllerModel {
            state: AlarmState::Armed,
            auth: AuthModel { password: Some(symbols), ..controller.auth },
            ..controller
        }),
{
    setup_collects_keystrokes(controller, inputs, symbols, 3);
    assert(scan(inputs[3].keypad@) == Some(symbols[3]));
    assert(symbols.take(3).push(symbols[3]) =~= symbols);
}

/// Once stored, the password never changes, whatever is entered afterwards.
pub proof fn password_is_kept(controller: ControllerModel, inputs: Seq<Inputs>, k: int)
    requires
        controller.wf(),
        controller.auth.password is Some,
        0 <= k <= inputs.len(),
    ensures
        controller.run(inputs, k).wf(),
        controller.run(inputs, k).auth.password == controller.auth.password,
    decreases k,
{
    if k > 0 {
        password_is_kept(controller, inputs, k - 1);
        step_keeps_invariant(controller.run(inputs, k - 1), inputs[k - 1]);
    }
}

/// Whatever the state and the inputs, the calls of a tick keep the cursor on
/// the display.
pub proof fn tick_fits_display(controller: ControllerModel, inputs: Inputs)
    ensures
        fits_display(controller.step(inputs).1),
{
    assert forall|state: AlarmState, event: Event| #[trigger]
        fits_display(script(state, event)) by {
        script_fits_display(state, event);
    }
    assert forall|state: AlarmState, first: Event, second: Event| #[trigger]
        fits_display(script(state, first) + script(state, second)) by {
        lemma_fits_concat(script(state, first), script(state, second));
    }
}

/// An armed alarm that senses no motion stays as it is, on every tick and for
/// any number of ticks, and does nothing but wait for the next poll: no call
/// on an LED, the buzzer or the display is made.
pub proof fn armed_stays_armed(controller: ControllerModel, inputs: Seq<Inputs>, k: int)
    requires
        controller.wf(),
        controller.state is Armed,
        0 <= k <= inputs.len(),
        no_motion(inputs, k),
    ensures
        controller.run(inputs, k) == controller,
        forall|i: int| 0 <= i < k ==> #[trigger] controller.actions_at(inputs, i) == idle(),
        forall|i: int, j: int|
            0 <= i < k && 0 <= j < controller.actions_at(inputs, i).len() ==> !(
            #[trigger] controller.actions_at(inputs, i)[j]).is_output(),
    decreases k,
{
    if k > 0 {
        armed_stays_armed(controller, inputs, k - 1);
    }
}

/// A script that sounds a tone, does things other than sounding the buzzer,
/// silences it and then shows a banner is silent before that banner.
proof fn lemma_silent_before(
    before: Seq<Action>,
    tone: Action,
    between: Seq<Action>,
    prompt: &'static str,
)
    requires
        tone is SetTone,
    ensures
        silent_before(
            before + seq![tone] + between + seq![Action::ToneOff] + banner(prompt),
            prompt,
        ),
{
    let head = before + seq![tone] + between + seq![Action::ToneOff];
    let tail = banner(prompt);
    let actions = head + tail;
    let on = before.len() as int;
    let off = on + 1 + between.len();
    let at = off + 3;
    assert(head.len() == off + 1);
    assert(head[on] == tone);
    assert(head[off] == Action::ToneOff);
    assert(actions[on] == head[on]);
    assert(actions[off] == head[off]);
    assert(actions[at] == tail[2]);
    assert forall|i: int| off < i <= at implies !(#[trigger] actions[i] is SetTone) by {
        assert(actions[i] == tail[i - off - 1]);
    }
}

/// Motion turns an armed alarm to `Triggered` and raises the alert; the next
/// tick, whatever its inputs, moves on to `VerifyingPassword` without any
/// further call. In the alert the buzzer sounds continuously and falls silent
/// before the password prompt. Password and counters are untouched.
pub proof fn motion_raises_alert(controller: ControllerModel, first: Inputs, second: Inputs)
    requires
        controller.wf(),
        controller.state is Armed,
        first.motion,
    ensures
        ({
            let (triggered, alert) = controller.step(first);
            let (verifying, prompt) = triggered.step(second);
            &&& triggered == (ControllerModel { state: AlarmState::Triggered, ..controller })
            &&& alert == motion_alert()
            &&& silent_before(alert, "Enter  password:")
            &&& verifying == (ControllerModel {
                state: AlarmState::VerifyingPassword,
                ..controller
            })
            &&& prompt.len() == 0
        }),
{
    let before = seq![Action::SetLed { led: Led::Blue, on: false }];
    let tone = Action::SetTone { frequency: ALARM_TONE_FREQUENCY, duty: ALARM_TONE_DUTY };
    let between = attract(Led::Red) + banner("Motion alert!!!") + seq![
        Action::Sleep { millis: 2000 },
    ];
    lemma_silent_before(before, tone, between, "Enter  password:");
    assert(motion_alert() =~= before + seq![tone] + between + seq![Action::ToneOff] + banner(
        "Enter  password:",
    ));
}

/// During a lockout the countdown alone advances: whatever the keypad and
/// the motion line show, the entry buffer, the attempt counter and the
/// password stay as they are while ticks remain.
pub proof fn lockout_ignores_inputs(controller: ControllerModel, inputs: Seq<Inputs>, k: int)
    requires
        controller.wf(),
        controller.state is Locked,
        0 <= k < controller.lockout_remaining,
        k <= inputs.len(),
    ensures
        controller.run(inputs, k) == (ControllerModel {
            lockout_remaining: (controller.lockout_remaining - k) as nat,
            ..controller
        }),
        k < inputs.len() ==> controller.actions_at(inputs, k) == script(
            AlarmState::Locked,
            Event::LockoutCountdown { remaining: (controller.lockout_remaining - k) as u8 },
        ) + if k + 1 == controller.lockout_remaining {
            script(AlarmState::Locked, Event::LockoutExpired)
        } else {
            Seq::empty()
        },
    decreases k,
{
    if k > 0 {
        lockout_ignores_inputs(controller, inputs, k - 1);
    }
}

/// A lockout ends after exactly as many ticks as its countdown holds, five
/// when it has just begun. The alarm is then back in `VerifyingPassword` with
/// an empty entry buffer and a counter of zero, and accepts symbols again.
pub proof fn lockout_expires(controller: ControllerModel, inputs: Seq<Inputs>)
    requires
        controller.wf(),
        controller.state is Locked,
        inputs.len() >= controller.lockout_remaining,
    ensures
        controller.lockout_remaining <= LOCKOUT_TICKS,
        controller.run(inputs, controller.lockout_remaining as int) == (ControllerModel {
            state: AlarmState::VerifyingPassword,
            auth: controller.auth.expire_lockout(),
            lockout_remaining: 0,
            ..controller
        }),
        controller.run(inputs, controller.lockout_remaining as int).auth.ready(),
        controller.run(inputs, controller.lockout_remaining as int).auth.attempts == 0,
{
    lockout_ignores_inputs(controller, inputs, controller.lockout_remaining - 1);
}

/// In `VerifyingPassword` the first three keystrokes of an entry go to the
/// authenticator and change nothing else.
pub proof fn keystrokes_reach_authenticator(
    controller: ControllerModel,
    inputs: Seq<Inputs>,
    symbols: Seq<char>,
    k: int,
)
    requires
        controller.wf(),
        controller.state is VerifyingPassword,
        controller.auth.entry.len() == 0,
        spells(inputs, symbols),
        0 <= k < PASSWORD_LEN,
        k <= inputs.len(),
    ensures
        controller.run(inputs, k) == (ControllerModel {
            auth: controller.auth.after(symbols, k),
            ..controller
        }),
        controller.auth.after(symbols, k) == (AuthModel {
            entry: symbols.take(k),
            ..controller.auth
        }),
    decreases k,
{
    partial_entry_is_buffered(controller.auth, symbols, k);
    if k > 0 {
        keystrokes_reach_authenticator(controller, inputs, symbols, k - 1);
        partial_entry_is_buffered(controller.auth, symbols, k - 1);
    }
}

/// Entering the stored password disarms: the fourth keystroke moves the alarm
/// from `VerifyingPassword` to `Disarmed` with the counter at zero. The tick
/// after that plays the success tune in full, 3650 milliseconds of it, and
/// re-arms.
pub proof fn correct_password_disarms(
    controller: ControllerModel,
    inputs: Seq<Inputs>,
    next: Inputs,
)
    requires
        controller.wf(),
        controller.state is VerifyingPassword,
        controller.auth.entry.len() == 0,
        spells(inputs, controller.auth.password.unwrap()),
    ensures
        ({
            let disarmed = controller.run(inputs, 4);
            let (rearmed, tune) = disarmed.step(next);
            &&& disarmed == (ControllerModel {
                state: AlarmState::Disarmed,
                auth: AuthModel { attempts: 0, ..controller.auth },
                ..controller
            })
            &&& rearmed == (ControllerModel { state: AlarmState::Armed, ..disarmed })
            &&& tune == melody::script(melody::success_notes()) + rearm()
            &&& elapsed(melody::script(melody::success_notes())) == 3650
        }),
{
    let symbols = controller.auth.password.unwrap();
    keystrokes_reach_authenticator(controller, inputs, symbols, 3);
    correct_entry_is_accepted(controller.auth, symbols);
    melody::lemma_script_elapsed(melody::success_notes(), 9);
    melody::lemma_success_duration();
}

/// Entering four symbols that are not the password is counted: below the
/// attempt limit the alarm stays in `VerifyingPassword` with the counter one
/// higher; at the limit it moves to `Locked`, the counter returns to zero at
/// once, and a countdown of five ticks begins. Either way the entry buffer is
/// empty afterwards.
pub proof fn wrong_password_is_counted(
    controller: ControllerModel,
    inputs: Seq<Inputs>,
    symbols: Seq<char>,
)
    requires
        controller.wf(),
        controller.state is VerifyingPassword,
        controller.auth.entry.len() == 0,
        spells(inputs, symbols),
        symbols.len() == PASSWORD_LEN,
        controller.auth.password != Some(symbols),
    ensures
        controller.auth.attempts + 1 < MAX_ATTEMPTS ==> controller.run(inputs, 4) == (
        ControllerModel {
            auth: AuthModel { attempts: controller.auth.attempts + 1, ..controller.auth },
            ..controller
        }),
        controller.auth.attempts + 1 >= MAX_ATTEMPTS ==> controller.run(inputs, 4) == (
        ControllerModel {
            state: AlarmState::Locked,
            auth: AuthModel { attempts: 0, locked: true, ..controller.auth },
            lockout_remaining: LOCKOUT_TICKS as nat,
            ..controller
        }),
        controller.run(inputs, 4).wf(),
        controller.run(inputs, 4).auth.entry.len() == 0,
{
    keystrokes_reach_authenticator(controller, inputs, symbols, 3);
    wrong_entry_is_counted(controller.auth, symbols);
}

/// Three wrong entries in a row, starting from a counter of zero, lock the
/// alarm: after the third the state is `Locked` and the counter is zero.
pub proof fn three_wrong_passwords_lock(
    controller: ControllerModel,
    first: Seq<Inputs>,
    second: Seq<Inputs>,
    third: Seq<Inputs>,
    symbols: (Seq<char>, Seq<char>, Seq<char>),
)
    requires
        controller.wf(),
        controller.state is VerifyingPassword,
        controller.auth.entry.len() == 0,
        controller.auth.attempts == 0,
        spells(first, symbols.0) && symbols.0.len() == PASSWORD_LEN,
        spells(second, symbols.1) && symbols.1.len() == PASSWORD_LEN,
        spells(third, symbols.2) && symbols.2.len() == PASSWORD_LEN,
        controller.auth.password != Some(symbols.0),
        controller.auth.password != Some(symbols.1),
        controller.auth.password != Some(symbols.2),
    ensures
        ({
            let after_first = controller.run(first, 4);
            let after_second = after_first.run(second, 4);
            let after_third = after_second.run(third, 4);
            &&& after_first.state is VerifyingPassword && after_first.auth.attempts == 1
            &&& after_second.state is VerifyingPassword && after_second.auth.attempts == 2
            &&& after_third.state is Locked
            &&& after_third.auth.attempts == 0
            &&& after_third.auth.locked
            &&& after_third.lockout_remaining == LOCKOUT_TICKS
        }),
{
    wrong_password_is_counted(controller, first, symbols.0);
    let after_first = controller.run(first, 4);
    wrong_password_is_counted(after_first, second, symbols.1);
    let after_second = after_first.run(second, 4);
    wrong_password_is_counted(after_second, third, symbols.2);
}

} // verus!
