//! The hotkey actor: detects the fixed global key combination and reports it
//! to the controller.
//!
//! The actor's runtime owns a dedicated thread blocked in the
//! operating-system message loop; the decisions — whether a registration may
//! be attempted, what to report back, and when the binding must be released —
//! live here as a small state machine. At most one registration is active at
//! a time; a `Register` command while one is active is a logic error and is
//! rejected, never silently leaked. On `Finish` the binding is released
//! exactly once per successful registration, before the owning thread is
//! joined.

use vstd::prelude::*;
use crate::channel::{send, try_recv};
use crate::endpoint::{HotkeyCmd, HotkeyEndpoint, HotkeyEvent};

verus! {

/// A live operating-system hotkey registration: the identifier the binding
/// was made under and the identifier of the thread whose message loop owns
/// it. The thread identifier is the address of the targeted wake-up message
/// that unblocks the loop on shutdown.
#[derive(Clone, Copy, Debug, PartialEq, Eq, Structural)]
pub struct HotkeyRegistration {
    pub thread_id: u32,
    pub hotkey_id: i32,
}

/// The hotkey actor's decision state.
#[derive(Clone, Copy, Debug, PartialEq, Eq, Structural)]
pub struct HotkeyActorState {
    /// The active registration, if any. Set only while no registration is
    /// active, cleared only on `Finish`.
    pub registration: Option<HotkeyRegistration>,
    /// Whether `Finish` has been processed; afterwards every input is
    /// ignored.
    pub finished: bool,
}

/// One input to the actor, as its decision logic sees it. The outcome of the
/// operating-system registration attempt depends on the machine (the
/// combination may already be claimed), so it arrives as part of the input:
/// the decisions below are verified for every outcome.
#[derive(Clone, Copy, Debug, PartialEq, Eq, Structural)]
pub enum HotkeyActorInput {
    /// A `Register` command for this window handle arrived and the attempt —
    /// if one was permitted — ended with this outcome (`None`: the binding
    /// was rejected by the operating system).
    Register(isize, Option<HotkeyRegistration>),
    /// The key combination fired in the message loop.
    Fired,
    /// A `Finish` command arrived.
    Finish,
}

/// What one step asks of the actor's runtime.
#[derive(Clone, Copy, Debug, PartialEq, Eq, Structural)]
pub struct HotkeyStepOut {
    /// Event to forward to the controller.
    pub event: Option<HotkeyEvent>,
    /// Registration whose binding must now be released and whose thread must
    /// be woken and joined.
    pub release: Option<HotkeyRegistration>,
    /// Whether the actor's loop is over.
    pub done: bool,
}

/// The state before any input: nothing registered, not finished.
pub open spec fn initial_hotkey_state() -> HotkeyActorState {
    HotkeyActorState { registration: None, finished: false }
}

/// State after one input. A `Register` while a registration is active is
/// rejected; `Finish` clears the registration and ends the actor; after
/// `Finish` every input is ignored.
pub open spec fn hk_next(s: HotkeyActorState, input: HotkeyActorInput) -> HotkeyActorState {
    if s.finished {
        s
    } else {
        match input {
            HotkeyActorInput::Register(h, outcome) => if s.registration is Some {
                s
            } else {
                HotkeyActorState { registration: outcome, finished: false }
            },
            HotkeyActorInput::Fired => s,
            HotkeyActorInput::Finish => HotkeyActorState { registration: None, finished: true },
        }
    }
}

/// Event the step forwards to the controller: the outcome of a permitted
/// registration attempt, or a `Toggle` for each firing.
pub open spec fn hk_event(s: HotkeyActorState, input: HotkeyActorInput) -> Option<HotkeyEvent> {
    if s.finished {
        None
    } else {
        match input {
            HotkeyActorInput::Register(h, outcome) => if s.registration is Some {
                None
            } else {
                Some(HotkeyEvent::RegisterResult(outcome is Some))
            },
            HotkeyActorInput::Fired => Some(HotkeyEvent::Toggle),
            HotkeyActorInput::Finish => None,
        }
    }
}

/// Registration the step releases: exactly the active one, and only on
/// `Finish`.
pub open spec fn hk_release(s: HotkeyActorState, input: HotkeyActorInput) -> Option<
    HotkeyRegistration,
> {
    if !s.finished && input is Finish {
        s.registration
    } else {
        None
    }
}

/// 1 when the step records a successful operating-system registration.
pub open spec fn hk_registers(s: HotkeyActorState, input: HotkeyActorInput) -> nat {
    if !s.finished && s.registration is None && (input matches HotkeyActorInput::Register(
        h,
        outcome,
    ) && outcome is Some) {
        1nat
    } else {
        0nat
    }
}

/// 1 when the step releases the operating-system binding.
pub open spec fn hk_unregisters(s: HotkeyActorState, input: HotkeyActorInput) -> nat {
    if !s.finished && input is Finish && s.registration is Some {
        1nat
    } else {
        0nat
    }
}

/// State after a whole sequence of inputs.
pub open spec fn hk_run(s: HotkeyActorState, inputs: Seq<HotkeyActorInput>) -> HotkeyActorState
    decreases inputs.len(),
{
    if inputs.len() == 0 {
        s
    } else {
        hk_run(hk_next(s, inputs[0]), inputs.drop_first())
    }
}

/// How many successful registrations a run records.
pub open spec fn hk_total_registers(s: HotkeyActorState, inputs: Seq<HotkeyActorInput>) -> nat
    decreases inputs.len(),
{
    if inputs.len() == 0 {
        0nat
    } else {
        hk_registers(s, inputs[0]) + hk_total_registers(hk_next(s, inputs[0]), inputs.drop_first())
    }
}

/// How many times a run releases the binding.
pub open spec fn hk_total_unregisters(s: HotkeyActorState, inputs: Seq<HotkeyActorInput>) -> nat
    decreases inputs.len(),
{
    if inputs.len() == 0 {
        0nat
    } else {
        hk_unregisters(s, inputs[0]) + hk_total_unregisters(
            hk_next(s, inputs[0]),
            inputs.drop_first(),
        )
    }
}

/// 1 while a registration is active.
pub open spec fn active_count(s: HotkeyActorState) -> nat {
    if s.registration is Some {
        1nat
    } else {
        0nat
    }
}

/// A finished actor holds no registration.
pub open spec fn hk_inv(s: HotkeyActorState) -> bool {
    s.finished ==> s.registration is None
}

/// How many further successful registrations a state still allows.
pub open spec fn register_budget(s: HotkeyActorState) -> nat {
    if s.finished || s.registration is Some {
        0nat
    } else {
        1nat
    }
}

proof fn lemma_hk_balance(s: HotkeyActorState, inputs: Seq<HotkeyActorInput>)
    requires
        hk_inv(s),
    ensures
        hk_inv(hk_run(s, inputs)),
        hk_total_unregisters(s, inputs) + active_count(hk_run(s, inputs)) == active_count(s)
            + hk_total_registers(s, inputs),
        hk_total_registers(s, inputs) <= register_budget(s),
    decreases inputs.len(),
{
    if inputs.len() > 0 {
        lemma_hk_balance(hk_next(s, inputs[0]), inputs.drop_first());
    }
}

/// Law: shutdown completeness of the hotkey binding. Over any run of the
/// actor from its initial state, the binding is released at most once, never
/// before it was made, and — once the actor has processed `Finish` — exactly
/// as many times as a registration succeeded: a successful registration is
/// never leaked past shutdown and never released twice.
pub proof fn lemma_binding_released_exactly_once(inputs: Seq<HotkeyActorInput>)
    ensures
        ({
            let s0 = initial_hotkey_state();
            let end = hk_run(s0, inputs);
            &&& hk_total_registers(s0, inputs) <= 1
            &&& hk_total_unregisters(s0, inputs) <= hk_total_registers(s0, inputs)
            &&& (end.finished ==> hk_total_unregisters(s0, inputs) == hk_total_registers(
                s0,
                inputs,
            ))
        }),
{
    lemma_hk_balance(initial_hotkey_state(), inputs);
}

impl HotkeyActorState {
    pub fn new() -> (s: Self)
        ensures
            s == initial_hotkey_state(),
    {
        HotkeyActorState { registration: None, finished: false }
    }

    /// Whether a `Register` command may lead to an operating-system attempt:
    /// only while the actor is live and no registration is active.
    pub fn should_attempt_registration(&self) -> (attempt: bool)
        ensures
            attempt == (!self.finished && self.registration is None),
    {
        !self.finished && self.registration.is_none()
    }

    /// Take one input: update the state and say what the runtime must do.
    pub fn apply(&mut self, input: HotkeyActorInput) -> (out: HotkeyStepOut)
        ensures
            *final(self) == hk_next(*old(self), input),
            out.event == hk_event(*old(self), input),
            out.release == hk_release(*old(self), input),
            out.done == final(self).finished,
    {
        if self.finished {
            HotkeyStepOut { event: None, release: None, done: true }
        } else {
            match input {
                HotkeyActorInput::Register(_h, outcome) => {
                    if self.registration.is_some() {
                        HotkeyStepOut { event: None, release: None, done: false }
                    } else {
                        let ok = outcome.is_some();
                        self.registration = outcome;
                        HotkeyStepOut {
                            event: Some(HotkeyEvent::RegisterResult(ok)),
                            release: None,
                            done: false,
                        }
                    }
                },
                HotkeyActorInput::Fired => HotkeyStepOut {
                    event: Some(HotkeyEvent::Toggle),
                    release: None,
                    done: false,
                },
                HotkeyActorInput::Finish => {
                    let release = self.registration;
                    self.registration = None;
                    self.finished = true;
                    HotkeyStepOut { event: None, release, done: true }
                },
            }
        }
    }
}

/// What one poll of the command channel asks of the actor's runtime.
#[derive(Clone, Copy, Debug, PartialEq, Eq, Structural)]
pub enum HotkeyPoll {
    /// Nothing arrived, or a command that asks for no outside work.
    Idle,
    /// Attempt the operating-system registration for this window handle, then
    /// hand the outcome to [`Hotkey::complete_registration`].
    AttemptRegistration(isize),
    /// The actor is over: release this binding if one is given — wake its
    /// thread with the targeted message, release the key binding, and join
    /// the thread.
    Finished(Option<HotkeyRegistration>),
}

/// The hotkey actor: its endpoint half and its decision state.
pub struct Hotkey {
    pub endpoint: HotkeyEndpoint,
    pub state: HotkeyActorState,
}

impl Hotkey {
    pub fn new(endpoint: HotkeyEndpoint) -> (hk: Hotkey)
        ensures
            hk.state == initial_hotkey_state(),
    {
        Hotkey { endpoint, state: HotkeyActorState::new() }
    }

    /// Drain one command from the controller. A permitted registration
    /// attempt is handed back to the runtime rather than performed here; a
    /// `Register` while one is active is rejected and asks for nothing.
    pub fn poll_command(&mut self) -> (poll: HotkeyPoll)
        ensures
            !(poll is Finished) ==> *final(self) == *old(self),
            poll matches HotkeyPoll::AttemptRegistration(h) ==> !old(self).state.finished && old(
                self,
            ).state.registration is None,
            poll matches HotkeyPoll::Finished(release) ==> {
                &&& final(self).state == hk_next(old(self).state, HotkeyActorInput::Finish)
                &&& release == hk_release(old(self).state, HotkeyActorInput::Finish)
            },
    {
        match try_recv(&self.endpoint.rx) {
            Some(HotkeyCmd::Register(h)) => {
                if self.state.should_attempt_registration() {
                    HotkeyPoll::AttemptRegistration(h)
                } else {
                    HotkeyPoll::Idle
                }
            },
            Some(HotkeyCmd::Finish) => {
                let out = self.state.apply(HotkeyActorInput::Finish);
                HotkeyPoll::Finished(out.release)
            },
            None => HotkeyPoll::Idle,
        }
    }

    /// Record the outcome of a permitted registration attempt and report it
    /// to the controller.
    pub fn complete_registration(&mut self, hwnd: isize, outcome: Option<HotkeyRegistration>)
        requires
            !old(self).state.finished,
            old(self).state.registration is None,
        ensures
            final(self).state == hk_next(
                old(self).state,
                HotkeyActorInput::Register(hwnd, outcome),
            ),
    {
        let out = self.state.apply(HotkeyActorInput::Register(hwnd, outcome));
        if let Some(event) = out.event {
            send(&self.endpoint.tx, event);
        }
    }

    /// Forward one firing of the key combination to the controller.
    pub fn forward_fired(&mut self)
        ensures
            final(self).state == old(self).state,
    {
        let out = self.state.apply(HotkeyActorInput::Fired);
        if let Some(event) = out.event {
            send(&self.endpoint.tx, event);
        }
    }
}

} // verus!
