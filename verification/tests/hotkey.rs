use command_launcher::endpoint::{create_hotkey_endpoints, HotkeyCmd, HotkeyEvent};
use command_launcher::hotkey::{
    Hotkey, HotkeyActorInput, HotkeyActorState, HotkeyPoll, HotkeyRegistration,
};

#[test]
fn binding_is_released_exactly_once() {
    // a mock registration backend counting register/unregister calls
    let mut registers = 0;
    let mut unregisters = 0;

    let mut actor = HotkeyActorState::new();
    let reg = HotkeyRegistration { thread_id: 11, hotkey_id: 1 };

    assert!(actor.should_attempt_registration());
    registers += 1;
    let out = actor.apply(HotkeyActorInput::Register(42, Some(reg)));
    assert_eq!(out.event, Some(HotkeyEvent::RegisterResult(true)));

    // a second registration attempt while one is active is rejected
    assert!(!actor.should_attempt_registration());
    let out = actor.apply(HotkeyActorInput::Register(43, Some(reg)));
    assert_eq!(out.event, None);
    assert_eq!(out.release, None);

    // shutdown releases the binding exactly once
    let out = actor.apply(HotkeyActorInput::Finish);
    assert_eq!(out.release, Some(reg));
    if out.release.is_some() {
        unregisters += 1;
    }
    assert!(out.done);

    // inputs after Finish are ignored and release nothing
    let out = actor.apply(HotkeyActorInput::Finish);
    assert_eq!(out.release, None);
    let out = actor.apply(HotkeyActorInput::Register(44, Some(reg)));
    assert_eq!(out.event, None);

    assert_eq!(registers, 1);
    assert_eq!(unregisters, 1);
}

#[test]
fn failed_registration_reports_failure_and_releases_nothing() {
    let mut actor = HotkeyActorState::new();
    assert!(actor.should_attempt_registration());
    let out = actor.apply(HotkeyActorInput::Register(42, None));
    assert_eq!(out.event, Some(HotkeyEvent::RegisterResult(false)));

    // the combination stayed free: another attempt is allowed
    assert!(actor.should_attempt_registration());

    // shutdown after a failed registration releases nothing
    let out = actor.apply(HotkeyActorInput::Finish);
    assert_eq!(out.release, None);
    assert!(out.done);
}

#[test]
fn firing_forwards_a_toggle() {
    let mut actor = HotkeyActorState::new();
    let out = actor.apply(HotkeyActorInput::Fired);
    assert_eq!(out.event, Some(HotkeyEvent::Toggle));
    assert!(!out.done);
}

#[test]
fn hotkey_actor_over_its_endpoint() {
    let (endpoint, handle) = create_hotkey_endpoints();
    let mut hk = Hotkey::new(endpoint);

    // nothing queued: idle
    assert_eq!(hk.poll_command(), HotkeyPoll::Idle);

    // a Register command asks for an operating-system attempt
    handle.tx.send(HotkeyCmd::Register(9)).unwrap();
    assert_eq!(hk.poll_command(), HotkeyPoll::AttemptRegistration(9));
    let reg = HotkeyRegistration { thread_id: 5, hotkey_id: 1 };
    hk.complete_registration(9, Some(reg));
    assert_eq!(handle.rx.try_recv().unwrap(), HotkeyEvent::RegisterResult(true));

    // a second Register while one is active is rejected silently
    handle.tx.send(HotkeyCmd::Register(10)).unwrap();
    assert_eq!(hk.poll_command(), HotkeyPoll::Idle);
    assert!(handle.rx.try_recv().is_err());

    // a firing reaches the controller as Toggle
    hk.forward_fired();
    assert_eq!(handle.rx.try_recv().unwrap(), HotkeyEvent::Toggle);

    // Finish hands the active binding back for release
    handle.tx.send(HotkeyCmd::Finish).unwrap();
    assert_eq!(hk.poll_command(), HotkeyPoll::Finished(Some(reg)));
}
