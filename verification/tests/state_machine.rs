use pet_desktop::state_machine::{PetState, PetStateMachine, StateEvent};

fn machine_in(state: PetState, sadness: u8, message: &str) -> PetStateMachine {
    let mut m = PetStateMachine::new();
    m.set_state(state, sadness, message);
    m
}

#[test]
fn new_machine_is_calm() {
    let m = PetStateMachine::new();
    let info = m.get_state();
    assert_eq!(info.state, PetState::Idle);
    assert_eq!(info.sadness_level, 0);
    assert_eq!(info.message, "");
}

#[test]
fn set_state_then_get_state_reads_back() {
    let mut m = PetStateMachine::new();
    m.set_state(PetState::Sad, 42, "hello");
    let info = m.get_state();
    assert_eq!(info.state, PetState::Sad);
    assert_eq!(info.sadness_level, 42);
    assert_eq!(info.message, "hello");
}

#[test]
fn idle_transitions() {
    let cases = [
        (StateEvent::TaskAdded, PetState::Idle, "收到一个新任务!"),
        (StateEvent::TaskNearDue, PetState::Remind, "有任务快到期了哦~"),
        (StateEvent::TaskUrgent, PetState::Warning, "紧急! 任务马上到期!"),
        (StateEvent::TaskExpired, PetState::Sad, "任务过期了... 好难过"),
        (StateEvent::TaskCompleted, PetState::Happy, "好棒! 任务完成啦!"),
        (StateEvent::HourReached, PetState::Idle, "现在是整点~"),
        (StateEvent::IdleTimeout, PetState::Sleeping, "Zzz..."),
        (StateEvent::RestModeOn, PetState::Sleeping, "休息一下~"),
    ];
    for (event, state, msg) in cases {
        let mut m = machine_in(PetState::Idle, 5, "before");
        let info = m.transition(event);
        assert_eq!(info.state, state);
        assert_eq!(info.message, msg);
        assert_eq!(info.sadness_level, 5);
    }
}

#[test]
fn idle_ignores_other_events() {
    for event in [StateEvent::PetPet, StateEvent::RestModeOff, StateEvent::UserReturned] {
        let mut m = machine_in(PetState::Idle, 7, "kept");
        let info = m.transition(event);
        assert_eq!(info.state, PetState::Idle);
        assert_eq!(info.message, "kept");
        assert_eq!(info.sadness_level, 7);
    }
}

#[test]
fn remind_transitions() {
    let cases = [
        (StateEvent::TaskUrgent, PetState::Warning, "来不及了! 快!"),
        (StateEvent::TaskExpired, PetState::Sad, "过期了... 背过身去"),
        (StateEvent::TaskCompleted, PetState::Happy, "太棒了!"),
        (StateEvent::TaskNearDue, PetState::Remind, "还有任务快到期~"),
    ];
    for (event, state, msg) in cases {
        let mut m = machine_in(PetState::Remind, 0, "");
        let info = m.transition(event);
        assert_eq!(info.state, state);
        assert_eq!(info.message, msg);
    }
    let mut m = machine_in(PetState::Remind, 0, "stay");
    let info = m.transition(StateEvent::PetPet);
    assert_eq!(info.state, PetState::Remind);
    assert_eq!(info.message, "stay");
}

#[test]
fn warning_expiry_adds_twenty_sadness_capped() {
    let mut m = machine_in(PetState::Warning, 30, "");
    let info = m.transition(StateEvent::TaskExpired);
    assert_eq!(info.state, PetState::Sad);
    assert_eq!(info.sadness_level, 50);
    assert_eq!(info.message, "过期了... 好伤心");

    let mut m = machine_in(PetState::Warning, 90, "");
    let info = m.transition(StateEvent::TaskExpired);
    assert_eq!(info.sadness_level, 100);
}

#[test]
fn warning_completion_is_happy() {
    let mut m = machine_in(PetState::Warning, 10, "");
    let info = m.transition(StateEvent::TaskCompleted);
    assert_eq!(info.state, PetState::Happy);
    assert_eq!(info.message, "好险! 赶上了!");
    assert_eq!(info.sadness_level, 10);
}

#[test]
fn sad_transitions() {
    let mut m = machine_in(PetState::Sad, 40, "");
    let info = m.transition(StateEvent::PetPet);
    assert_eq!(info.state, PetState::Recover);
    assert_eq!(info.message, "嗯? 谢谢摸头...");

    let mut m = machine_in(PetState::Sad, 40, "");
    let info = m.transition(StateEvent::TaskCompleted);
    assert_eq!(info.state, PetState::Happy);
    assert_eq!(info.message, "终于完成了!");

    let mut m = machine_in(PetState::Sad, 40, "");
    let info = m.transition(StateEvent::TaskExpired);
    assert_eq!(info.state, PetState::Sad);
    assert_eq!(info.sadness_level, 50);
    assert_eq!(info.message, "越来越多任务过期了...");

    let mut m = machine_in(PetState::Sad, 95, "");
    let info = m.transition(StateEvent::TaskExpired);
    assert_eq!(info.sadness_level, 100);
}

#[test]
fn recover_goes_idle_and_lowers_sadness() {
    let mut m = machine_in(PetState::Recover, 50, "");
    let info = m.transition(StateEvent::HourReached);
    assert_eq!(info.state, PetState::Idle);
    assert_eq!(info.sadness_level, 20);
    assert_eq!(info.message, "恢复精神了!");

    let mut m = machine_in(PetState::Recover, 10, "");
    let info = m.transition(StateEvent::TaskExpired);
    assert_eq!(info.state, PetState::Idle);
    assert_eq!(info.sadness_level, 0);
}

#[test]
fn happy_goes_idle_silently() {
    for event in [StateEvent::TaskAdded, StateEvent::TaskExpired, StateEvent::PetPet] {
        let mut m = machine_in(PetState::Happy, 3, "yay");
        let info = m.transition(event);
        assert_eq!(info.state, PetState::Idle);
        assert_eq!(info.message, "");
        assert_eq!(info.sadness_level, 3);
    }
}

#[test]
fn sleeping_transitions() {
    let cases = [
        (StateEvent::UserReturned, PetState::Idle, "你回来啦!"),
        (StateEvent::RestModeOff, PetState::Idle, "醒了!"),
        (StateEvent::TaskUrgent, PetState::Warning, "紧急任务! 醒了!"),
    ];
    for (event, state, msg) in cases {
        let mut m = machine_in(PetState::Sleeping, 0, "");
        let info = m.transition(event);
        assert_eq!(info.state, state);
        assert_eq!(info.message, msg);
    }
    let mut m = machine_in(PetState::Sleeping, 0, "Zzz...");
    let info = m.transition(StateEvent::TaskExpired);
    assert_eq!(info.state, PetState::Sleeping);
    assert_eq!(info.message, "Zzz...");
}

#[test]
fn transition_result_matches_stored_state() {
    let mut m = PetStateMachine::new();
    let info = m.transition(StateEvent::TaskUrgent);
    let now = m.get_state();
    assert_eq!(info.state, now.state);
    assert_eq!(info.sadness_level, now.sadness_level);
    assert_eq!(info.message, now.message);
}

#[test]
fn sadness_stays_within_limit_on_a_run() {
    let mut m = PetStateMachine::new();
    let events = [
        StateEvent::TaskUrgent,
        StateEvent::TaskExpired,
        StateEvent::TaskExpired,
        StateEvent::TaskExpired,
        StateEvent::TaskExpired,
        StateEvent::TaskExpired,
        StateEvent::TaskExpired,
        StateEvent::TaskExpired,
        StateEvent::TaskExpired,
        StateEvent::TaskExpired,
        StateEvent::TaskExpired,
        StateEvent::PetPet,
        StateEvent::TaskAdded,
    ];
    let mut last = 0;
    for e in events {
        last = m.transition(e).sadness_level;
        assert!(last <= 100);
    }
    assert_eq!(last, 70);
}
