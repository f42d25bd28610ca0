//! The pet's mood: seven states driven by eleven events, with a sadness
//! level that grows when tasks expire and shrinks when the pet recovers.

use vstd::prelude::*;

verus! {

/// The mood the pet is shown in.
#[derive(Debug, Clone, Copy, PartialEq, Eq, Structural)]
pub enum PetState {
    Idle,
    Remind,
    Warning,
    Sad,
    Recover,
    Happy,
    Sleeping,
}

/// What the pet looks like right now: its mood, how sad it is and the
/// message it last said.
#[derive(Debug, Clone)]
pub struct PetStateInfo {
    pub state: PetState,
    pub sadness_level: u8,
    pub message: String,
}

impl View for PetStateInfo {
    type V = (PetState, u8, Seq<char>);

    open spec fn view(&self) -> (PetState, u8, Seq<char>) {
        (self.state, self.sadness_level, self.message@)
    }
}

/// What can happen to the pet.
#[derive(Debug, Clone, Copy, PartialEq, Eq, Structural)]
pub enum StateEvent {
    TaskAdded,
    /// A task is due within a day but not within the hour.
    TaskNearDue,
    /// A task is due within the hour.
    TaskUrgent,
    /// A task went past its due time.
    TaskExpired,
    TaskCompleted,
    /// The user stroked the pet.
    PetPet,
    RestModeOn,
    RestModeOff,
    HourReached,
    /// The user has been away for a while.
    IdleTimeout,
    UserReturned,
}

/// The mood and message that an event leads to from a state, where a rule
/// exists for that pair; `None` where the pet ignores the event.
pub open spec fn mood_rule(state: PetState, event: StateEvent) -> Option<(PetState, Seq<char>)> {
    match (state, event) {
        (PetState::Idle, StateEvent::TaskAdded) => Some((PetState::Idle, "收到一个新任务!"@)),
        (PetState::Idle, StateEvent::TaskNearDue) => Some((PetState::Remind, "有任务快到期了哦~"@)),
        (PetState::Idle, StateEvent::TaskUrgent) => Some((PetState::Warning, "紧急! 任务马上到期!"@)),
        (PetState::Idle, StateEvent::TaskExpired) => Some((PetState::Sad, "任务过期了... 好难过"@)),
        (PetState::Idle, StateEvent::TaskCompleted) => Some((PetState::Happy, "好棒! 任务完成啦!"@)),
        (PetState::Idle, StateEvent::HourReached) => Some((PetState::Idle, "现在是整点~"@)),
        (PetState::Idle, StateEvent::IdleTimeout) => Some((PetState::Sleeping, "Zzz..."@)),
        (PetState::Idle, StateEvent::RestModeOn) => Some((PetState::Sleeping, "休息一下~"@)),
        (PetState::Remind, StateEvent::TaskUrgent) => Some((PetState::Warning, "来不及了! 快!"@)),
        (PetState::Remind, StateEvent::TaskExpired) => Some((PetState::Sad, "过期了... 背过身去"@)),
        (PetState::Remind, StateEvent::TaskCompleted) => Some((PetState::Happy, "太棒了!"@)),
        (PetState::Remind, StateEvent::TaskNearDue) => Some((PetState::Remind, "还有任务快到期~"@)),
        (PetState::Warning, StateEvent::TaskExpired) => Some((PetState::Sad, "过期了... 好伤心"@)),
        (PetState::Warning, StateEvent::TaskCompleted) => Some((PetState::Happy, "好险! 赶上了!"@)),
        (PetState::Sad, StateEvent::PetPet) => Some((PetState::Recover, "嗯? 谢谢摸头..."@)),
        (PetState::Sad, StateEvent::TaskCompleted) => Some((PetState::Happy, "终于完成了!"@)),
        (PetState::Sad, StateEvent::TaskExpired) => Some((PetState::Sad, "越来越多任务过期了..."@)),
        (PetState::Recover, _) => Some((PetState::Idle, "恢复精神了!"@)),
        (PetState::Happy, _) => Some((PetState::Idle, Seq::<char>::empty())),
        (PetState::Sleeping, StateEvent::UserReturned) => Some((PetState::Idle, "你回来啦!"@)),
        (PetState::Sleeping, StateEvent::RestModeOff) => Some((PetState::Idle, "醒了!"@)),
        (PetState::Sleeping, StateEvent::TaskUrgent) => Some((PetState::Warning, "紧急任务! 醒了!"@)),
        _ => None,
    }
}

/// The sadness level after an event: an expiry while warning adds 20 and
/// one while sad adds 10, both capped at 100; any event while recovering
/// takes 30 away, down to 0; everything else leaves it alone.
pub open spec fn next_sadness(state: PetState, sadness: u8, event: StateEvent) -> int {
    match (state, event) {
        (PetState::Warning, StateEvent::TaskExpired) => if sadness + 20 < 100 {
            sadness + 20
        } else {
            100
        },
        (PetState::Sad, StateEvent::TaskExpired) => if sadness + 10 < 100 {
            sadness + 10
        } else {
            100
        },
        (PetState::Recover, _) => if sadness >= 30 {
            sadness - 30
        } else {
            0
        },
        _ => sadness as int,
    }
}

/// The pet after an event: the rule's mood and message where there is one,
/// else the same mood and message; the sadness as `next_sadness` says.
pub open spec fn step(info: (PetState, u8, Seq<char>), event: StateEvent) -> (PetState, u8, Seq<char>) {
    let sadness = next_sadness(info.0, info.1, event) as u8;
    match mood_rule(info.0, event) {
        Some((state, message)) => (state, sadness, message),
        None => (info.0, sadness, info.2),
    }
}

/// The event can be taken without the sadness overflowing a byte before it
/// is capped: a warning pet more than 235 sad, or a sad pet more than 245
/// sad, cannot take an expired task.
pub open spec fn can_step(info: (PetState, u8, Seq<char>), event: StateEvent) -> bool {
    &&& (info.0 == PetState::Warning && event == StateEvent::TaskExpired) ==> info.1 + 20 <= 255
    &&& (info.0 == PetState::Sad && event == StateEvent::TaskExpired) ==> info.1 + 10 <= 255
}

/// A pet whose sadness is at most 100 can take every event, and its
/// sadness is still at most 100 afterwards.
pub proof fn sadness_stays_within_limit(info: (PetState, u8, Seq<char>), event: StateEvent)
    requires
        info.1 <= 100,
    ensures
        can_step(info, event),
        step(info, event).1 <= 100,
{
}

/// An event that no rule covers leaves the pet exactly as it was.
pub proof fn ignored_event_changes_nothing(info: (PetState, u8, Seq<char>), event: StateEvent)
    requires
        mood_rule(info.0, event) is None,
    ensures
        step(info, event) == info,
{
}

/// Happiness lasts one event: whatever comes next, the pet is idle again,
/// silent, and as sad as before.
pub proof fn happiness_is_fleeting(info: (PetState, u8, Seq<char>), event: StateEvent)
    requires
        info.0 == PetState::Happy,
    ensures
        step(info, event) == (PetState::Idle, info.1, Seq::<char>::empty()),
{
}

/// Recovery lasts one event: whatever comes next, the pet is idle and 30
/// less sad (not below 0).
pub proof fn recovery_ends_in_idle(info: (PetState, u8, Seq<char>), event: StateEvent)
    requires
        info.0 == PetState::Recover,
    ensures
        step(info, event).0 == PetState::Idle,
        step(info, event).1 == (if info.1 >= 30 { info.1 - 30 } else { 0 }),
{
}

/// While awake (idle, reminding, warning or sad), completing a task makes
/// the pet happy without touching its sadness, and an expired task makes it
/// sad.
pub proof fn task_outcomes_set_the_mood(info: (PetState, u8, Seq<char>))
    requires
        info.0 == PetState::Idle || info.0 == PetState::Remind || info.0 == PetState::Warning
            || info.0 == PetState::Sad,
    ensures
        step(info, StateEvent::TaskCompleted).0 == PetState::Happy,
        step(info, StateEvent::TaskCompleted).1 == info.1,
        step(info, StateEvent::TaskExpired).0 == PetState::Sad,
{
}

/// Outside recovery, for a sadness within the limit of 100, the sadness
/// never falls, and it rises only when a task expires while the pet is
/// warning or already sad.
pub proof fn sadness_rises_only_on_expiry(info: (PetState, u8, Seq<char>), event: StateEvent)
    requires
        info.0 != PetState::Recover,
        info.1 <= 100,
    ensures
        step(info, event).1 >= info.1,
        step(info, event).1 != info.1 ==> event == StateEvent::TaskExpired && (info.0
            == PetState::Warning || info.0 == PetState::Sad),
{
}

/// A sleeping pet wakes only when the user returns, rest mode ends or a
/// task turns urgent; every other event leaves it as it was.
pub proof fn sleep_is_kept(info: (PetState, u8, Seq<char>), event: StateEvent)
    requires
        info.0 == PetState::Sleeping,
        event != StateEvent::UserReturned,
        event != StateEvent::RestModeOff,
        event != StateEvent::TaskUrgent,
    ensures
        step(info, event) == info,
{
}

/// A sad pet changes its mood and message only when it is stroked, a task
/// is completed or another task expires; every other event (a new task
/// among them) leaves it sad with the same message and sadness.
pub proof fn sad_pet_keeps_its_mood(info: (PetState, u8, Seq<char>), event: StateEvent)
    requires
        info.0 == PetState::Sad,
        event != StateEvent::PetPet,
        event != StateEvent::TaskCompleted,
        event != StateEvent::TaskExpired,
    ensures
        step(info, event) == info,
{
}

/// A warning pet changes only when a task is completed or expires; every
/// other event leaves it as it was.
pub proof fn warning_pet_keeps_its_mood(info: (PetState, u8, Seq<char>), event: StateEvent)
    requires
        info.0 == PetState::Warning,
        event != StateEvent::TaskCompleted,
        event != StateEvent::TaskExpired,
    ensures
        step(info, event) == info,
{
}

/// A reminding pet changes only when a task turns urgent, expires, is
/// completed or is nearly due; every other event leaves it as it was.
pub proof fn reminding_pet_keeps_its_mood(info: (PetState, u8, Seq<char>), event: StateEvent)
    requires
        info.0 == PetState::Remind,
        event != StateEvent::TaskUrgent,
        event != StateEvent::TaskExpired,
        event != StateEvent::TaskCompleted,
        event != StateEvent::TaskNearDue,
    ensures
        step(info, event) == info,
{
}

/// An idle pet ignores being stroked, rest mode ending and the user
/// returning.
pub proof fn idle_pet_ignores_wake_events(info: (PetState, u8, Seq<char>), event: StateEvent)
    requires
        info.0 == PetState::Idle,
        event == StateEvent::PetPet || event == StateEvent::RestModeOff || event
            == StateEvent::UserReturned,
    ensures
        step(info, event) == info,
{
}

/// A new task never changes a pet that is reminding, warning, sad or
/// asleep, and leaves an idle pet idle.
pub proof fn new_task_never_cheers_up(info: (PetState, u8, Seq<char>))
    ensures
        info.0 != PetState::Idle && info.0 != PetState::Recover && info.0 != PetState::Happy
            ==> step(info, StateEvent::TaskAdded) == info,
        info.0 == PetState::Idle ==> step(info, StateEvent::TaskAdded).0 == PetState::Idle,
{
}

/// The pet's state machine.
pub struct PetStateMachine {
    inner: PetStateInfo,
}

impl View for PetStateMachine {
    type V = (PetState, u8, Seq<char>);

    closed spec fn view(&self) -> (PetState, u8, Seq<char>) {
        self.inner@
    }
}

fn rule_for(state: PetState, event: StateEvent) -> (r: Option<(PetState, String)>)
    ensures
        match r {
            None => mood_rule(state, event) is None,
            Some(p) => mood_rule(state, event) == Some((p.0, p.1@)),
        },
{
    match (state, event) {
        (PetState::Idle, StateEvent::TaskAdded) => Some((PetState::Idle, "收到一个新任务!".to_owned())),
        (PetState::Idle, StateEvent::TaskNearDue) => Some((PetState::Remind, "有任务快到期了哦~".to_owned())),
        (PetState::Idle, StateEvent::TaskUrgent) => Some((PetState::Warning, "紧急! 任务马上到期!".to_owned())),
        (PetState::Idle, StateEvent::TaskExpired) => Some((PetState::Sad, "任务过期了... 好难过".to_owned())),
        (PetState::Idle, StateEvent::TaskCompleted) => Some((PetState::Happy, "好棒! 任务完成啦!".to_owned())),
        (PetState::Idle, StateEvent::HourReached) => Some((PetState::Idle, "现在是整点~".to_owned())),
        (PetState::Idle, StateEvent::IdleTimeout) => Some((PetState::Sleeping, "Zzz...".to_owned())),
        (PetState::Idle, StateEvent::RestModeOn) => Some((PetState::Sleeping, "休息一下~".to_owned())),
        (PetState::Remind, StateEvent::TaskUrgent) => Some((PetState::Warning, "来不及了! 快!".to_owned())),
        (PetState::Remind, StateEvent::TaskExpired) => Some((PetState::Sad, "过期了... 背过身去".to_owned())),
        (PetState::Remind, StateEvent::TaskCompleted) => Some((PetState::Happy, "太棒了!".to_owned())),
        (PetState::Remind, StateEvent::TaskNearDue) => Some((PetState::Remind, "还有任务快到期~".to_owned())),
        (PetState::Warning, StateEvent::TaskExpired) => Some((PetState::Sad, "过期了... 好伤心".to_owned())),
        (PetState::Warning, StateEvent::TaskCompleted) => Some((PetState::Happy, "好险! 赶上了!".to_owned())),
        (PetState::Sad, StateEvent::PetPet) => Some((PetState::Recover, "嗯? 谢谢摸头...".to_owned())),
        (PetState::Sad, StateEvent::TaskCompleted) => Some((PetState::Happy, "终于完成了!".to_owned())),
        (PetState::Sad, StateEvent::TaskExpired) => Some((PetState::Sad, "越来越多任务过期了...".to_owned())),
        (PetState::Recover, _) => Some((PetState::Idle, "恢复精神了!".to_owned())),
        (PetState::Happy, _) => Some((PetState::Idle, String::new())),
        (PetState::Sleeping, StateEvent::UserReturned) => Some((PetState::Idle, "你回来啦!".to_owned())),
        (PetState::Sleeping, StateEvent::RestModeOff) => Some((PetState::Idle, "醒了!".to_owned())),
        (PetState::Sleeping, StateEvent::TaskUrgent) => Some((PetState::Warning, "紧急任务! 醒了!".to_owned())),
        _ => None,
    }
}

impl PetStateMachine {
    /// A calm pet: idle, not sad, saying nothing.
    pub fn new() -> (m: Self)
        ensures
            m@ == (PetState::Idle, 0u8, Seq::<char>::empty()),
    {
        PetStateMachine {
            inner: PetStateInfo { state: PetState::Idle, sadness_level: 0, message: String::new() },
        }
    }

    /// A copy of the pet as it is now.
    pub fn get_state(&self) -> (info: PetStateInfo)
        ensures
            info@ == self@,
    {
        PetStateInfo {
            state: self.inner.state,
            sadness_level: self.inner.sadness_level,
            message: self.inner.message.clone(),
        }
    }

    /// Puts the pet into the given mood, sadness and message, whatever it
    /// was before.
    pub fn set_state(&mut self, state: PetState, sadness: u8, message: &str)
        ensures
            final(self)@ == (state, sadness, message@),
    {
        self.inner.state = state;
        self.inner.sadness_level = sadness;
        self.inner.message = message.to_owned();
    }

    /// Applies an event: the pet takes the mood, sadness and message that
    /// `step` gives, and the same is returned.
    pub fn transition(&mut self, event: StateEvent) -> (info: PetStateInfo)
        requires
            can_step(old(self)@, event),
        ensures
            final(self)@ == step(old(self)@, event),
            info@ == final(self)@,
    {
        let state = self.inner.state;
        let sadness = self.inner.sadness_level;
        let new_sadness: u8 = match (state, event) {
            (PetState::Warning, StateEvent::TaskExpired) => {
                let raised: u8 = sadness + 20;
                if raised < 100 {
                    raised
                } else {
                    100
                }
            },
            (PetState::Sad, StateEvent::TaskExpired) => {
                let raised: u8 = sadness + 10;
                if raised < 100 {
                    raised
                } else {
                    100
                }
            },
            (PetState::Recover, _) => sadness.saturating_sub(30),
            _ => sadness,
        };
        self.inner.sadness_level = new_sadness;
        match rule_for(state, event) {
            Some((next, message)) => {
                self.inner.state = next;
                self.inner.message = message;
            },
            None => {},
        }
        self.get_state()
    }
}

} // verus!
