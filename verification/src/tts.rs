//! What the pet says aloud, and whether a speech engine gets to say it.

use crate::numbers::{decimal, push_decimal};
use vstd::prelude::*;

verus! {

/// The greeting spoken when the clock reaches `hour`.
pub open spec fn hourly_speech(hour: nat) -> Seq<char> {
    if 5 <= hour <= 8 {
        "早安，新的一天开始啦!"@
    } else if 9 <= hour <= 10 {
        decimal(hour) + "点了，加油哦!"@
    } else if 11 <= hour <= 13 {
        "中午啦，该吃饭了!"@
    } else if 14 <= hour <= 17 {
        decimal(hour) + "点了，记得休息一下~"@
    } else if 18 <= hour <= 20 {
        decimal(hour) + "点了，晚上好!"@
    } else if 21 <= hour <= 23 {
        "很晚了，注意休息哦!"@
    } else {
        decimal(hour) + "点了"@
    }
}

/// The spoken hourly greeting for each hour of the day: the morning line
/// from 5 to 8, the hour and "加油" at 9 and 10, the lunch line from 11 to
/// 13, the hour and a rest reminder from 14 to 17, the hour and a good
/// evening from 18 to 20, the late line from 21 to 23, and the bare hour
/// otherwise.
pub proof fn hourly_speech_by_hour(hour: nat)
    ensures
        5 <= hour <= 8 ==> hourly_speech(hour) == "早安，新的一天开始啦!"@,
        9 <= hour <= 10 ==> hourly_speech(hour) == decimal(hour) + "点了，加油哦!"@,
        11 <= hour <= 13 ==> hourly_speech(hour) == "中午啦，该吃饭了!"@,
        14 <= hour <= 17 ==> hourly_speech(hour) == decimal(hour) + "点了，记得休息一下~"@,
        18 <= hour <= 20 ==> hourly_speech(hour) == decimal(hour) + "点了，晚上好!"@,
        21 <= hour <= 23 ==> hourly_speech(hour) == "很晚了，注意休息哦!"@,
        hour < 5 || hour > 23 ==> hourly_speech(hour) == decimal(hour) + "点了"@,
{
}

/// Lunch time is announced the same way at 11, 12 and 13 o'clock.
pub proof fn lunch_greeting_is_shared(a: nat, b: nat)
    requires
        11 <= a <= 13,
        11 <= b <= 13,
    ensures
        hourly_speech(a) == hourly_speech(b),
        hourly_speech(a) == "中午啦，该吃饭了!"@,
{
}

/// `hour` in decimal followed by `tail`.
fn hour_then(hour: u32, tail: &str) -> (r: String)
    ensures
        r@ == decimal(hour as nat) + tail@,
{
    let mut s = String::new();
    push_decimal(&mut s, hour as u64);
    assert(s@ =~= decimal(hour as nat));
    s.append(tail);
    s
}

/// The greeting spoken when the clock reaches `hour`.
pub fn hourly_text(hour: u32) -> (r: String)
    ensures
        r@ == hourly_speech(hour as nat),
{
    if 5 <= hour && hour <= 8 {
        "早安，新的一天开始啦!".to_owned()
    } else if 9 <= hour && hour <= 10 {
        hour_then(hour, "点了，加油哦!")
    } else if 11 <= hour && hour <= 13 {
        "中午啦，该吃饭了!".to_owned()
    } else if 14 <= hour && hour <= 17 {
        hour_then(hour, "点了，记得休息一下~")
    } else if 18 <= hour && hour <= 20 {
        hour_then(hour, "点了，晚上好!")
    } else if 21 <= hour && hour <= 23 {
        "很晚了，注意休息哦!".to_owned()
    } else {
        hour_then(hour, "点了")
    }
}

/// `head`, then `middle`, then `tail`.
pub fn surround(head: &str, middle: &str, tail: &str) -> (r: String)
    ensures
        r@ == head@ + middle@ + tail@,
{
    let mut s = head.to_owned();
    s.append(middle);
    s.append(tail);
    s
}

/// Announces a new task.
pub fn task_added_text(title: &str) -> (r: String)
    ensures
        r@ == "收到新任务: "@ + title@ + "，我会提醒你的"@,
{
    surround("收到新任务: ", title, "，我会提醒你的")
}

/// Warns that a task is due within the hour.
pub fn task_due_soon_text(title: &str) -> (r: String)
    ensures
        r@ == title@ + " 还有一个小时截止哦"@,
{
    let mut s = title.to_owned();
    s.append(" 还有一个小时截止哦");
    s
}

/// Cheers a completed task.
pub fn task_completed_text(title: &str) -> (r: String)
    ensures
        r@ == "好棒! "@ + title@ + " 已经完成啦!"@,
{
    surround("好棒! ", title, " 已经完成啦!")
}

/// Decides what reaches the system's speech synthesizer: text is spoken
/// only when a synthesizer could be started and speech is switched on.
pub struct TtsManager {
    engine_ready: bool,
    enabled: bool,
}

impl View for TtsManager {
    /// Whether an engine is there, and whether speech is switched on.
    type V = (bool, bool);

    closed spec fn view(&self) -> (bool, bool) {
        (self.engine_ready, self.enabled)
    }
}

impl TtsManager {
    /// A manager with speech switched on, over an engine that could or
    /// could not be started.
    pub fn new(engine_ready: bool) -> (m: Self)
        ensures
            m@ == (engine_ready, true),
    {
        TtsManager { engine_ready, enabled: true }
    }

    pub fn set_enabled(&mut self, enabled: bool)
        ensures
            final(self)@ == (old(self)@.0, enabled),
    {
        self.enabled = enabled;
    }

    /// The text to hand to the engine: all of it when there is an engine
    /// and speech is on, nothing otherwise.
    pub fn speak(&self, text: &str) -> (r: Option<String>)
        ensures
            r is Some <==> self@.0 && self@.1,
            r matches Some(t) ==> t@ == text@,
    {
        if self.enabled && self.engine_ready {
            Some(text.to_owned())
        } else {
            None
        }
    }
}

} // verus!
