//! The rules of the desktop window: the cat picture for each mood, what the
//! pet says when clicked, rest and mute toggles, the hourly chime, the
//! speech bubble, the settings panel and where the window starts.

use crate::numbers::{decimal_text, parse_i32, parse_reads_back_decimal, signed_decimal};
use crate::state_machine::{PetState, PetStateMachine, StateEvent, step};
use crate::strings::same_text;
use crate::tasks::{Setting, field_or};
use crate::tts::{hourly_speech, hourly_text, task_added_text, task_completed_text, surround};
use vstd::prelude::*;

verus! {

/// The name of the cat picture shown for a mood.
pub open spec fn state_label(s: PetState) -> Seq<char> {
    match s {
        PetState::Idle => "idle"@,
        PetState::Remind => "remind"@,
        PetState::Warning => "warning"@,
        PetState::Sad => "sad"@,
        PetState::Recover => "recover"@,
        PetState::Happy => "happy"@,
        PetState::Sleeping => "sleeping"@,
    }
}

/// The name of the cat picture shown for a mood.
pub fn state_name(s: &PetState) -> (r: String)
    ensures
        r@ == state_label(*s),
{
    match s {
        PetState::Idle => "idle",
        PetState::Remind => "remind",
        PetState::Warning => "warning",
        PetState::Sad => "sad",
        PetState::Recover => "recover",
        PetState::Happy => "happy",
        PetState::Sleeping => "sleeping",
    }.to_owned()
}

/// What the pet may say when clicked.
pub open spec fn click_messages() -> Seq<Seq<char>> {
    seq![
        "喵~"@,
        "今天也要加油哦!"@,
        "休息一下吧~"@,
        "有什么需要帮忙的吗?"@,
        "摸摸头 >w<"@,
        "记得喝水哦!"@,
        "喵呜~"@,
    ]
}

/// What the pet says when clicked at a moment whose nanosecond count is
/// `nanos`: the message at `nanos % 7`.
pub fn click_message(nanos: u128) -> (r: String)
    ensures
        r@ == click_messages()[(nanos % 7) as int],
{
    let i = nanos % 7;
    if i == 0 {
        "喵~".to_owned()
    } else if i == 1 {
        "今天也要加油哦!".to_owned()
    } else if i == 2 {
        "休息一下吧~".to_owned()
    } else if i == 3 {
        "有什么需要帮忙的吗?".to_owned()
    } else if i == 4 {
        "摸摸头 >w<".to_owned()
    } else if i == 5 {
        "记得喝水哦!".to_owned()
    } else {
        "喵呜~".to_owned()
    }
}

/// Flips rest mode: the pet falls asleep on entering it and wakes idle on
/// leaving it, calm and silent either way; the bubble text is returned.
pub fn toggle_rest(rest: &mut bool, pet: &mut PetStateMachine) -> (bubble: String)
    ensures
        *final(rest) == !*old(rest),
        *final(rest) ==> final(pet)@ == (PetState::Sleeping, 0u8, Seq::<char>::empty())
            && bubble@ == "进入休息模式"@,
        !*final(rest) ==> final(pet)@ == (PetState::Idle, 0u8, Seq::<char>::empty())
            && bubble@ == "我回来了!"@,
{
    *rest = !*rest;
    proof {
        reveal_strlit("");
    }
    if *rest {
        pet.set_state(PetState::Sleeping, 0, "");
        "进入休息模式".to_owned()
    } else {
        pet.set_state(PetState::Idle, 0, "");
        "我回来了!".to_owned()
    }
}

/// Flips mute; the bubble text is returned.
pub fn toggle_mute(muted: &mut bool) -> (bubble: String)
    ensures
        *final(muted) == !*old(muted),
        bubble@ == (if *final(muted) { "已静音"@ } else { "已取消静音"@ }),
{
    *muted = !*muted;
    if *muted {
        "已静音".to_owned()
    } else {
        "已取消静音".to_owned()
    }
}

/// What the window shows and says after a task event.
pub struct Feedback {
    /// The cat picture to show.
    pub cat_state: String,
    pub bubble: String,
    /// What to say aloud, if speech is on.
    pub speech: String,
}

/// The pet's reaction to a task being added: the machine takes the event,
/// and the bubble and speech announce the title.
pub fn task_added_feedback(pet: &mut PetStateMachine, title: &str) -> (f: Feedback)
    ensures
        final(pet)@ == step(old(pet)@, StateEvent::TaskAdded),
        f.cat_state@ == state_label(final(pet)@.0),
        f.bubble@ == "收到新任务: "@ + title@,
        f.speech@ == "收到新任务: "@ + title@ + "，我会提醒你的"@,
{
    let info = pet.transition(StateEvent::TaskAdded);
    let mut bubble = "收到新任务: ".to_owned();
    bubble.append(title);
    Feedback { cat_state: state_name(&info.state), bubble, speech: task_added_text(title) }
}

/// The pet's reaction to a task being completed: the machine takes the
/// event, and the bubble and speech cheer the title.
pub fn task_completed_feedback(pet: &mut PetStateMachine, title: &str) -> (f: Feedback)
    ensures
        final(pet)@ == step(old(pet)@, StateEvent::TaskCompleted),
        f.cat_state@ == state_label(final(pet)@.0),
        f.bubble@ == "好棒! "@ + title@ + " 完成啦!"@,
        f.speech@ == "好棒! "@ + title@ + " 已经完成啦!"@,
{
    let info = pet.transition(StateEvent::TaskCompleted);
    Feedback {
        cat_state: state_name(&info.state),
        bubble: surround("好棒! ", title, " 完成啦!"),
        speech: task_completed_text(title),
    }
}

/// The greeting shown in the bubble at each hour from 6 to 23, and a plain
/// one for the other hours.
pub open spec fn greeting_text(hour: int) -> Seq<char> {
    if 6 <= hour <= 8 {
        "早安! 新的一天开始啦"@
    } else if 9 <= hour <= 10 {
        "上午好! 继续加油"@
    } else if hour == 11 {
        "快中午了~"@
    } else if hour == 12 {
        "中午啦! 该吃饭了"@
    } else if hour == 13 {
        "午休一下吧"@
    } else if 14 <= hour <= 15 {
        "下午好! 继续加油"@
    } else if hour == 16 {
        "快下班了~"@
    } else if hour == 17 {
        "傍晚好"@
    } else if 18 <= hour <= 19 {
        "晚上好~"@
    } else if hour == 20 {
        "晚上好~ 放松一下吧"@
    } else if hour == 21 {
        "不早了~"@
    } else if hour == 22 {
        "很晚了，早点休息吧"@
    } else if hour == 23 {
        "深夜了，注意休息"@
    } else {
        "整点了"@
    }
}

/// The bubble greeting for `hour`.
pub fn greeting(hour: i32) -> (r: String)
    ensures
        r@ == greeting_text(hour as int),
{
    let text = if 6 <= hour && hour <= 8 {
        "早安! 新的一天开始啦"
    } else if 9 <= hour && hour <= 10 {
        "上午好! 继续加油"
    } else if hour == 11 {
        "快中午了~"
    } else if hour == 12 {
        "中午啦! 该吃饭了"
    } else if hour == 13 {
        "午休一下吧"
    } else if 14 <= hour && hour <= 15 {
        "下午好! 继续加油"
    } else if hour == 16 {
        "快下班了~"
    } else if hour == 17 {
        "傍晚好"
    } else if 18 <= hour && hour <= 19 {
        "晚上好~"
    } else if hour == 20 {
        "晚上好~ 放松一下吧"
    } else if hour == 21 {
        "不早了~"
    } else if hour == 22 {
        "很晚了，早点休息吧"
    } else if hour == 23 {
        "深夜了，注意休息"
    } else {
        "整点了"
    };
    text.to_owned()
}

/// A stored setting, or `fallback` where there is none.
pub open spec fn setting_or(value: Option<Seq<char>>, fallback: Seq<char>) -> Seq<char> {
    match value {
        Some(v) => v,
        None => fallback,
    }
}

pub open spec fn text_of(value: Option<&str>) -> Option<Seq<char>> {
    match value {
        Some(v) => Some(v@),
        None => None,
    }
}

/// Whether the hourly chime sounds: on the hour, not yet this hour, with
/// the chime switched on (it is unless the setting says otherwise than
/// "true") and the hour between the start and end hours (7 and 22 unless
/// stored as numbers).
pub open spec fn chime_due(
    minute: int,
    hour: int,
    last_hour: int,
    hourly_enabled: Option<Seq<char>>,
    start_hour: Option<Seq<char>>,
    end_hour: Option<Seq<char>>,
) -> bool {
    &&& minute == 0
    &&& hour != last_hour
    &&& setting_or(hourly_enabled, "true"@) == "true"@
    &&& field_or(setting_or(start_hour, "7"@), 7) <= hour
    &&& hour <= field_or(setting_or(end_hour, "22"@), 22)
}

/// What the hourly chime shows and says.
pub struct Chime {
    pub bubble: String,
    /// What to say aloud: present when voice is on (it is unless the
    /// setting says otherwise than "true") and sound is not muted.
    pub speech: Option<String>,
}

fn stored_or<'a>(value: Option<&'a str>, fallback: &'a str) -> (r: &'a str)
    ensures
        r@ == setting_or(text_of(value), fallback@),
{
    match value {
        Some(v) => v,
        None => fallback,
    }
}

fn number_or(text: &str, fallback: i32) -> (v: i32)
    ensures
        v as int == field_or(text@, fallback),
{
    match parse_i32(text) {
        Some(v) => v,
        None => fallback,
    }
}

/// The once-a-minute hourly check, at `hour:minute` on the local clock,
/// with the last hour that chimed and the stored settings. When the chime is
/// due, the hour is remembered and the greeting returned, with the spoken
/// text when voice is on and sound is not muted; otherwise nothing changes.
pub fn hourly_check(
    minute: u32,
    hour: u32,
    last_hour: &mut i32,
    hourly_enabled: Option<&str>,
    start_hour: Option<&str>,
    end_hour: Option<&str>,
    voice_enabled: Option<&str>,
    muted: bool,
) -> (r: Option<Chime>)
    requires
        hour < 24,
    ensures
        r is Some <==> chime_due(
            minute as int,
            hour as int,
            *old(last_hour) as int,
            text_of(hourly_enabled),
            text_of(start_hour),
            text_of(end_hour),
        ),
        r is None ==> *final(last_hour) == *old(last_hour),
        r matches Some(c) ==> {
            &&& *final(last_hour) == hour as i32
            &&& c.bubble@ == greeting_text(hour as int)
            &&& (c.speech is Some <==> setting_or(text_of(voice_enabled), "true"@) == "true"@ && !muted)
            &&& (c.speech matches Some(t) ==> t@ == hourly_speech(hour as nat))
        },
{
    if minute != 0 {
        return None;
    }
    let hour_i = hour as i32;
    if hour_i == *last_hour {
        return None;
    }
    if !same_text(stored_or(hourly_enabled, "true"), "true") {
        return None;
    }
    let start = number_or(stored_or(start_hour, "7"), 7);
    let end = number_or(stored_or(end_hour, "22"), 22);
    if hour_i < start || hour_i > end {
        return None;
    }
    *last_hour = hour_i;
    let bubble = greeting(hour_i);
    let speech = if same_text(stored_or(voice_enabled, "true"), "true") && !muted {
        Some(hourly_text(hour))
    } else {
        None
    };
    Some(Chime { bubble, speech })
}

/// The chime sounds at most once in an hour: once it has sounded at `hour`
/// (which is then the last hour), no later check in that hour sounds it.
pub proof fn chime_at_most_once_per_hour(
    minute: int,
    later_minute: int,
    hour: int,
    last_hour: int,
    hourly_enabled: Option<Seq<char>>,
    start_hour: Option<Seq<char>>,
    end_hour: Option<Seq<char>>,
)
    requires
        chime_due(minute, hour, last_hour, hourly_enabled, start_hour, end_hour),
    ensures
        !chime_due(later_minute, hour, hour, hourly_enabled, start_hour, end_hour),
{
}

/// What the speech bubble does on a refresh.
#[derive(Debug, Clone, Copy, PartialEq, Eq, Structural)]
pub enum BubbleAction {
    /// Forget the text and hide the bubble.
    Hide,
    /// Show the bubble with its text.
    Show,
    /// Leave it as it is.
    Keep,
}

/// A bubble is shown for three seconds after it was set: `shown_ms` is how
/// long ago that was, if it was.
pub open spec fn bubble_rule(shown_ms: Option<u128>, bubble: Seq<char>) -> BubbleAction {
    let show = shown_ms matches Some(ms) && ms < 3000;
    if !show && bubble.len() != 0 {
        BubbleAction::Hide
    } else if show {
        BubbleAction::Show
    } else {
        BubbleAction::Keep
    }
}

pub fn bubble_action(shown_ms: Option<u128>, bubble: &str) -> (a: BubbleAction)
    ensures
        a == bubble_rule(shown_ms, bubble@),
{
    let show = match shown_ms {
        Some(ms) => ms < 3000,
        None => false,
    };
    if !show && !bubble.is_empty() {
        BubbleAction::Hide
    } else if show {
        BubbleAction::Show
    } else {
        BubbleAction::Keep
    }
}

/// Where the 156 by 220 window starts: centred in the work area (measured
/// from its size only), and not left of or above 0.
pub open spec fn centred(extent: int, size: int) -> int {
    if extent - size > 0 {
        (extent - size) / 2
    } else {
        0
    }
}

/// The start position of the window in the work area with the given edges.
pub fn centered_position(left: i32, top: i32, right: i32, bottom: i32) -> (p: (i32, i32))
    requires
        i32::MIN + 156 <= right - left <= i32::MAX,
        i32::MIN + 220 <= bottom - top <= i32::MAX,
    ensures
        p.0 == centred(right - left, 156),
        p.1 == centred(bottom - top, 220),
{
    let w = right - left;
    let h = bottom - top;
    let x = (w - 156) / 2;
    let y = (h - 220) / 2;
    (if x > 0 {
        x
    } else {
        0
    }, if y > 0 {
        y
    } else {
        0
    })
}

/// The values of the settings panel.
#[derive(Debug, Clone, Copy, PartialEq, Eq, Structural)]
pub struct UiSettings {
    pub auto_start: bool,
    pub edge_snap: bool,
    /// 30 to 100 in the panel.
    pub opacity: i32,
    pub hourly: bool,
    pub hourly_start: i32,
    pub hourly_end: i32,
    pub voice: bool,
    pub volume: i32,
}

/// The panel after loading one stored setting: a switch is on exactly when
/// the value is "true"; a number takes the value where it reads as one and
/// its default (100, 7, 22 or 80) where it does not; unknown keys change
/// nothing.
pub open spec fn loaded(s: UiSettings, key: Seq<char>, value: Seq<char>) -> UiSettings {
    if key == "auto_start"@ {
        UiSettings { auto_start: value == "true"@, ..s }
    } else if key == "edge_snap"@ {
        UiSettings { edge_snap: value == "true"@, ..s }
    } else if key == "pet_transparency"@ {
        UiSettings { opacity: field_or(value, 100) as i32, ..s }
    } else if key == "hourly_enabled"@ {
        UiSettings { hourly: value == "true"@, ..s }
    } else if key == "hourly_start_hour"@ {
        UiSettings { hourly_start: field_or(value, 7) as i32, ..s }
    } else if key == "hourly_end_hour"@ {
        UiSettings { hourly_end: field_or(value, 22) as i32, ..s }
    } else if key == "voice_enabled"@ {
        UiSettings { voice: value == "true"@, ..s }
    } else if key == "tts_volume"@ {
        UiSettings { volume: field_or(value, 80) as i32, ..s }
    } else {
        s
    }
}

/// The panel after loading stored settings in order.
pub open spec fn loaded_all(s: UiSettings, pairs: Seq<(Seq<char>, Seq<char>)>) -> UiSettings
    decreases pairs.len(),
{
    if pairs.len() == 0 {
        s
    } else {
        loaded(loaded_all(s, pairs.drop_last()), pairs.last().0, pairs.last().1)
    }
}

pub open spec fn setting_pairs(settings: Seq<Setting>) -> Seq<(Seq<char>, Seq<char>)> {
    settings.map_values(|x: Setting| (x.key@, x.value@))
}

/// The eight keys that the settings panel shows.
pub open spec fn panel_key(key: Seq<char>) -> bool {
    ||| key == "auto_start"@
    ||| key == "edge_snap"@
    ||| key == "pet_transparency"@
    ||| key == "hourly_enabled"@
    ||| key == "hourly_start_hour"@
    ||| key == "hourly_end_hour"@
    ||| key == "voice_enabled"@
    ||| key == "tts_volume"@
}

/// A stored setting that the panel does not show (such as the speech rate
/// or voice mode rows) changes nothing when loaded.
pub proof fn other_keys_leave_the_panel(s: UiSettings, key: Seq<char>, value: Seq<char>)
    requires
        !panel_key(key),
    ensures
        loaded(s, key, value) == s,
{
}

/// Loading a setting changes at most the one field that its key names:
/// each field of the panel changes only under its own key.
pub proof fn each_key_sets_only_its_field(s: UiSettings, key: Seq<char>, value: Seq<char>)
    ensures
        loaded(s, key, value).auto_start != s.auto_start ==> key == "auto_start"@,
        loaded(s, key, value).edge_snap != s.edge_snap ==> key == "edge_snap"@,
        loaded(s, key, value).opacity != s.opacity ==> key == "pet_transparency"@,
        loaded(s, key, value).hourly != s.hourly ==> key == "hourly_enabled"@,
        loaded(s, key, value).hourly_start != s.hourly_start ==> key == "hourly_start_hour"@,
        loaded(s, key, value).hourly_end != s.hourly_end ==> key == "hourly_end_hour"@,
        loaded(s, key, value).voice != s.voice ==> key == "voice_enabled"@,
        loaded(s, key, value).volume != s.volume ==> key == "tts_volume"@,
{
}

/// The speech rate row of the default settings does not touch the panel,
/// whatever it holds.
pub proof fn speech_rate_is_not_a_panel_setting(s: UiSettings, value: Seq<char>)
    ensures
        loaded(s, "tts_rate"@, value) == s,
{
    reveal_strlit("tts_rate");
    reveal_strlit("tts_volume");
    reveal_strlit("auto_start");
    reveal_strlit("edge_snap");
    reveal_strlit("pet_transparency");
    reveal_strlit("hourly_enabled");
    reveal_strlit("hourly_start_hour");
    reveal_strlit("hourly_end_hour");
    reveal_strlit("voice_enabled");
    assert("tts_rate"@.len() == 8);
    assert("tts_volume"@.len() == 10);
    assert("auto_start"@.len() == 10);
    assert("edge_snap"@.len() == 9);
    assert("pet_transparency"@.len() == 16);
    assert("hourly_enabled"@.len() == 14);
    assert("hourly_start_hour"@.len() == 17);
    assert("hourly_end_hour"@.len() == 15);
    assert("voice_enabled"@.len() == 13);
    other_keys_leave_the_panel(s, "tts_rate"@, value);
}

/// Loads one stored setting into the panel.
pub fn load_setting(s: &mut UiSettings, key: &str, value: &str)
    ensures
        *final(s) == loaded(*old(s), key@, value@),
{
    if same_text(key, "auto_start") {
        s.auto_start = same_text(value, "true");
    } else if same_text(key, "edge_snap") {
        s.edge_snap = same_text(value, "true");
    } else if same_text(key, "pet_transparency") {
        s.opacity = number_or(value, 100);
    } else if same_text(key, "hourly_enabled") {
        s.hourly = same_text(value, "true");
    } else if same_text(key, "hourly_start_hour") {
        s.hourly_start = number_or(value, 7);
    } else if same_text(key, "hourly_end_hour") {
        s.hourly_end = number_or(value, 22);
    } else if same_text(key, "voice_enabled") {
        s.voice = same_text(value, "true");
    } else if same_text(key, "tts_volume") {
        s.volume = number_or(value, 80);
    }
}

/// Loads the stored settings into the panel, in order.
pub fn load_settings(s: &mut UiSettings, settings: &Vec<Setting>)
    ensures
        *final(s) == loaded_all(*old(s), setting_pairs(settings@)),
{
    let ghost start = *s;
    let ghost pairs = setting_pairs(settings@);
    let mut i: usize = 0;
    while i < settings.len()
        invariant
            i <= settings.len(),
            pairs == setting_pairs(settings@),
            *s == loaded_all(start, pairs.take(i as int)),
        decreases settings.len() - i,
    {
        let setting = &settings[i];
        load_setting(s, setting.key.as_str(), setting.value.as_str());
        proof {
            assert(pairs.take(i + 1).drop_last() =~= pairs.take(i as int));
            assert(pairs.take(i + 1).last() == (setting.key@, setting.value@));
        }
        i = i + 1;
    }
    proof {
        assert(pairs.take(settings.len() as int) =~= pairs);
    }
}

pub open spec fn bool_text(b: bool) -> Seq<char> {
    if b {
        "true"@
    } else {
        "false"@
    }
}

/// The settings that the panel saves, in order: the switches as "true" or
/// "false" and the numbers in decimal.
pub open spec fn saved(s: UiSettings) -> Seq<(Seq<char>, Seq<char>)> {
    seq![
        ("auto_start"@, bool_text(s.auto_start)),
        ("edge_snap"@, bool_text(s.edge_snap)),
        ("pet_transparency"@, signed_decimal(s.opacity as int)),
        ("hourly_enabled"@, bool_text(s.hourly)),
        ("hourly_start_hour"@, signed_decimal(s.hourly_start as int)),
        ("hourly_end_hour"@, signed_decimal(s.hourly_end as int)),
        ("voice_enabled"@, bool_text(s.voice)),
        ("tts_volume"@, signed_decimal(s.volume as int)),
    ]
}

fn bool_setting(key: &str, b: bool) -> (r: Setting)
    ensures
        r.key@ == key@,
        r.value@ == bool_text(b),
{
    Setting { key: key.to_owned(), value: if b { "true".to_owned() } else { "false".to_owned() } }
}

fn number_setting(key: &str, n: i32) -> (r: Setting)
    ensures
        r.key@ == key@,
        r.value@ == signed_decimal(n as int),
{
    Setting { key: key.to_owned(), value: decimal_text(n as i64) }
}

/// The settings that the panel saves.
pub fn save_settings(s: &UiSettings) -> (r: Vec<Setting>)
    ensures
        setting_pairs(r@) == saved(*s),
{
    let mut v: Vec<Setting> = Vec::new();
    v.push(bool_setting("auto_start", s.auto_start));
    v.push(bool_setting("edge_snap", s.edge_snap));
    v.push(number_setting("pet_transparency", s.opacity));
    v.push(bool_setting("hourly_enabled", s.hourly));
    v.push(number_setting("hourly_start_hour", s.hourly_start));
    v.push(number_setting("hourly_end_hour", s.hourly_end));
    v.push(bool_setting("voice_enabled", s.voice));
    v.push(number_setting("tts_volume", s.volume));
    assert(setting_pairs(v@) =~= saved(*s));
    v
}

proof fn loaded_all_step(s: UiSettings, pairs: Seq<(Seq<char>, Seq<char>)>, k: int)
    requires
        0 <= k < pairs.len(),
    ensures
        loaded_all(s, pairs.take(k + 1)) == loaded(loaded_all(s, pairs.take(k)), pairs[k].0, pairs[k].1),
{
    assert(pairs.take(k + 1).drop_last() =~= pairs.take(k));
}

/// Saving the panel and loading what was saved gives the panel back,
/// whatever it showed before the load.
pub proof fn saved_settings_load_back(s: UiSettings, before: UiSettings)
    ensures
        loaded_all(before, saved(s)) == s,
{
    reveal_strlit("true");
    reveal_strlit("false");
    reveal_strlit("auto_start");
    reveal_strlit("edge_snap");
    reveal_strlit("pet_transparency");
    reveal_strlit("hourly_enabled");
    reveal_strlit("hourly_start_hour");
    reveal_strlit("hourly_end_hour");
    reveal_strlit("voice_enabled");
    reveal_strlit("tts_volume");
    parse_reads_back_decimal(s.opacity);
    parse_reads_back_decimal(s.hourly_start);
    parse_reads_back_decimal(s.hourly_end);
    parse_reads_back_decimal(s.volume);
    assert("auto_start"@.len() == 10);
    assert("edge_snap"@.len() == 9);
    assert("pet_transparency"@.len() == 16);
    assert("hourly_enabled"@.len() == 14);
    assert("hourly_start_hour"@.len() == 17);
    assert("hourly_end_hour"@.len() == 15);
    assert("voice_enabled"@.len() == 13);
    assert("tts_volume"@.len() == 10);
    assert("tts_volume"@[0] != "auto_start"@[0]);
    assert(field_or(signed_decimal(s.opacity as int), 100) == s.opacity);
    assert(field_or(signed_decimal(s.hourly_start as int), 7) == s.hourly_start);
    assert(field_or(signed_decimal(s.hourly_end as int), 22) == s.hourly_end);
    assert(field_or(signed_decimal(s.volume as int), 80) == s.volume);
    assert("true"@.len() == 4);
    assert("false"@.len() == 5);
    assert(bool_text(true) != bool_text(false));
    let p = saved(s);
    assert(p.take(0) =~= Seq::<(Seq<char>, Seq<char>)>::empty());
    let a0 = loaded_all(before, p.take(0));
    assert(a0 == before);
    loaded_all_step(before, p, 0);
    let a1 = loaded_all(before, p.take(1));
    assert(a1 == UiSettings { auto_start: s.auto_start, ..a0 });
    loaded_all_step(before, p, 1);
    let a2 = loaded_all(before, p.take(2));
    assert(a2 == UiSettings { edge_snap: s.edge_snap, ..a1 });
    loaded_all_step(before, p, 2);
    let a3 = loaded_all(before, p.take(3));
    assert(a3 == UiSettings { opacity: s.opacity, ..a2 });
    loaded_all_step(before, p, 3);
    let a4 = loaded_all(before, p.take(4));
    assert(a4 == UiSettings { hourly: s.hourly, ..a3 });
    loaded_all_step(before, p, 4);
    let a5 = loaded_all(before, p.take(5));
    assert(a5 == UiSettings { hourly_start: s.hourly_start, ..a4 });
    loaded_all_step(before, p, 5);
    let a6 = loaded_all(before, p.take(6));
    assert(a6 == UiSettings { hourly_end: s.hourly_end, ..a5 });
    loaded_all_step(before, p, 6);
    let a7 = loaded_all(before, p.take(7));
    assert(a7 == UiSettings { voice: s.voice, ..a6 });
    loaded_all_step(before, p, 7);
    let a8 = loaded_all(before, p.take(8));
    assert(a8 == UiSettings { volume: s.volume, ..a7 });
    assert(p.take(8) =~= p);
}

} // verus!
