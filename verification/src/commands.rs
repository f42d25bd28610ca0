//! What the web front end's commands do to the pet and what they have
//! spoken or played; storing the tasks themselves is left to the caller.

use crate::audio::AudioManager;
use crate::powershell::{media_command, speech_command};
use crate::sapi_tts::TtsManager;
use crate::state_machine::{PetState, PetStateInfo, PetStateMachine, StateEvent, step};
use crate::strings::same_text;
use crate::tts::{hourly_speech, hourly_text, task_added_text, task_completed_text};
use vstd::prelude::*;

verus! {

/// The name under which a mood travels to and from the front end.
pub open spec fn state_code(s: PetState) -> Seq<char> {
    match s {
        PetState::Idle => "IDLE"@,
        PetState::Remind => "REMIND"@,
        PetState::Warning => "WARNING"@,
        PetState::Sad => "SAD"@,
        PetState::Recover => "RECOVER"@,
        PetState::Happy => "HAPPY"@,
        PetState::Sleeping => "SLEEPING"@,
    }
}

/// The mood a front-end name stands for; unknown names mean idle.
pub open spec fn state_named(name: Seq<char>) -> PetState {
    if name == "IDLE"@ {
        PetState::Idle
    } else if name == "REMIND"@ {
        PetState::Remind
    } else if name == "WARNING"@ {
        PetState::Warning
    } else if name == "SAD"@ {
        PetState::Sad
    } else if name == "RECOVER"@ {
        PetState::Recover
    } else if name == "HAPPY"@ {
        PetState::Happy
    } else if name == "SLEEPING"@ {
        PetState::Sleeping
    } else {
        PetState::Idle
    }
}

/// The mood a front-end name stands for.
pub fn parse_state_name(name: &str) -> (s: PetState)
    ensures
        s == state_named(name@),
{
    if same_text(name, "IDLE") {
        PetState::Idle
    } else if same_text(name, "REMIND") {
        PetState::Remind
    } else if same_text(name, "WARNING") {
        PetState::Warning
    } else if same_text(name, "SAD") {
        PetState::Sad
    } else if same_text(name, "RECOVER") {
        PetState::Recover
    } else if same_text(name, "HAPPY") {
        PetState::Happy
    } else if same_text(name, "SLEEPING") {
        PetState::Sleeping
    } else {
        PetState::Idle
    }
}

/// The name of a mood read back gives that mood.
pub proof fn state_code_reads_back(s: PetState)
    ensures
        state_named(state_code(s)) == s,
{
    reveal_strlit("IDLE");
    reveal_strlit("REMIND");
    reveal_strlit("WARNING");
    reveal_strlit("SAD");
    reveal_strlit("RECOVER");
    reveal_strlit("HAPPY");
    reveal_strlit("SLEEPING");
    assert("IDLE"@.len() == 4);
    assert("REMIND"@.len() == 6);
    assert("WARNING"@.len() == 7);
    assert("SAD"@.len() == 3);
    assert("RECOVER"@.len() == 7);
    assert("HAPPY"@.len() == 5);
    assert("SLEEPING"@.len() == 8);
    assert("RECOVER"@[0] != "WARNING"@[0]);
}

pub fn get_pet_state(pet: &PetStateMachine) -> (info: PetStateInfo)
    ensures
        info@ == pet@,
{
    pet.get_state()
}

/// Puts the pet into the named mood with the given sadness and message.
pub fn set_pet_state(pet: &mut PetStateMachine, state_name: &str, sadness_level: u8, message: &str)
    ensures
        final(pet)@ == (state_named(state_name@), sadness_level, message@),
{
    let s = parse_state_name(state_name);
    pet.set_state(s, sadness_level, message);
}

/// The user strokes the pet.
pub fn pet_pet(pet: &mut PetStateMachine) -> (info: PetStateInfo)
    ensures
        final(pet)@ == step(old(pet)@, StateEvent::PetPet),
        info@ == final(pet)@,
{
    pet.transition(StateEvent::PetPet)
}

/// The speech command for `text` from a new speech manager, when `voice`
/// is on.
fn fresh_speech(text: &str, voice: bool) -> (r: Option<String>)
    ensures
        r is Some <==> voice,
        r matches Some(cmd) ==> cmd@ == speech_command(text@, 80, 0),
{
    if voice {
        let mgr = TtsManager::new();
        mgr.speak(text)
    } else {
        None
    }
}

/// The clock reached `hour`: the pet takes the event, and the greeting is
/// spoken at the default volume and rate when voice is on.
pub fn hour_reached(pet: &mut PetStateMachine, hour: u32, voice_enabled: bool) -> (r: (
    PetStateInfo,
    Option<String>,
))
    ensures
        final(pet)@ == step(old(pet)@, StateEvent::HourReached),
        r.0@ == final(pet)@,
        r.1 is Some <==> voice_enabled,
        r.1 matches Some(cmd) ==> cmd@ == speech_command(hourly_speech(hour as nat), 80, 0),
{
    let info = pet.transition(StateEvent::HourReached);
    let text = hourly_text(hour);
    (info, fresh_speech(text.as_str(), voice_enabled))
}

/// After a task was stored: the pet takes the event, and the announcement
/// is spoken at the default volume and rate when voice is on.
pub fn task_added(pet: &mut PetStateMachine, title: &str, voice_enabled: bool) -> (r: Option<String>)
    ensures
        final(pet)@ == step(old(pet)@, StateEvent::TaskAdded),
        r is Some <==> voice_enabled,
        r matches Some(cmd) ==> cmd@ == speech_command(
            "收到新任务: "@ + title@ + "，我会提醒你的"@,
            80,
            0,
        ),
{
    let _info = pet.transition(StateEvent::TaskAdded);
    let text = task_added_text(title);
    fresh_speech(text.as_str(), voice_enabled)
}

/// After a task was marked done: the pet takes the event, and the cheer is
/// spoken at the default volume and rate when voice is on.
pub fn task_completed(pet: &mut PetStateMachine, title: &str, voice_enabled: bool) -> (r: Option<String>)
    ensures
        final(pet)@ == step(old(pet)@, StateEvent::TaskCompleted),
        r is Some <==> voice_enabled,
        r matches Some(cmd) ==> cmd@ == speech_command("好棒! "@ + title@ + " 已经完成啦!"@, 80, 0),
{
    let _info = pet.transition(StateEvent::TaskCompleted);
    let text = task_completed_text(title);
    fresh_speech(text.as_str(), voice_enabled)
}

/// The command that says `text` at `volume` (cut down to 100) and `rate`
/// (held between -10 and 10).
pub fn speak_text(text: &str, volume: u16, rate: i32) -> (r: Option<String>)
    ensures
        r matches Some(cmd) && cmd@ == speech_command(
            text@,
            (if volume <= 100 { volume } else { 100u16 }) as nat,
            (if rate < -10 { -10i32 } else if rate > 10 { 10i32 } else { rate }) as int,
        ),
{
    let mut mgr = TtsManager::new();
    mgr.set_volume(volume);
    mgr.set_rate(rate);
    mgr.speak(text)
}

/// The command that plays the sound file at `path`.
pub fn play_sound(path: &str) -> (r: Option<String>)
    ensures
        r matches Some(cmd) && cmd@ == media_command(path@),
{
    let audio = AudioManager::new();
    audio.play_file(path)
}

} // verus!
