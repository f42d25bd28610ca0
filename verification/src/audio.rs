//! Sound effects behind an on/off switch, played through PowerShell.

use crate::powershell::{beep_command, beep_script, media_command, play_wav_script};
use vstd::prelude::*;

verus! {

pub struct AudioManager {
    enabled: bool,
}

impl View for AudioManager {
    /// Whether sound is on.
    type V = bool;

    closed spec fn view(&self) -> bool {
        self.enabled
    }
}

impl AudioManager {
    /// Sound on.
    pub fn new() -> (m: Self)
        ensures
            m@,
    {
        AudioManager { enabled: true }
    }

    pub fn set_enabled(&mut self, enabled: bool)
        ensures
            final(self)@ == enabled,
    {
        self.enabled = enabled;
    }

    pub fn is_enabled(&self) -> (r: bool)
        ensures
            r == self@,
    {
        self.enabled
    }

    /// The command that plays the sound file at `path`, when sound is on.
    pub fn play_file(&self, path: &str) -> (r: Option<String>)
        ensures
            r is Some <==> self@,
            r matches Some(cmd) ==> cmd@ == media_command(path@),
    {
        if !self.is_enabled() {
            return None;
        }
        Some(play_wav_script(path))
    }

    /// The command that beeps at `freq` Hz for `duration_ms` milliseconds,
    /// when sound is on.
    pub fn play_beep(&self, freq: u32, duration_ms: u32) -> (r: Option<String>)
        ensures
            r is Some <==> self@,
            r matches Some(cmd) ==> cmd@ == beep_command(freq as nat, duration_ms as nat),
    {
        if !self.is_enabled() {
            return None;
        }
        Some(beep_script(freq, duration_ms))
    }
}

} // verus!
