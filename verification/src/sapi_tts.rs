//! Speech through Windows' own synthesizer, driven by a PowerShell command:
//! a switch, a volume between 0 and 100 and a rate between -10 and 10.

use crate::powershell::{speech_command, speech_script};
use vstd::prelude::*;

pub use crate::tts::{hourly_text, task_added_text, task_completed_text, task_due_soon_text};

verus! {

pub struct TtsManager {
    enabled: bool,
    volume: u16,
    rate: i32,
}

impl View for TtsManager {
    /// Whether speech is on, the volume and the rate.
    type V = (bool, u16, i32);

    closed spec fn view(&self) -> (bool, u16, i32) {
        (self.enabled, self.volume, self.rate)
    }
}

impl TtsManager {
    /// The volume is at most 100 and the rate between -10 and 10.
    pub open spec fn well_formed(&self) -> bool {
        &&& self@.1 <= 100
        &&& -10 <= self@.2 <= 10
    }

    /// Speech on, volume 80, normal rate.
    pub fn new() -> (m: Self)
        ensures
            m@ == (true, 80u16, 0i32),
            m.well_formed(),
    {
        TtsManager { enabled: true, volume: 80, rate: 0 }
    }

    pub fn set_enabled(&mut self, enabled: bool)
        requires
            old(self).well_formed(),
        ensures
            final(self)@ == (enabled, old(self)@.1, old(self)@.2),
            final(self).well_formed(),
    {
        self.enabled = enabled;
    }

    /// Sets the volume, cut down to 100.
    pub fn set_volume(&mut self, volume: u16)
        requires
            old(self).well_formed(),
        ensures
            final(self)@ == (old(self)@.0, if volume <= 100 { volume } else { 100u16 }, old(self)@.2),
            final(self).well_formed(),
    {
        self.volume = if volume <= 100 {
            volume
        } else {
            100
        };
    }

    /// Sets the rate, held between -10 and 10.
    pub fn set_rate(&mut self, rate: i32)
        requires
            old(self).well_formed(),
        ensures
            final(self)@ == (
                old(self)@.0,
                old(self)@.1,
                if rate < -10 {
                    -10i32
                } else if rate > 10 {
                    10i32
                } else {
                    rate
                },
            ),
            final(self).well_formed(),
    {
        self.rate = if rate < -10 {
            -10
        } else if rate > 10 {
            10
        } else {
            rate
        };
    }

    /// The command that says `text` at the manager's volume and rate, when
    /// speech is on; nothing when it is off.
    pub fn speak(&self, text: &str) -> (r: Option<String>)
        ensures
            r is Some <==> self@.0,
            r matches Some(cmd) ==> cmd@ == speech_command(text@, self@.1 as nat, self@.2 as int),
    {
        if !self.enabled {
            return None;
        }
        Some(speech_script(text, self.volume, self.rate))
    }
}

} // verus!
