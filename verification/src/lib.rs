//! Core logic of the desktop pet: the mood state machine, the spoken and
//! displayed texts, the speech and sound command lines, click-through and
//! window styles, the task list and the reminder and settings rules.

pub mod audio;
pub mod commands;
pub mod companion;
pub mod numbers;
pub mod powershell;
pub mod sapi_tts;
pub mod state_machine;
pub mod strings;
pub mod tasks;
pub mod tts;
pub mod window_style;
