use vstd::prelude::*;

verus! {

/// The keys the simulation responds to; every other key is `Other`.
#[derive(Debug, Clone, Copy, PartialEq, Eq)]
pub enum KeyPress {
    R,
    A,
    Space,
    Up,
    Down,
    Other,
}

/// What the surrounding application does in response to a key.
#[derive(Debug, Clone, Copy, PartialEq, Eq)]
pub enum Command {
    /// Return the chamber to rest.
    ResetChamber,
    /// Inject a pressure impulse at the source cell.
    InjectPressure,
    /// Start the audio stream.
    PlayAudio,
    /// Pause the audio stream.
    PauseAudio,
    /// Raise the oscillator's frequency by one increment.
    RaiseFrequency,
    /// Lower the oscillator's frequency by one increment.
    LowerFrequency,
    /// Do nothing.
    Ignore,
}

/// The command for `key` while the audio stream is playing or not: R resets,
/// A injects, Space toggles playback, Up and Down move the frequency.
pub open spec fn command_spec(key: KeyPress, audio_playing: bool) -> Command {
    match key {
        KeyPress::R => Command::ResetChamber,
        KeyPress::A => Command::InjectPressure,
        KeyPress::Space => if audio_playing {
            Command::PauseAudio
        } else {
            Command::PlayAudio
        },
        KeyPress::Up => Command::RaiseFrequency,
        KeyPress::Down => Command::LowerFrequency,
        KeyPress::Other => Command::Ignore,
    }
}

/// Decides what a key press does, given whether the audio is playing.
pub fn command_for(key: KeyPress, audio_playing: bool) -> (r: Command)
    ensures
        r == command_spec(key, audio_playing),
{
    match key {
        KeyPress::R => Command::ResetChamber,
        KeyPress::A => Command::InjectPressure,
        KeyPress::Space => {
            if audio_playing {
                Command::PauseAudio
            } else {
                Command::PlayAudio
            }
        },
        KeyPress::Up => Command::RaiseFrequency,
        KeyPress::Down => Command::LowerFrequency,
        KeyPress::Other => Command::Ignore,
    }
}

} // verus!
