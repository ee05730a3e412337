//! The control side: knob and key changes turned into commands and sent.
use vstd::prelude::*;
use crossbeam_channel::Sender;
use crate::channel::{send_command, Closed};
use crate::command::{frequency_for_knob, knob_frequency, note_for_key, AppEvent, Message};
use crate::fixed::UNIT;

verus! {

/// The amplitude knob's position at start: 0.1, in fixed point.
pub const START_AMPLITUDE_KNOB: i32 = 6554;

/// The command that a knob change sends: an amplitude as it stands, a
/// frequency knob position as the frequency it selects.
pub open spec fn command_of(ev: AppEvent) -> Message {
    match ev {
        AppEvent::SetAmplitude(a) => Message::Amplitude(a),
        AppEvent::SetFrequency(k) => Message::Frequency(knob_frequency(k as nat) as u32),
    }
}

/// The command that a knob change sends.
pub fn command_for(ev: AppEvent) -> (r: Message)
    ensures
        r == command_of(ev),
{
    match ev {
        AppEvent::SetAmplitude(a) => Message::Amplitude(a),
        AppEvent::SetFrequency(k) => Message::Frequency(frequency_for_knob(k)),
    }
}

/// The control panel's model: the knob positions and the sending side of
/// the command channel.
pub struct AppData {
    pub command_sender: Sender<Message>,
    /// Amplitude knob position, in fixed point.
    pub amplitude: i32,
    /// Frequency knob position, in fixed point.
    pub frequency: u32,
}

impl AppData {
    /// The model at start: amplitude knob at 0.1, frequency knob at its low end.
    pub fn new(command_sender: Sender<Message>) -> (r: AppData)
        ensures
            r.command_sender == command_sender,
            r.amplitude == START_AMPLITUDE_KNOB,
            r.frequency == 0,
    {
        AppData { command_sender, amplitude: START_AMPLITUDE_KNOB, frequency: 0 }
    }

    /// Records a knob change and sends the command it stands for.
    pub fn event(&mut self, ev: AppEvent) -> (r: Result<(), Closed>)
        ensures
            final(self).command_sender == old(self).command_sender,
            match ev {
                AppEvent::SetAmplitude(a) => final(self).amplitude == a && final(self).frequency
                    == old(self).frequency,
                AppEvent::SetFrequency(k) => final(self).frequency == k && final(self).amplitude
                    == old(self).amplitude,
            },
            r matches Err(c) ==> c.command == command_of(ev),
    {
        match ev {
            AppEvent::SetAmplitude(a) => self.amplitude = a,
            AppEvent::SetFrequency(k) => self.frequency = k,
        }
        send_command(&self.command_sender, command_for(ev))
    }

    /// Sends the note command for a press (`true`) or release (`false`) of
    /// the note key: gate open on press, closed on release.
    pub fn key(&self, pressed: bool) -> (r: Result<(), Closed>)
        ensures
            r matches Err(c) ==> c.command == (if pressed {
                Message::Note(UNIT as i32)
            } else {
                Message::Note(0)
            }),
    {
        send_command(&self.command_sender, note_for_key(pressed))
    }
}

} // verus!
