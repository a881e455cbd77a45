//! The decisions of the thread that records the user's voice: which audio
//! input it accepts, and what it does on each order from the editor.

use vstd::prelude::*;

verus! {

/// What the recorder sends to the speech-to-text thread.
pub enum AudioMessage {
    /// A chunk of mono samples at the speech model's sample rate.
    Audio(Vec<i16>),
    /// The recording has ended.
    EndOf,
    /// The program is closing.
    Exit,
}

/// What the editor orders the recorder to do.
#[derive(Clone, Copy, Debug, PartialEq, Eq, Structural)]
pub enum GuiOrders {
    Record,
    Stop,
    Exit,
}

/// The sample rate, in Hz, that the speech model expects.
pub const STT_SAMPLE_RATE: u32 = 16000;

/// Why an audio input cannot be recorded from.
#[derive(Clone, Copy, Debug, PartialEq, Eq, Structural)]
pub enum InputConfigError {
    /// The input has more than one channel.
    NotMono,
    /// The input's range of sample rates leaves out `STT_SAMPLE_RATE`.
    SampleRateOutOfRange,
}

/// Checks an input configuration: it must have one channel, and its range of
/// sample rates must hold `STT_SAMPLE_RATE`. The channels are checked first.
pub fn check_input_config(channels: u16, min_sample_rate: u32, max_sample_rate: u32) -> (r: Result<(), InputConfigError>)
    ensures
        channels != 1 ==> r == Err::<(), InputConfigError>(InputConfigError::NotMono),
        channels == 1 && !(min_sample_rate <= STT_SAMPLE_RATE <= max_sample_rate) ==> r == Err::<(), InputConfigError>(
            InputConfigError::SampleRateOutOfRange,
        ),
        channels == 1 && min_sample_rate <= STT_SAMPLE_RATE <= max_sample_rate ==> r is Ok,
{
    if channels != 1 {
        Err(InputConfigError::NotMono)
    } else if min_sample_rate <= STT_SAMPLE_RATE && STT_SAMPLE_RATE <= max_sample_rate {
        Ok(())
    } else {
        Err(InputConfigError::SampleRateOutOfRange)
    }
}

/// What the recorder does on an order.
#[derive(Clone, Copy, Debug, PartialEq, Eq, Structural)]
pub enum RecorderAction {
    /// Open a new input stream and start playing it; its chunks are forwarded.
    StartStream,
    /// Stop forwarding chunks, let the stream settle, then send `EndOf`.
    SendEndOf,
    /// Send `Exit` to the speech-to-text thread and end the thread.
    SendExit,
}

/// The recorder's step on an order, over whether it forwards chunks: `Record`
/// starts forwarding, `Stop` ends it, `Exit` leaves it as it is.
pub open spec fn recorder_step(sending: bool, order: GuiOrders) -> (bool, RecorderAction) {
    match order {
        GuiOrders::Record => (true, RecorderAction::StartStream),
        GuiOrders::Stop => (false, RecorderAction::SendEndOf),
        GuiOrders::Exit => (sending, RecorderAction::SendExit),
    }
}

/// The recorder's state: whether the audio callback forwards the chunks it gets.
pub struct Recorder {
    should_send: bool,
}

impl Recorder {
    /// Whether captured chunks are forwarded to the speech-to-text thread.
    pub closed spec fn sending(&self) -> bool {
        self.should_send
    }

    /// A recorder that forwards nothing yet.
    pub fn new() -> (r: Recorder)
        ensures
            !r.sending(),
    {
        Recorder { should_send: false }
    }

    /// Whether a chunk that the audio callback gets now is forwarded.
    pub fn should_send(&self) -> (r: bool)
        ensures
            r == self.sending(),
    {
        self.should_send
    }

    /// Takes an order from the editor: `Record` starts forwarding, `Stop` ends
    /// it and the recording, `Exit` ends the thread.
    pub fn step(&mut self, order: GuiOrders) -> (action: RecorderAction)
        ensures
            (final(self).sending(), action) == recorder_step(old(self).sending(), order),
    {
        match order {
            GuiOrders::Record => {
                self.should_send = true;
                RecorderAction::StartStream
            },
            GuiOrders::Stop => {
                self.should_send = false;
                RecorderAction::SendEndOf
            },
            GuiOrders::Exit => RecorderAction::SendExit,
        }
    }
}

} // verus!
