use vstd::prelude::*;
use crate::frame_slot::FrameSlot;

verus! {

/// Number of samples in one audio frame.
pub const FRAME_SIZE: usize = 1024;

/// Samples per second that the input stream is opened at.
pub const SAMPLE_RATE: u32 = 44100;

/// Number of interleaved channels in the input stream: the signal is mono.
pub const CHANNELS: i32 = 1;

/// Why a capture session could not be started.
#[derive(Clone, Copy, Debug, PartialEq, Eq, Structural)]
pub enum CaptureError {
    /// No usable input device, or the stream parameters were rejected.
    Device,
    /// The audio backend itself could not be initialized.
    Subsystem,
}

/// The steps of starting a capture session, in the order they are taken.
#[derive(Clone, Copy, Debug, PartialEq, Eq, Structural)]
pub enum SetupStep {
    /// Bring up the audio backend.
    Initialize,
    /// Ask the default input device for settings at the configured rate and size.
    Configure,
    /// Open the input stream with the frame callback installed.
    Open,
    /// Start the opened stream.
    Start,
}

/// The error a session start reports when `step` fails: only the backend's own
/// initialization is a subsystem fault; every later step concerns the device.
pub open spec fn error_for(step: SetupStep) -> CaptureError {
    match step {
        SetupStep::Initialize => CaptureError::Subsystem,
        _ => CaptureError::Device,
    }
}

/// Classifies a failure of `step` during session start.
pub fn setup_error(step: SetupStep) -> (r: CaptureError)
    ensures
        r == error_for(step),
{
    match step {
        SetupStep::Initialize => CaptureError::Subsystem,
        _ => CaptureError::Device,
    }
}

/// Copies the samples handed to the input callback into an owned frame.
pub fn copy_frame<T: Copy>(samples: &[T]) -> (r: Vec<T>)
    ensures
        r@ == samples@,
{
    let mut frame: Vec<T> = Vec::with_capacity(samples.len());
    let mut i: usize = 0;
    while i < samples.len()
        invariant
            i <= samples@.len(),
            frame@ == samples@.subrange(0, i as int),
        decreases samples@.len() - i,
    {
        frame.push(samples[i]);
        i += 1;
        assert(frame@ =~= samples@.subrange(0, i as int));
    }
    assert(frame@ =~= samples@);
    frame
}

/// The work of one input callback: the block of samples becomes the slot's
/// only frame, and any frame that was not yet read is dropped.
pub fn on_input<T: Copy>(slot: &mut FrameSlot<Vec<T>>, samples: &[T])
    requires
        samples@.len() == FRAME_SIZE,
    ensures
        final(slot)@ is Some,
        final(slot)@->0@ == samples@,
{
    let frame = copy_frame(samples);
    slot.write(frame);
}

} // verus!
