//! The consumer inside the hardware callback: one sample per output frame,
//! silence where the channel has none, and never a wait.

use crate::channel::{channel_try_recv, sample_or, ReceiveError};
use crate::handoff::{HandoffCell, HandoffError};
use crossbeam_channel::Receiver;
use vstd::prelude::*;

verus! {

/// One output frame.
#[derive(Debug)]
pub struct Frame<T> {
    /// What goes to the hardware.
    pub sample: T,
    /// Whether the channel had nothing for this frame.
    pub underrun: bool,
}

/// How many of `frames` hold `silence`.
pub open spec fn silent_frames<T>(frames: Seq<T>, silence: T) -> nat
    decreases frames.len(),
{
    if frames.len() == 0 {
        0
    } else {
        silent_frames(frames.drop_last(), silence) + if frames.last() == silence {
            1nat
        } else {
            0nat
        }
    }
}

/// Feeds the hardware from its channel.
#[verifier::reject_recursive_types(T)]
pub struct RealtimeRenderSink<T> {
    consumer: Receiver<T>,
    silence: T,
}

impl<T: Copy> RealtimeRenderSink<T> {
    /// The channel endpoint that the sink owns.
    pub closed spec fn consumer(&self) -> Receiver<T> {
        self.consumer
    }

    /// The sample that stands for silence.
    pub closed spec fn silence(&self) -> T {
        self.silence
    }

    /// The frame that a receive leads to: the sample received, or silence
    /// where the channel was empty or closed.
    pub open spec fn frame_of(&self, received: Result<T, ReceiveError>) -> Frame<T> {
        Frame { sample: sample_or(received, self.silence()), underrun: received is Err }
    }

    /// Takes the consumer endpoint out of `consumer`, for good. Fails where
    /// the endpoint was taken before.
    pub fn new(consumer: &mut HandoffCell<Receiver<T>>, silence: T) -> (sink: Result<
        Self,
        HandoffError,
    >)
        ensures
            final(consumer)@ is None,
            sink is Ok <==> old(consumer)@ is Some,
            sink is Ok ==> {
                &&& old(consumer)@ == Some(sink->Ok_0.consumer())
                &&& sink->Ok_0.silence() == silence
            },
            sink is Err ==> sink->Err_0 == HandoffError::AlreadyTaken,
    {
        match consumer.take() {
            Ok(endpoint) => Ok(RealtimeRenderSink { consumer: endpoint, silence }),
            Err(error) => Err(error),
        }
    }

    /// Turns the outcome of a receive into a frame. An empty channel and a
    /// closed one both give silence: neither is an error here.
    pub fn emit(&self, received: Result<T, ReceiveError>) -> (frame: Frame<T>)
        ensures
            frame == self.frame_of(received),
    {
        match received {
            Ok(sample) => Frame { sample, underrun: false },
            Err(_) => Frame { sample: self.silence, underrun: true },
        }
    }

    /// The next output frame: one attempt to receive, without waiting, and
    /// `emit` on its outcome. Whatever the channel does, an underrun is
    /// silence.
    pub fn next_frame(&self) -> (frame: Frame<T>)
        ensures
            frame.underrun ==> frame.sample == self.silence(),
    {
        self.emit(channel_try_recv(&self.consumer))
    }

    /// Fills every frame of `frame_buffer` with `next_frame`, in place, and
    /// returns how many of them were underruns. At least that many frames
    /// are silence. Where every frame was an underrun, as on an empty
    /// channel, the whole buffer is silence.
    pub fn on_render_frame(&self, frame_buffer: &mut [T]) -> (underruns: usize)
        ensures
            final(frame_buffer)@.len() == old(frame_buffer)@.len(),
            underruns <= silent_frames(final(frame_buffer)@, self.silence()),
            underruns <= old(frame_buffer)@.len(),
            underruns == old(frame_buffer)@.len() ==> forall|i: int|
                0 <= i < final(frame_buffer)@.len() ==> final(frame_buffer)@[i] == self.silence(),
    {
        let n: usize = frame_buffer.len();
        let mut underruns: usize = 0;
        let mut i: usize = 0;
        while i < n
            invariant
                n == frame_buffer@.len(),
                i <= n,
                underruns <= i,
                underruns <= silent_frames(frame_buffer@.subrange(0, i as int), self.silence()),
                underruns == i ==> forall|j: int|
                    0 <= j < i ==> frame_buffer@[j] == self.silence(),
            decreases n - i,
        {
            let ghost filled = frame_buffer@.subrange(0, i as int);
            let frame = self.next_frame();
            frame_buffer[i] = frame.sample;
            assert(frame_buffer@.subrange(0, i + 1).drop_last() =~= filled);
            if frame.underrun {
                underruns += 1;
            }
            i += 1;
        }
        assert(frame_buffer@.subrange(0, n as int) =~= frame_buffer@);
        underruns
    }
}

} // verus!
