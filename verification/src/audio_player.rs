//! The consumer of the visualisation channel: on every UI frame it drains
//! what the channel holds, decimates it and appends what is kept to the
//! waveform history.

use crate::channel::{channel_len, channel_try_recv};
use crate::decimation::{Decimator, DEFAULT_DECIMATION};
use crate::handoff::{HandoffCell, HandoffError};
use crate::history::{lemma_nothing_consumed, lemma_shown_after_push, shown_after};
use crate::ring_buffer::{keep_last, VisualizationRingBuffer};
use crossbeam_channel::Receiver;
use vstd::prelude::*;

verus! {

/// The name of the command that starts playback.
pub const PLAY_COMMAND: &'static str = "PLAY";

/// What the host tells the player.
#[derive(Clone, Copy, Debug, PartialEq, Eq, Structural)]
pub enum PlayerEvent {
    /// The command named `PLAY_COMMAND` arrived.
    Play,
    /// An animation frame is due.
    AnimFrame,
    /// Anything else.
    Other,
}

/// What the player asks of the host after an event.
pub struct EventOutcome<T> {
    /// The samples taken from the channel during the event, in order, for
    /// the consumers that run at full rate.
    pub drained: Vec<T>,
    /// Whether the host shall schedule another animation frame.
    pub request_anim_frame: bool,
    /// Whether the host shall repaint.
    pub invalidate: bool,
}

/// Drains the visualisation channel at UI rate.
#[verifier::reject_recursive_types(T)]
pub struct AudioPlayer<T> {
    consumer: Receiver<T>,
    decimator: Decimator,
}

impl<T: Copy> AudioPlayer<T> {
    /// The channel endpoint that the player owns.
    pub closed spec fn consumer(&self) -> Receiver<T> {
        self.consumer
    }

    /// The state of the player's decimation.
    pub closed spec fn decimator(&self) -> Decimator {
        self.decimator
    }

    /// That `self` is `before` after consuming `batch`: same endpoint, same
    /// factor, the phase moved on by the length of the batch.
    pub open spec fn consumed(&self, before: &Self, batch: Seq<T>) -> bool {
        &&& self.consumer() == before.consumer()
        &&& self.decimator().factor() == before.decimator().factor()
        &&& self.decimator().phase() == (before.decimator().phase() + batch.len())
            % before.decimator().factor()
    }

    /// Takes the consumer endpoint out of `consumer`, for good, and starts
    /// with the standard decimation. Fails where the endpoint was taken
    /// before.
    pub fn new(consumer: &mut HandoffCell<Receiver<T>>) -> (player: Result<Self, HandoffError>)
        ensures
            final(consumer)@ is None,
            player is Ok <==> old(consumer)@ is Some,
            player is Ok ==> {
                &&& old(consumer)@ == Some(player->Ok_0.consumer())
                &&& player->Ok_0.decimator().factor() == DEFAULT_DECIMATION
                &&& player->Ok_0.decimator().phase() == 0
            },
            player is Err ==> player->Err_0 == HandoffError::AlreadyTaken,
    {
        Self::with_decimator(consumer, Decimator::standard())
    }

    /// As `new`, with a decimation of the caller's choice.
    pub fn with_decimator(consumer: &mut HandoffCell<Receiver<T>>, decimator: Decimator) -> (player:
        Result<Self, HandoffError>)
        ensures
            final(consumer)@ is None,
            player is Ok <==> old(consumer)@ is Some,
            player is Ok ==> {
                &&& old(consumer)@ == Some(player->Ok_0.consumer())
                &&& player->Ok_0.decimator() == decimator
            },
            player is Err ==> player->Err_0 == HandoffError::AlreadyTaken,
    {
        match consumer.take() {
            Ok(endpoint) => Ok(AudioPlayer { consumer: endpoint, decimator }),
            Err(error) => Err(error),
        }
    }

    /// Consumes one sample: counts it, and appends it to `buffer` if it is
    /// the one of its group to keep.
    pub fn accept(&mut self, buffer: &mut VisualizationRingBuffer<T>, sample: T) -> (kept: bool)
        ensures
            final(self).consumed(old(self), seq![sample]),
            kept == ((old(self).decimator().phase() + 1) % old(self).decimator().factor() == 0),
            final(buffer).limit() == old(buffer).limit(),
            final(buffer)@ == if kept {
                keep_last(old(buffer)@.push(sample), old(buffer).limit())
            } else {
                old(buffer)@
            },
            final(buffer)@ == shown_after(
                old(buffer)@,
                old(buffer).limit(),
                seq![sample],
                old(self).decimator().factor(),
                old(self).decimator().phase(),
            ),
    {
        let ghost factor = self.decimator.factor();
        let ghost phase = self.decimator.phase();
        let ghost history = buffer@;
        let ghost limit = buffer.limit();
        proof {
            use_type_invariant(&self.decimator);
            use_type_invariant(&*buffer);
            lemma_nothing_consumed(history, limit, factor, phase);
            lemma_shown_after_push(history, limit, Seq::<T>::empty(), sample, factor, phase);
            assert(Seq::<T>::empty().push(sample) =~= seq![sample]);
            assert(history + Seq::<T>::empty() =~= history);
        }
        let kept = self.decimator.advance();
        if kept {
            buffer.push(sample);
        }
        kept
    }

    /// Consumes `samples` in order, as `accept` does one by one.
    pub fn absorb(&mut self, buffer: &mut VisualizationRingBuffer<T>, samples: &Vec<T>)
        ensures
            final(self).consumed(old(self), samples@),
            final(buffer).limit() == old(buffer).limit(),
            final(buffer)@ == shown_after(
                old(buffer)@,
                old(buffer).limit(),
                samples@,
                old(self).decimator().factor(),
                old(self).decimator().phase(),
            ),
    {
        let ghost before = *self;
        let ghost factor = self.decimator.factor();
        let ghost phase = self.decimator.phase();
        let ghost history = buffer@;
        let ghost limit = buffer.limit();
        proof {
            use_type_invariant(&self.decimator);
            use_type_invariant(&*buffer);
            lemma_nothing_consumed(history, limit, factor, phase);
        }
        let n: usize = samples.len();
        let mut i: usize = 0;
        assert(samples@.subrange(0, 0) =~= Seq::<T>::empty());
        while i < n
            invariant
                n == samples@.len(),
                i <= n,
                factor >= 1,
                phase < factor,
                factor == before.decimator().factor(),
                phase == before.decimator().phase(),
                self.consumed(&before, samples@.subrange(0, i as int)),
                buffer.limit() == limit,
                buffer@ == shown_after(history, limit, samples@.subrange(0, i as int), factor, phase),
            decreases n - i,
        {
            let sample: T = samples[i];
            proof {
                lemma_shown_after_push(
                    history,
                    limit,
                    samples@.subrange(0, i as int),
                    sample,
                    factor,
                    phase,
                );
                assert(samples@.subrange(0, i as int).push(sample) =~= samples@.subrange(
                    0,
                    i + 1,
                ));
            }
            let _ = self.accept(buffer, sample);
            i += 1;
        }
        assert(samples@.subrange(0, n as int) =~= samples@);
    }

    /// One UI frame: drains what the channel holds at the moment of the call,
    /// without ever waiting, and consumes it as `absorb` does. Returns what
    /// was drained, in order, for the consumers that run at full rate.
    ///
    /// Which samples come depends on the producer. Whatever comes, the
    /// history and the phase afterwards are those of having consumed exactly
    /// the samples returned.
    pub fn on_ui_frame(&mut self, buffer: &mut VisualizationRingBuffer<T>) -> (drained: Vec<T>)
        ensures
            final(self).consumed(old(self), drained@),
            final(buffer).limit() == old(buffer).limit(),
            final(buffer)@ == shown_after(
                old(buffer)@,
                old(buffer).limit(),
                drained@,
                old(self).decimator().factor(),
                old(self).decimator().phase(),
            ),
    {
        let ghost before = *self;
        let ghost factor = self.decimator.factor();
        let ghost phase = self.decimator.phase();
        let ghost history = buffer@;
        let ghost limit = buffer.limit();
        proof {
            use_type_invariant(&self.decimator);
            use_type_invariant(&*buffer);
            lemma_nothing_consumed(history, limit, factor, phase);
        }
        let mut drained: Vec<T> = Vec::new();
        let mut remaining: usize = channel_len(&self.consumer);
        while remaining > 0
            invariant
                factor >= 1,
                phase < factor,
                factor == before.decimator().factor(),
                phase == before.decimator().phase(),
                self.consumed(&before, drained@),
                buffer.limit() == limit,
                buffer@ == shown_after(history, limit, drained@, factor, phase),
            decreases remaining,
        {
            match channel_try_recv(&self.consumer) {
                Ok(sample) => {
                    proof {
                        lemma_shown_after_push(history, limit, drained@, sample, factor, phase);
                    }
                    let _ = self.accept(buffer, sample);
                    drained.push(sample);
                    remaining -= 1;
                },
                Err(_) => {
                    break ;
                },
            }
        }
        drained
    }

    /// Decides what an event of the host leads to. A `Play` command asks for
    /// an animation frame. An animation frame, while playing, runs
    /// `on_ui_frame` and asks for the next one; while stopped it does
    /// nothing. Every event asks for a repaint.
    pub fn event(
        &mut self,
        event: PlayerEvent,
        is_playing: bool,
        buffer: &mut VisualizationRingBuffer<T>,
    ) -> (outcome: EventOutcome<T>)
        ensures
            outcome.invalidate,
            outcome.request_anim_frame == (event == PlayerEvent::Play || (event
                == PlayerEvent::AnimFrame && is_playing)),
            !(event == PlayerEvent::AnimFrame && is_playing) ==> {
                &&& outcome.drained@ == Seq::<T>::empty()
                &&& *final(self) == *old(self)
                &&& *final(buffer) == *old(buffer)
            },
            final(self).consumed(old(self), outcome.drained@),
            final(buffer).limit() == old(buffer).limit(),
            final(buffer)@ == shown_after(
                old(buffer)@,
                old(buffer).limit(),
                outcome.drained@,
                old(self).decimator().factor(),
                old(self).decimator().phase(),
            ),
    {
        proof {
            use_type_invariant(&self.decimator);
            use_type_invariant(&*buffer);
            lemma_nothing_consumed(
                buffer@,
                buffer.limit(),
                self.decimator.factor(),
                self.decimator.phase(),
            );
        }
        match event {
            PlayerEvent::Play => EventOutcome {
                drained: Vec::new(),
                request_anim_frame: true,
                invalidate: true,
            },
            PlayerEvent::AnimFrame => {
                if is_playing {
                    let drained = self.on_ui_frame(buffer);
                    EventOutcome { drained, request_anim_frame: true, invalidate: true }
                } else {
                    EventOutcome {
                        drained: Vec::new(),
                        request_anim_frame: false,
                        invalidate: true,
                    }
                }
            },
            PlayerEvent::Other => EventOutcome {
                drained: Vec::new(),
                request_anim_frame: false,
                invalidate: true,
            },
        }
    }
}

} // verus!
