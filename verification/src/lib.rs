//! Sample distribution between a decoding thread, a hard-real-time render
//! callback and a UI-rate visualisation, with the rules of each step stated
//! as contracts and proved.
//!
//! A [`fanout::FanoutDistributor`] sends every sample of the source into one
//! bounded channel per consumer. A [`render_sink::RealtimeRenderSink`] takes
//! one sample per output frame and plays silence where there is none. An
//! [`audio_player::AudioPlayer`] drains its channel once per UI frame,
//! decimates what it got and keeps the newest of it in a
//! [`ring_buffer::VisualizationRingBuffer`], which an
//! [`oscilloscope::Oscilloscope`] turns into strokes. Each consumer gets its
//! channel endpoint through a [`handoff::HandoffCell`], once.

pub mod audio_player;
pub mod channel;
pub mod decimation;
pub mod fanout;
pub mod handoff;
pub mod history;
pub mod oscilloscope;
pub mod playback;
pub mod render_sink;
pub mod ring_buffer;
