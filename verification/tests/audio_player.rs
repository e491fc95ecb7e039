use crossbeam_channel::{bounded, Sender};
use druidaw::audio_player::{AudioPlayer, PlayerEvent, PLAY_COMMAND};
use druidaw::decimation::Decimator;
use druidaw::handoff::HandoffCell;
use druidaw::ring_buffer::VisualizationRingBuffer;

fn player_on(capacity: usize, factor: usize) -> (Sender<f64>, AudioPlayer<f64>) {
    let (producer, consumer) = bounded::<f64>(capacity);
    let mut cell = HandoffCell::new(consumer);
    let decimator = Decimator::new(factor).unwrap();
    (producer, AudioPlayer::with_decimator(&mut cell, decimator).unwrap())
}

#[test]
fn frame_drains_all_that_is_queued() {
    let (producer, mut player) = player_on(8, 1);
    let mut buffer = VisualizationRingBuffer::new(16);
    for sample in [0.1, 0.2, 0.3, 0.4, 0.5] {
        producer.send(sample).unwrap();
    }
    assert_eq!(player.on_ui_frame(&mut buffer), vec![0.1, 0.2, 0.3, 0.4, 0.5]);
    assert!(producer.is_empty());
    assert_eq!(buffer.snapshot(), vec![0.1, 0.2, 0.3, 0.4, 0.5]);
}

#[test]
fn frame_on_an_empty_channel_changes_nothing() {
    let (_producer, mut player) = player_on(8, 1);
    let mut buffer = VisualizationRingBuffer::new(16);
    buffer.push(0.9);
    assert_eq!(player.on_ui_frame(&mut buffer), Vec::<f64>::new());
    assert_eq!(buffer.snapshot(), vec![0.9]);
}

#[test]
fn frame_on_a_closed_channel_drains_the_rest_and_stops() {
    let (producer, mut player) = player_on(8, 1);
    let mut buffer = VisualizationRingBuffer::new(16);
    producer.send(0.5).unwrap();
    drop(producer);
    assert_eq!(player.on_ui_frame(&mut buffer), vec![0.5]);
    assert_eq!(player.on_ui_frame(&mut buffer), Vec::<f64>::new());
    assert_eq!(buffer.snapshot(), vec![0.5]);
}

#[test]
fn end_to_end_five_samples_into_three_slots() {
    let (producer, mut player) = player_on(8, 1);
    let mut buffer = VisualizationRingBuffer::new(3);
    for sample in [1.0, -1.0, 0.5, -0.5, 0.0] {
        producer.send(sample).unwrap();
    }
    let drained = player.on_ui_frame(&mut buffer);
    assert_eq!(drained, vec![1.0, -1.0, 0.5, -0.5, 0.0]);
    assert_eq!(buffer.snapshot(), vec![0.5, -0.5, 0.0]);
}

#[test]
fn decimation_continues_across_frames() {
    let (producer, mut player) = player_on(8, 2);
    let mut buffer = VisualizationRingBuffer::new(16);
    for sample in [1.0, 2.0, 3.0] {
        producer.send(sample).unwrap();
    }
    assert_eq!(player.on_ui_frame(&mut buffer).len(), 3);
    assert_eq!(buffer.snapshot(), vec![2.0]);
    for sample in [4.0, 5.0, 6.0] {
        producer.send(sample).unwrap();
    }
    assert_eq!(player.on_ui_frame(&mut buffer).len(), 3);
    assert_eq!(buffer.snapshot(), vec![2.0, 4.0, 6.0]);
}

#[test]
fn standard_player_keeps_one_in_128() {
    let (producer, consumer) = bounded::<f64>(4800);
    let mut cell = HandoffCell::new(consumer);
    let mut player = AudioPlayer::new(&mut cell).unwrap();
    let mut buffer = VisualizationRingBuffer::new(8192);
    for i in 0..4800 {
        producer.send(i as f64).unwrap();
    }
    assert_eq!(player.on_ui_frame(&mut buffer).len(), 4800);
    assert_eq!(buffer.len(), 37);
    assert_eq!(buffer.get(0), Some(&127.0));
    assert_eq!(buffer.get(36), Some(&4735.0));
}

#[test]
fn play_command_asks_for_an_animation_frame() {
    assert_eq!(PLAY_COMMAND, "PLAY");
    let (producer, mut player) = player_on(8, 1);
    let mut buffer = VisualizationRingBuffer::new(4);
    producer.send(0.5).unwrap();
    let outcome = player.event(PlayerEvent::Play, true, &mut buffer);
    assert!(outcome.request_anim_frame);
    assert!(outcome.invalidate);
    assert!(outcome.drained.is_empty());
    assert_eq!(producer.len(), 1);
    assert!(buffer.is_empty());
}

#[test]
fn animation_frame_while_playing_drains_and_asks_for_the_next() {
    let (producer, mut player) = player_on(8, 1);
    let mut buffer = VisualizationRingBuffer::new(4);
    producer.send(0.5).unwrap();
    producer.send(0.25).unwrap();
    let outcome = player.event(PlayerEvent::AnimFrame, true, &mut buffer);
    assert!(outcome.request_anim_frame);
    assert!(outcome.invalidate);
    assert_eq!(outcome.drained, vec![0.5, 0.25]);
    assert_eq!(buffer.snapshot(), vec![0.5, 0.25]);
}

#[test]
fn animation_frame_while_stopped_does_nothing() {
    let (producer, mut player) = player_on(8, 1);
    let mut buffer = VisualizationRingBuffer::new(4);
    producer.send(0.5).unwrap();
    let outcome = player.event(PlayerEvent::AnimFrame, false, &mut buffer);
    assert!(!outcome.request_anim_frame);
    assert!(outcome.invalidate);
    assert!(outcome.drained.is_empty());
    assert_eq!(producer.len(), 1);
    assert!(buffer.is_empty());
}

#[test]
fn other_events_only_repaint() {
    let (producer, mut player) = player_on(8, 1);
    let mut buffer = VisualizationRingBuffer::new(4);
    producer.send(0.5).unwrap();
    for is_playing in [false, true] {
        let outcome = player.event(PlayerEvent::Other, is_playing, &mut buffer);
        assert!(!outcome.request_anim_frame);
        assert!(outcome.invalidate);
        assert!(outcome.drained.is_empty());
    }
    assert_eq!(producer.len(), 1);
}
