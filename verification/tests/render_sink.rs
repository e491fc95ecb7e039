use crossbeam_channel::bounded;
use druidaw::channel::ReceiveError;
use druidaw::handoff::HandoffCell;
use druidaw::render_sink::RealtimeRenderSink;

fn sink_on(capacity: usize) -> (crossbeam_channel::Sender<f64>, RealtimeRenderSink<f64>) {
    let (producer, consumer) = bounded::<f64>(capacity);
    let mut cell = HandoffCell::new(consumer);
    (producer, RealtimeRenderSink::new(&mut cell, 0.0).unwrap())
}

#[test]
fn emit_passes_a_received_sample_on() {
    let (_producer, sink) = sink_on(1);
    let frame = sink.emit(Ok(0.75));
    assert_eq!(frame.sample, 0.75);
    assert!(!frame.underrun);
}

#[test]
fn emit_gives_silence_for_an_empty_channel() {
    let (_producer, sink) = sink_on(1);
    let frame = sink.emit(Err(ReceiveError::Empty));
    assert_eq!(frame.sample, 0.0);
    assert!(frame.underrun);
}

#[test]
fn emit_gives_silence_for_a_closed_channel() {
    let (_producer, sink) = sink_on(1);
    let frame = sink.emit(Err(ReceiveError::Closed));
    assert_eq!(frame.sample, 0.0);
    assert!(frame.underrun);
}

#[test]
fn empty_channel_renders_silence_for_every_frame() {
    let (_producer, sink) = sink_on(16);
    for _ in 0..1000 {
        let frame = sink.next_frame();
        assert_eq!(frame.sample, 0.0);
        assert!(frame.underrun);
    }
    let mut frames = vec![0.5; 256];
    assert_eq!(sink.on_render_frame(&mut frames), 256);
    assert_eq!(frames, vec![0.0; 256]);
}

#[test]
fn closed_channel_renders_silence() {
    let (producer, sink) = sink_on(16);
    drop(producer);
    let mut frames = vec![0.5; 8];
    assert_eq!(sink.on_render_frame(&mut frames), 8);
    assert_eq!(frames, vec![0.0; 8]);
}

#[test]
fn queued_samples_come_out_in_order_then_silence() {
    let (producer, sink) = sink_on(16);
    for sample in [0.1, -0.2, 0.3] {
        producer.send(sample).unwrap();
    }
    let mut frames = vec![9.0; 5];
    assert_eq!(sink.on_render_frame(&mut frames), 2);
    assert_eq!(frames, vec![0.1, -0.2, 0.3, 0.0, 0.0]);
}

#[test]
fn next_frame_takes_one_sample_per_frame() {
    let (producer, sink) = sink_on(16);
    producer.send(0.5).unwrap();
    producer.send(0.25).unwrap();
    let first = sink.next_frame();
    assert_eq!((first.sample, first.underrun), (0.5, false));
    assert_eq!(producer.len(), 1);
    let second = sink.next_frame();
    assert_eq!((second.sample, second.underrun), (0.25, false));
    let third = sink.next_frame();
    assert_eq!((third.sample, third.underrun), (0.0, true));
}

#[test]
fn silence_is_what_the_sink_was_made_with() {
    let (_producer, consumer) = bounded::<i16>(4);
    let mut cell = HandoffCell::new(consumer);
    let sink = RealtimeRenderSink::new(&mut cell, -1).unwrap();
    assert_eq!(sink.next_frame().sample, -1);
}

#[test]
fn an_empty_frame_buffer_has_no_underruns() {
    let (_producer, sink) = sink_on(4);
    let mut frames: Vec<f64> = Vec::new();
    assert_eq!(sink.on_render_frame(&mut frames), 0);
}
