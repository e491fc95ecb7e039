//! The waveform display: which strokes make up the picture of a history.
//! Scaling a stroke to pixels is the renderer's part.

use crate::ring_buffer::VisualizationRingBuffer;
use vstd::prelude::*;

verus! {

/// One stroke of the waveform: at the column of the sample at `index`, from
/// the level of the sample before it to its own level.
#[derive(Debug)]
pub struct Stroke<T> {
    /// The place of the later sample in the history, which decides the
    /// column: the history spans the whole width of the display.
    pub index: usize,
    /// The sample before.
    pub from: T,
    /// The sample at `index`.
    pub to: T,
}

/// The stroke that ends at the sample at `index >= 1` of `history`.
pub open spec fn stroke_to<T>(history: Seq<T>, index: int) -> Stroke<T> {
    Stroke { index: index as usize, from: history[index - 1], to: history[index] }
}

/// Draws a history of samples as a chain of strokes.
#[derive(Clone, Copy, Debug)]
pub struct Oscilloscope {}

impl Oscilloscope {
    /// A display. It holds no state: the history lives in the buffer.
    pub fn new() -> (scope: Self)
        ensures
            scope == (Oscilloscope {  }),
    {
        Oscilloscope {  }
    }

    /// The strokes for `history`, from the oldest sample on: one for every
    /// sample but the first, each from its predecessor. A history of fewer
    /// than two samples has none.
    pub fn strokes<T: Copy>(&self, history: &VisualizationRingBuffer<T>) -> (strokes: Vec<
        Stroke<T>,
    >)
        ensures
            strokes@.len() == if history@.len() == 0 {
                0
            } else {
                history@.len() - 1
            },
            forall|j: int|
                0 <= j < strokes@.len() ==> #[trigger] strokes@[j] == stroke_to(history@, j + 1),
    {
        let samples = history.snapshot();
        let n: usize = samples.len();
        let mut strokes: Vec<Stroke<T>> = Vec::new();
        if n == 0 {
            return strokes;
        }
        let mut prev: T = samples[0];
        let mut index: usize = 1;
        while index < n
            invariant
                n == samples@.len(),
                samples@ == history@,
                1 <= index <= n,
                prev == samples@[index - 1],
                strokes@.len() == index - 1,
                forall|j: int|
                    0 <= j < strokes@.len() ==> #[trigger] strokes@[j] == stroke_to(
                        history@,
                        j + 1,
                    ),
            decreases n - index,
        {
            let current: T = samples[index];
            strokes.push(Stroke { index, from: prev, to: current });
            prev = current;
            index += 1;
        }
        strokes
    }
}

} // verus!
