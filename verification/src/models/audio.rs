//! What speech synthesis hands back.

use vstd::prelude::*;

verus! {

/// A length of time: whole seconds and the nanoseconds beyond them.
#[derive(Clone, Copy, Debug, PartialEq, Eq, Structural)]
pub struct AudioDuration {
    pub secs: u64,
    pub nanos: u32,
}

impl AudioDuration {
    /// The nanoseconds stay below one second.
    pub open spec fn wf(&self) -> bool {
        self.nanos < 1_000_000_000
    }

    /// No time at all.
    pub fn zero() -> (d: AudioDuration)
        ensures
            d == (AudioDuration { secs: 0, nanos: 0 }),
            d.wf(),
    {
        AudioDuration { secs: 0, nanos: 0 }
    }
}

/// The outcome of one synthesis: where the audio file lies and how long it
/// plays. An empty path means that no audio was produced.
#[derive(Clone, Debug, PartialEq, Eq)]
pub struct SynthesisResult {
    pub audio_path: String,
    pub duration: AudioDuration,
}

/// What a `SynthesisResult` stands for.
pub ghost struct SynthesisResultView {
    pub audio_path: Seq<char>,
    pub duration: AudioDuration,
}

impl View for SynthesisResult {
    type V = SynthesisResultView;

    open spec fn view(&self) -> SynthesisResultView {
        SynthesisResultView { audio_path: self.audio_path@, duration: self.duration }
    }
}

impl SynthesisResultView {
    /// Whether audio was produced.
    pub open spec fn produced(&self) -> bool {
        self.audio_path.len() > 0
    }
}

/// The result that stands for "no audio": an empty path and no time.
pub open spec fn no_audio() -> SynthesisResultView {
    SynthesisResultView {
        audio_path: Seq::empty(),
        duration: AudioDuration { secs: 0, nanos: 0 },
    }
}

} // verus!
