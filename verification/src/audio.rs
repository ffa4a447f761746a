//! Audio-pipeline inspection: deciding whether observed process activity
//! indicates realtime audio processing.
//!
//! The probe hands in one sample per running process (its name and its CPU
//! load); the detector flags when a known audio-processing application is
//! busy enough to be capturing or transforming sound.

use vstd::prelude::*;
use crate::text::{contains_ci, str_contains_ci};

verus! {

/// One process sample from the audio probe. `cpu_permille` is the process's
/// CPU load in per-mille of one core: 50 stands for 5%.
#[derive(Clone, Debug)]
pub struct AudioProcessSample {
    pub name: String,
    pub cpu_permille: u32,
}

/// CPU load, in per-mille of one core, above which an audio application
/// counts as actively processing.
pub const AUDIO_CPU_CUTOFF: u32 = 50;

/// The built-in list of audio-processing applications, matched
/// case-insensitively anywhere in the name.
pub open spec fn spec_audio_app(name: Seq<char>) -> bool {
    ||| contains_ci("cluely"@, name)
    ||| contains_ci("obs"@, name)
    ||| contains_ci("audacity"@, name)
    ||| contains_ci("zoom"@, name)
    ||| contains_ci("teams"@, name)
    ||| contains_ci("discord"@, name)
    ||| contains_ci("slack"@, name)
    ||| contains_ci("recorder"@, name)
    ||| contains_ci("capture"@, name)
}

/// A sample indicates realtime audio processing: a known audio application
/// under noticeable CPU load.
pub open spec fn spec_audio_active(s: AudioProcessSample) -> bool {
    s.cpu_permille > AUDIO_CPU_CUTOFF && spec_audio_app(s.name@)
}

/// Detects realtime audio processing from per-process samples.
pub struct AudioCaptureDetector;

impl AudioCaptureDetector {
    pub fn new() -> (r: AudioCaptureDetector)
        ensures
            true,
    {
        AudioCaptureDetector
    }

    /// Does the name match the built-in list of audio-processing
    /// applications?
    pub fn is_audio_processing_app(&self, name: &str) -> (r: bool)
        ensures
            r == spec_audio_app(name@),
    {
        str_contains_ci(name, "cluely") || str_contains_ci(name, "obs") || str_contains_ci(
            name,
            "audacity",
        ) || str_contains_ci(name, "zoom") || str_contains_ci(name, "teams") || str_contains_ci(
            name,
            "discord",
        ) || str_contains_ci(name, "slack") || str_contains_ci(name, "recorder")
            || str_contains_ci(name, "capture")
    }

    /// Is any sampled process a known audio application under noticeable CPU
    /// load?
    pub fn detect_realtime_audio_processing(&self, samples: &Vec<AudioProcessSample>) -> (r: bool)
        ensures
            r == exists|i: int| 0 <= i < samples@.len() && spec_audio_active(#[trigger] samples@[i]),
    {
        let mut i: usize = 0;
        while i < samples.len()
            invariant
                i <= samples@.len(),
                forall|t: int| 0 <= t < i ==> !spec_audio_active(#[trigger] samples@[t]),
            decreases samples@.len() - i,
        {
            if samples[i].cpu_permille > AUDIO_CPU_CUTOFF && self.is_audio_processing_app(
                samples[i].name.as_str(),
            ) {
                assert(spec_audio_active(samples@[i as int]));
                return true;
            }
            i += 1;
        }
        false
    }
}

} // verus!
