//! Audio capture settings. Capture itself (the microphone stream) is done
//! by the caller.

use vstd::prelude::*;

verus! {

/// Audio capture configuration.
#[derive(Debug, Clone, Copy, PartialEq, Eq, Structural)]
pub struct AudioConfig {
    pub sample_rate: u32,
    pub channels: u16,
    pub buffer_size: usize,
}

impl Default for AudioConfig {
    /// 16 kHz mono, 4096-sample buffers.
    fn default() -> (r: Self)
        ensures
            r == (AudioConfig { sample_rate: 16000, channels: 1, buffer_size: 4096 }),
    {
        AudioConfig { sample_rate: 16000, channels: 1, buffer_size: 4096 }
    }
}

} // verus!
