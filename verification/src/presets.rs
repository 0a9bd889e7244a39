pub mod autogain;
pub mod bass_enhancer;
pub mod common;
pub mod compressor;
pub mod convolver;
pub mod crossfeed;
pub mod crystalizer;
pub mod deesser;
pub mod delay;
pub mod equalizer;
pub mod equalizer_band;
pub mod equalizer_left;
pub mod equalizer_right;
pub mod exciter;
pub mod filter;
pub mod gate;
pub mod legacy;
pub mod limiter;
pub mod loudness;
pub mod manager;
pub mod maximizer;
pub mod multiband_compressor;
pub mod multiband_gate;
pub mod pitch;
pub mod reverb;
pub mod root;
pub mod spectrum;
pub mod stereo_tools;
pub mod webrtc;
