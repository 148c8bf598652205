//! A system-audio capture core: platform backends deliver native audio
//! buffers in whatever shape their OS produces; this crate normalizes them
//! into one canonical interleaved sample stream, runs the capture lifecycle
//! (single active session, cooperative stop, timeout guard), quantizes the
//! finished stream to 16-bit integer samples, serializes it into the
//! canonical uncompressed audio container, and hands it back as standard
//! base64 text.  Every decision and every byte of the container is stated in
//! the contracts; the two outside calls (the container writer and the base64
//! engine) are held to byte-exact specifications.

pub mod normalize;
pub mod sample;
pub mod session;
pub mod transport;
pub mod wav;

pub use session::{
    is_supported, start_capture, stop_capture, AudioCaptureState, BackendKind, CaptureError,
    StartAction, StartEvent,
};
pub use normalize::{extract_audio_samples, packet_samples};
pub use wav::samples_to_wav;
