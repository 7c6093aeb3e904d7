//! Streaming utterance segmentation for a live microphone feed.
//!
//! Audio arrives in chunks of mono 16 kHz PCM samples. A bounded rolling
//! buffer with an energy-based voice-activity detector decides when a spoken
//! segment is complete; a session object keeps track of whether a recording
//! is running and which handles belong to it.
pub mod buffer;
pub mod engine;
pub mod error;
pub mod model;
pub mod processor;
pub mod provision;
pub mod session;

pub use buffer::AudioBuffer;
pub use error::SessionError;
pub use model::{ModelInfo, ModelType};
pub use processor::{AudioProcessor, TranscriptUpdate, TranscriptionEvent};
pub use session::{RecordingState, StartPlan};
