//! Transcoding of a decoded HDR still into a short PQ video clip.
//!
//! The library holds the decisions of the transcode: the layout of the
//! decoded pixel buffer, the pixel format it maps to, the colour filter and
//! argument list handed to the encoder, and the state machines that drive one
//! encoder run and the bounded retries of a whole transcode.
pub mod config;
pub mod encoder;
pub mod error;
pub mod filter;
pub mod format;
pub mod pixels;
pub mod retry;
pub mod session;

pub use config::EncodeConfig;
pub use encoder::{encoder_args, FRAMES};
pub use error::{ExitState, TranscodeError};
pub use filter::build_filter;
pub use format::{resolve_format, PixelFormat};
pub use pixels::{PixelPlanes, PixelPlanesView};
pub use retry::{Phase, Transcode, TranscodeView};
pub use session::{EncodeAction, EncodeEvent, EncodeSession};
