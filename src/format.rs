use vstd::prelude::*;

use crate::error::TranscodeError;

verus! {

/// The raw pixel formats that the encoder reads the buffer as.
#[derive(Debug, Clone, Copy, PartialEq, Eq, Structural)]
pub enum PixelFormat {
    /// Planar GBRA, 16-bit half floats, little endian.
    Gbrapf16le,
    /// Planar GBRA, 32-bit floats, little endian.
    Gbrapf32le,
}

/// The pixel format of a buffer with `cbytes` bytes per sample, if any.
pub open spec fn format_for(cbytes: nat) -> Option<PixelFormat> {
    if cbytes == 2 {
        Some(PixelFormat::Gbrapf16le)
    } else if cbytes == 4 {
        Some(PixelFormat::Gbrapf32le)
    } else {
        None
    }
}

/// What `resolve_format` returns for `cbytes`.
pub open spec fn resolved(cbytes: usize) -> Result<PixelFormat, TranscodeError> {
    match format_for(cbytes as nat) {
        Some(f) => Ok(f),
        None => Err(TranscodeError::UnsupportedFormatError { cbytes }),
    }
}

impl PixelFormat {
    /// The encoder's name for the format.
    pub open spec fn tag_spec(self) -> Seq<char> {
        match self {
            PixelFormat::Gbrapf16le => "gbrapf16le"@,
            PixelFormat::Gbrapf32le => "gbrapf32le"@,
        }
    }

    pub fn tag(&self) -> (r: &'static str)
        ensures
            r@ == self.tag_spec(),
    {
        match self {
            PixelFormat::Gbrapf16le => "gbrapf16le",
            PixelFormat::Gbrapf32le => "gbrapf32le",
        }
    }
}

/// Maps the channel byte width to its pixel format: 2 bytes to half floats,
/// 4 bytes to floats; any other width is unsupported.
pub fn resolve_format(cbytes: usize) -> (r: Result<PixelFormat, TranscodeError>)
    ensures
        r == resolved(cbytes),
{
    match cbytes {
        2 => Ok(PixelFormat::Gbrapf16le),
        4 => Ok(PixelFormat::Gbrapf32le),
        _ => Err(TranscodeError::UnsupportedFormatError { cbytes }),
    }
}

/// Every width has its format or is refused: 2 and 4 give their fixed
/// formats, and every other width is an unsupported format.
pub proof fn lemma_format_total(cbytes: usize)
    ensures
        cbytes == 2 ==> resolved(cbytes) == Ok::<PixelFormat, TranscodeError>(
            PixelFormat::Gbrapf16le,
        ),
        cbytes == 4 ==> resolved(cbytes) == Ok::<PixelFormat, TranscodeError>(
            PixelFormat::Gbrapf32le,
        ),
        cbytes != 2 && cbytes != 4 ==> resolved(cbytes) == Err::<PixelFormat, TranscodeError>(
            TranscodeError::UnsupportedFormatError { cbytes },
        ),
{
}

} // verus!
