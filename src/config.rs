use vstd::prelude::*;

verus! {

/// The settings of an encode, read once and shared by every file of a batch.
pub struct EncodeConfig {
    /// Reattempts after the first attempt.
    pub retry: usize,
    /// Duration divisor: the clip's frame rate is `frames / seconds`.
    pub seconds: i32,
    /// Whether the encoder's diagnostics are shown.
    pub verbose: bool,
    /// Output width; with `out_h`, resize only when both are positive.
    pub out_w: i32,
    /// Output height; with `out_w`, resize only when both are positive.
    pub out_h: i32,
    /// Peak luminance in nits; only a positive value is passed on.
    pub npl: i32,
    /// Pixel format of the encoded video.
    pub pix_fmt: String,
    /// Codec of the encoded video.
    pub codec: String,
    /// Encoder arguments passed on verbatim, in order.
    pub extra_opts: Vec<String>,
}

} // verus!
