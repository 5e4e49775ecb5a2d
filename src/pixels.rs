use vstd::prelude::*;

use crate::error::TranscodeError;

verus! {

/// A decoded planar image: four channels (green, blue, red, alpha) of
/// `cbytes` bytes each for every pixel, with no padding.
pub struct PixelPlanes {
    width: i32,
    height: i32,
    cbytes: usize,
    data: Vec<u8>,
}

/// The mathematical content of a `PixelPlanes`.
pub struct PixelPlanesView {
    pub width: int,
    pub height: int,
    pub cbytes: nat,
    pub data: Seq<u8>,
}

/// The byte length of a buffer of the given geometry.
pub open spec fn layout_len(width: int, height: int, cbytes: nat) -> int {
    cbytes * width * height * 4
}

/// Whether a buffer of `len` bytes fits the given geometry.
pub open spec fn layout_fits(width: int, height: int, cbytes: nat, len: nat) -> bool {
    &&& width > 0
    &&& height > 0
    &&& len == layout_len(width, height, cbytes)
}

impl View for PixelPlanes {
    type V = PixelPlanesView;

    closed spec fn view(&self) -> PixelPlanesView {
        PixelPlanesView {
            width: self.width as int,
            height: self.height as int,
            cbytes: self.cbytes as nat,
            data: self.data@,
        }
    }
}

impl PixelPlanes {
    #[verifier::type_invariant]
    spec fn layout_holds(self) -> bool {
        layout_fits(self.width as int, self.height as int, self.cbytes as nat, self.data@.len())
    }

    /// Takes over what the decoder returned: its status, the geometry and the
    /// buffer. A non-zero status is a decode failure; a buffer that does not
    /// fit the geometry is refused.
    pub fn from_decoded(status: i64, width: i32, height: i32, cbytes: usize, data: Vec<u8>) -> (r:
        Result<PixelPlanes, TranscodeError>)
        ensures
            status != 0 ==> r == Err::<PixelPlanes, TranscodeError>(
                TranscodeError::DecodeError { code: status },
            ),
            status == 0 && !layout_fits(width as int, height as int, cbytes as nat, data@.len())
                ==> r == Err::<PixelPlanes, TranscodeError>(
                TranscodeError::BufferLayoutError { len: data@.len() as usize },
            ),
            status == 0 && layout_fits(width as int, height as int, cbytes as nat, data@.len())
                ==> (r matches Ok(p) && p@ == (PixelPlanesView {
                width: width as int,
                height: height as int,
                cbytes: cbytes as nat,
                data: data@,
            })),
    {
        if status != 0 {
            return Err(TranscodeError::DecodeError { code: status });
        }
        let len = data.len();
        if width <= 0 || height <= 0 {
            return Err(TranscodeError::BufferLayoutError { len });
        }
        let w = width as usize;
        let h = height as usize;
        let fits = match cbytes.checked_mul(w) {
            Some(a) => match a.checked_mul(h) {
                Some(b) => match b.checked_mul(4) {
                    Some(c) => c == len,
                    None => false,
                },
                None => false,
            },
            None => false,
        };
        proof {
            assert(cbytes * w * h * 4 == layout_len(width as int, height as int, cbytes as nat))
                by (nonlinear_arith)
                requires
                    w == width,
                    h == height,
            ;
            assert(cbytes * w * h >= cbytes * w) by (nonlinear_arith)
                requires
                    h >= 1,
                    cbytes * w >= 0,
            ;
            assert(cbytes * w >= 0) by (nonlinear_arith);
        }
        if !fits {
            return Err(TranscodeError::BufferLayoutError { len });
        }
        Ok(PixelPlanes { width, height, cbytes, data })
    }

    pub fn width(&self) -> (r: i32)
        ensures
            r as int == self@.width,
            layout_fits(self@.width, self@.height, self@.cbytes, self@.data.len()),
    {
        proof {
            use_type_invariant(self);
        }
        self.width
    }

    pub fn height(&self) -> (r: i32)
        ensures
            r as int == self@.height,
            layout_fits(self@.width, self@.height, self@.cbytes, self@.data.len()),
    {
        proof {
            use_type_invariant(self);
        }
        self.height
    }

    /// Bytes per channel sample.
    pub fn cbytes(&self) -> (r: usize)
        ensures
            r as nat == self@.cbytes,
            layout_fits(self@.width, self@.height, self@.cbytes, self@.data.len()),
    {
        proof {
            use_type_invariant(self);
        }
        self.cbytes
    }

    /// The number of bytes in the buffer: at every point of its life exactly
    /// `cbytes * width * height * 4`, for a positive width and height.
    pub fn len(&self) -> (r: usize)
        ensures
            r as nat == self@.data.len(),
            layout_fits(self@.width, self@.height, self@.cbytes, self@.data.len()),
    {
        proof {
            use_type_invariant(self);
        }
        self.data.len()
    }

    /// The raw frame bytes.
    pub fn data(&self) -> (r: &[u8])
        ensures
            r@ == self@.data,
            layout_fits(self@.width, self@.height, self@.cbytes, self@.data.len()),
    {
        proof {
            use_type_invariant(self);
        }
        self.data.as_slice()
    }
}

} // verus!
