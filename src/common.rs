use vstd::prelude::*;

verus! {

/// The kind of a failure reported by this library.
#[derive(Debug, Clone, Copy, PartialEq, Eq, Structural)]
pub enum ErrCode {
    FileNotExist,
    InvalidUtf8,
    LoadFailed,
    WriteFailed,
    ResizeFailed,
}

/// A failure: its kind and a message for people.
#[derive(Debug, Clone)]
pub struct STBErr {
    pub code: ErrCode,
    pub msg: String,
}

impl STBErr {
    /// An error of kind `code` with message `msg`.
    pub fn new(code: ErrCode, msg: String) -> (r: Self)
        ensures
            r.code == code,
            r.msg@ == msg@,
    {
        STBErr { code, msg }
    }
}

/// Builds an error from a kind and a fixed message.
pub(crate) fn fail(code: ErrCode, msg: &str) -> (r: STBErr)
    ensures
        r.code == code,
        r.msg@ == msg@,
{
    STBErr { code, msg: msg.to_owned() }
}

/// The largest value of the native layer's `int` parameters.
pub const NATIVE_INT_MAX: usize = 0x7fff_ffff;

/// Geometry of a packed pixel buffer.
#[derive(Debug, Clone, Copy, PartialEq, Eq, Structural)]
pub struct ImageInfo {
    pub width: usize,
    pub height: usize,
    pub components: usize,
}

impl ImageInfo {
    /// Number of samples a buffer of this geometry holds.
    pub open spec fn spec_len(self) -> int {
        self.width * self.height * self.components
    }

    /// Number of samples between the starts of two rows.
    pub open spec fn spec_stride(self) -> int {
        self.width * self.components
    }

    /// The sample count can be held in a `usize`.
    pub open spec fn fits(self) -> bool {
        self.spec_len() <= usize::MAX
    }

    /// Width, height, component count and row stride can all be passed
    /// to the native layer as non-negative `int`s.
    pub open spec fn fits_native(self) -> bool {
        &&& self.width <= NATIVE_INT_MAX
        &&& self.height <= NATIVE_INT_MAX
        &&& self.components <= NATIVE_INT_MAX
        &&& self.spec_stride() <= NATIVE_INT_MAX
    }

    /// A geometry given by the caller.
    pub fn new(width: usize, height: usize, components: usize) -> (r: Self)
        ensures
            r.width == width,
            r.height == height,
            r.components == components,
    {
        ImageInfo { width, height, components }
    }

    /// Number of samples a buffer of this geometry holds, or `None` where
    /// that number does not fit in a `usize`.
    pub fn sample_count(&self) -> (r: Option<usize>)
        ensures
            r is Some <==> self.fits(),
            r matches Some(n) ==> n == self.spec_len(),
    {
        if self.components == 0 {
            assert(self.spec_len() == 0) by (nonlinear_arith)
                requires
                    self.components == 0,
            ;
            return Some(0);
        }
        match self.width.checked_mul(self.height) {
            None => {
                assert(self.width * self.height * self.components > usize::MAX) by (nonlinear_arith)
                    requires
                        self.width * self.height > usize::MAX,
                        self.components >= 1,
                ;
                None
            },
            Some(area) => area.checked_mul(self.components),
        }
    }
}

/// Checks that a geometry fits the native `int` parameters, and gives its
/// row stride.
pub(crate) fn native_stride(info: ImageInfo) -> (r: Option<usize>)
    ensures
        r is Some <==> info.fits_native(),
        r matches Some(s) ==> s == info.spec_stride(),
{
    if info.width > NATIVE_INT_MAX || info.height > NATIVE_INT_MAX || info.components
        > NATIVE_INT_MAX {
        return None;
    }
    match info.width.checked_mul(info.components) {
        Some(s) => if s <= NATIVE_INT_MAX {
            Some(s)
        } else {
            None
        },
        None => None,
    }
}

/// An owned, packed pixel buffer and its geometry.
#[derive(Debug)]
pub struct Image<T> {
    pub info: ImageInfo,
    pub buffer: Vec<T>,
}

impl<T> Image<T> {
    /// The buffer holds exactly `width * height * components` samples.
    pub open spec fn wf(&self) -> bool {
        self.buffer@.len() == self.info.spec_len()
    }

    /// Wraps an owned buffer, without copying, as an image of the given
    /// geometry.
    pub fn build(data: Vec<T>, w: usize, h: usize, c: usize) -> (r: Self)
        requires
            data@.len() == w * h * c,
        ensures
            r.info == (ImageInfo { width: w, height: h, components: c }),
            r.buffer@ == data@,
            r.wf(),
    {
        let info = ImageInfo::new(w, h, c);
        Image { info, buffer: data }
    }
}

} // verus!
