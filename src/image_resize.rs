use vstd::prelude::*;

use crate::common::{fail, native_stride, ErrCode, Image, ImageInfo, STBErr};
use crate::image::decoded_info;

verus! {

/// Geometry of `src` resampled to `width` × `height`: the component count
/// is kept.
pub open spec fn resized_info(src: ImageInfo, width: usize, height: usize) -> ImageInfo {
    ImageInfo { width, height, components: src.components }
}

/// Both geometries can be passed to the native resampler, and the
/// destination's sample count fits in a `usize`.
pub open spec fn resize_fits(src: ImageInfo, width: usize, height: usize) -> bool {
    &&& src.fits_native()
    &&& resized_info(src, width, height).fits_native()
    &&& resized_info(src, width, height).fits()
}

/// What a native resize call is handed: both geometries with their packed
/// strides, and a zeroed destination buffer that the call fills.
#[derive(Debug)]
pub struct ResizePlan {
    pub src_width: i32,
    pub src_height: i32,
    pub src_stride: i32,
    pub dst_width: i32,
    pub dst_height: i32,
    pub dst_stride: i32,
    pub components: i32,
    pub dst_info: ImageInfo,
    pub buffer: Vec<u8>,
}

impl ResizePlan {
    /// The destination buffer holds exactly the destination's samples.
    pub open spec fn wf(&self) -> bool {
        self.buffer@.len() == self.dst_info.spec_len()
    }
}

/// Prepares a resize of `src` to `dst_w` × `dst_h`: allocates the zeroed
/// destination buffer of `dst_w * dst_h * components` samples and works out
/// both packed strides.
pub fn resize_plan(src: &Image<u8>, dst_w: usize, dst_h: usize) -> (r: Result<ResizePlan, STBErr>)
    requires
        src.wf(),
        dst_w > 0,
        dst_h > 0,
    ensures
        r is Ok <==> resize_fits(src.info, dst_w, dst_h),
        r matches Err(e) ==> e.code == ErrCode::ResizeFailed,
        r matches Ok(plan) ==> {
            &&& plan.wf()
            &&& plan.dst_info == resized_info(src.info, dst_w, dst_h)
            &&& forall|i: int| 0 <= i < plan.buffer@.len() ==> plan.buffer@[i] == 0
            &&& plan.src_width == src.info.width
            &&& plan.src_height == src.info.height
            &&& plan.src_stride == src.info.spec_stride()
            &&& plan.dst_width == dst_w
            &&& plan.dst_height == dst_h
            &&& plan.dst_stride == dst_w * src.info.components
            &&& plan.components == src.info.components
        },
{
    let src_info = src.info;
    let dst_info = ImageInfo::new(dst_w, dst_h, src_info.components);
    let src_stride = match native_stride(src_info) {
        Some(s) => s,
        None => {
            return Err(fail(ErrCode::ResizeFailed, "source image is too large to resize"));
        },
    };
    let dst_stride = match native_stride(dst_info) {
        Some(s) => s,
        None => {
            return Err(fail(ErrCode::ResizeFailed, "target size is too large"));
        },
    };
    let size = match dst_info.sample_count() {
        Some(n) => n,
        None => {
            return Err(fail(ErrCode::ResizeFailed, "target size is too large"));
        },
    };
    let buffer = vec![0u8; size];
    Ok(
        ResizePlan {
            src_width: src_info.width as i32,
            src_height: src_info.height as i32,
            src_stride: src_stride as i32,
            dst_width: dst_w as i32,
            dst_height: dst_h as i32,
            dst_stride: dst_stride as i32,
            components: src_info.components as i32,
            dst_info,
            buffer,
        },
    )
}

/// Maps the native resampler's return code: on 1 the filled destination
/// buffer becomes the new image, without a copy; on anything else it is
/// dropped and the resize fails.
pub fn finish_resize(plan: ResizePlan, code: i32) -> (r: Result<Image<u8>, STBErr>)
    requires
        plan.wf(),
    ensures
        r is Ok <==> code == 1,
        r matches Ok(image) ==> image.info == plan.dst_info && image.buffer@ == plan.buffer@
            && image.wf(),
        r matches Err(e) ==> e.code == ErrCode::ResizeFailed && e.msg@ == "resize failed"@,
{
    if code == 1 {
        Ok(Image { info: plan.dst_info, buffer: plan.buffer })
    } else {
        Err(fail(ErrCode::ResizeFailed, "resize failed"))
    }
}

/// Resizing an image to its own width and height leaves its geometry as it
/// was: the resize can be planned exactly when the source geometry fits the
/// native call, and the image it yields has the source's info and a buffer
/// of the source's length.
pub proof fn lemma_resize_same_size_keeps_geometry(src: &Image<u8>)
    requires
        src.wf(),
    ensures
        resize_fits(src.info, src.info.width, src.info.height) <==> src.info.fits_native(),
        resized_info(src.info, src.info.width, src.info.height) == src.info,
        resized_info(src.info, src.info.width, src.info.height).spec_len() == src.buffer@.len(),
{
    assert(src.buffer@.len() == src.buffer.len());
}

/// An image decoded with a requested component count `c`, then resized to
/// `w1` × `h1` and that result to `w2` × `h2`, keeps `c` components at every
/// stage, and each stage holds width × height × `c` samples.
pub proof fn lemma_decode_resize_chain_keeps_components(
    width: i32,
    height: i32,
    native: i32,
    c: i32,
    w1: usize,
    h1: usize,
    w2: usize,
    h2: usize,
)
    requires
        c == 1 || c == 3 || c == 4,
    ensures
        ({
            let decoded = decoded_info(width, height, native, c);
            let first = resized_info(decoded, w1, h1);
            let second = resized_info(first, w2, h2);
            &&& decoded.components == c
            &&& first.components == c
            &&& first.spec_len() == w1 * h1 * c
            &&& second.components == c
            &&& second.spec_len() == w2 * h2 * c
        }),
{
}

} // verus!
