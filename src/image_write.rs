use vstd::prelude::*;

use crate::common::{fail, native_stride, ErrCode, Image, STBErr};
use crate::image::{check_path, native_path, path_error, path_error_msg};

verus! {

/// A file format the native encoder writes; JPEG carries its quality
/// (1 to 100).
#[derive(Debug, Clone, Copy, PartialEq, Eq, Structural)]
pub enum WriteFormat {
    Png,
    Jpg(i32),
    Bmp,
    Tga,
}

/// What a native encode call is handed besides the image's samples: the
/// format (with the JPEG quality), the nul-terminated path, the geometry,
/// and the packed row stride.
#[derive(Debug)]
pub struct WriteRequest {
    pub format: WriteFormat,
    pub path: Vec<u8>,
    pub width: i32,
    pub height: i32,
    pub components: i32,
    pub stride: i32,
}

/// Prepares a native encode of `image` to `path` (`None` where the path is
/// not valid UTF-8) in `format`: checks the path, then that the buffer holds exactly
/// `width * height * components` samples and that the geometry fits the
/// native layer's `int` parameters.
pub fn write_request(path: Option<&str>, image: &Image<u8>, format: WriteFormat) -> (r: Result<
    WriteRequest,
    STBErr,
>)
    ensures
        path_error(path) is Some ==> r is Err && Some(r->Err_0.code) == path_error(path)
            && r->Err_0.msg@ == path_error_msg(path),
        path_error(path) is None ==> (r is Ok <==> image.wf() && image.info.fits_native()),
        path_error(path) is None && r is Err ==> r->Err_0.code == ErrCode::WriteFailed,
        r matches Ok(req) ==> {
            &&& req.format == format
            &&& req.path@ == native_path(path)
            &&& req.width == image.info.width
            &&& req.height == image.info.height
            &&& req.components == image.info.components
            &&& req.stride == image.info.spec_stride()
        },
{
    let path = check_path(path)?;
    let info = image.info;
    let len = image.buffer.len();
    match info.sample_count() {
        Some(n) => {
            if n != len {
                return Err(fail(ErrCode::WriteFailed, "buffer length does not match the image size"));
            }
        },
        None => {
            return Err(fail(ErrCode::WriteFailed, "buffer length does not match the image size"));
        },
    }
    let stride = match native_stride(info) {
        Some(s) => s,
        None => {
            return Err(fail(ErrCode::WriteFailed, "image is too large to encode"));
        },
    };
    Ok(
        WriteRequest {
            format,
            path,
            width: info.width as i32,
            height: info.height as i32,
            components: info.components as i32,
            stride: stride as i32,
        },
    )
}

/// The fixed message of a failed write in `format`.
pub open spec fn write_failure_msg(format: WriteFormat) -> Seq<char> {
    match format {
        WriteFormat::Png => "write png failed"@,
        WriteFormat::Jpg(_) => "write jpg failed"@,
        WriteFormat::Bmp => "write bmp failed"@,
        WriteFormat::Tga => "write tga failed"@,
    }
}

/// Maps the native encoder's return code: 1 is success, anything else a
/// failure to write the file.
pub fn write_status(format: WriteFormat, code: i32) -> (r: Result<(), STBErr>)
    ensures
        r is Ok <==> code == 1,
        r matches Err(e) ==> e.code == ErrCode::WriteFailed && e.msg@ == write_failure_msg(format),
{
    if code == 1 {
        return Ok(());
    }
    let msg = match format {
        WriteFormat::Png => "write png failed",
        WriteFormat::Jpg(_) => "write jpg failed",
        WriteFormat::Bmp => "write bmp failed",
        WriteFormat::Tga => "write tga failed",
    };
    Err(fail(ErrCode::WriteFailed, msg))
}

} // verus!
