use vstd::prelude::*;
use vstd::string::StringSliceAdditionalSpecFns;

use crate::common::{fail, ErrCode, ImageInfo, STBErr};

verus! {

/// The bytes hold a nul, so they cannot stand in a nul-terminated string.
pub open spec fn has_nul(bytes: Seq<u8>) -> bool {
    exists|i: int| 0 <= i < bytes.len() && bytes[i] == 0
}

/// Why a path cannot be handed to the native layer, if it cannot: `None`
/// stands for a path that is not valid UTF-8.
pub open spec fn path_error(path: Option<&str>) -> Option<ErrCode> {
    match path {
        None => Some(ErrCode::InvalidUtf8),
        Some(s) => if has_nul(s.spec_bytes()) {
            Some(ErrCode::FileNotExist)
        } else {
            None
        },
    }
}

/// The message of the error that `path_error` names.
pub open spec fn path_error_msg(path: Option<&str>) -> Seq<char> {
    if path is None {
        "path is not valid utf8"@
    } else {
        "path contains null character"@
    }
}

/// The nul-terminated form of a path that `path_error` accepts.
pub open spec fn native_path(path: Option<&str>) -> Seq<u8> {
    path->Some_0.spec_bytes().push(0)
}

/// The bytes of a text followed by one nul, or `FileNotExist` where the
/// text itself holds a nul.
fn nul_terminated(text: &str) -> (r: Result<Vec<u8>, STBErr>)
    ensures
        r is Err <==> has_nul(text.spec_bytes()),
        r matches Err(e) ==> e.code == ErrCode::FileNotExist
            && e.msg@ == "path contains null character"@,
        r matches Ok(bytes) ==> bytes@ == text.spec_bytes().push(0),
{
    let bytes = text.as_bytes();
    let mut out: Vec<u8> = Vec::new();
    let mut i: usize = 0;
    while i < bytes.len()
        invariant
            i <= bytes@.len(),
            bytes@ == text.spec_bytes(),
            out@ == bytes@.subrange(0, i as int),
            !has_nul(bytes@.subrange(0, i as int)),
        decreases bytes@.len() - i,
    {
        if bytes[i] == 0 {
            assert(bytes@[i as int] == 0);
            return Err(fail(ErrCode::FileNotExist, "path contains null character"));
        }
        out.push(bytes[i]);
        i = i + 1;
        assert(out@ == bytes@.subrange(0, i as int));
    }
    assert(bytes@.subrange(0, i as int) == bytes@);
    out.push(0);
    Ok(out)
}

/// Turns the text of a path (`None` where the path is not valid UTF-8)
/// into the nul-terminated bytes that the native layer reads.
pub fn check_path(path: Option<&str>) -> (r: Result<Vec<u8>, STBErr>)
    ensures
        r is Err <==> path_error(path) is Some,
        r matches Err(e) ==> Some(e.code) == path_error(path),
        r matches Err(e) ==> e.msg@ == path_error_msg(path),
        r matches Ok(bytes) ==> bytes@ == native_path(path),
{
    match path {
        None => Err(fail(ErrCode::InvalidUtf8, "path is not valid utf8")),
        Some(text) => nul_terminated(text),
    }
}

/// What a native decode call is handed: the nul-terminated path and the
/// desired channel count.
#[derive(Debug)]
pub struct LoadRequest {
    pub path: Vec<u8>,
    pub channels: i32,
}

/// Largest channel count the native decoder converts to.
pub const MAX_CHANNELS: usize = 4;

/// Prepares a native decode: checks the path and the desired channel count
/// (0 keeps the file's own count; 1 to 4 ask for a conversion). A count
/// above 4 is refused here, before the native decoder could see it; 2 (grey
/// and alpha) is handed on.
pub fn load_request(path: Option<&str>, desire_channels: usize) -> (r: Result<LoadRequest, STBErr>)
    ensures
        path_error(path) is Some ==> r is Err && Some(r->Err_0.code) == path_error(path)
            && r->Err_0.msg@ == path_error_msg(path),
        path_error(path) is None && desire_channels > MAX_CHANNELS ==> r is Err
            && r->Err_0.code == ErrCode::LoadFailed,
        path_error(path) is None && desire_channels <= MAX_CHANNELS ==> r is Ok,
        r matches Ok(req) ==> req.path@ == native_path(path) && req.channels == desire_channels,
{
    let path = check_path(path)?;
    if desire_channels > MAX_CHANNELS {
        return Err(fail(ErrCode::LoadFailed, "unsupported channel count"));
    }
    Ok(LoadRequest { path, channels: desire_channels as i32 })
}

/// Component count of a decoded buffer: the desired count, or the file's
/// own where none was asked for.
pub open spec fn decoded_components(native: i32, desired: i32) -> int {
    if desired == 0 {
        native as int
    } else {
        desired as int
    }
}

/// Geometry of the buffer that a successful native decode hands back.
pub open spec fn decoded_info(width: i32, height: i32, native: i32, desired: i32) -> ImageInfo {
    ImageInfo {
        width: width as usize,
        height: height as usize,
        components: decoded_components(native, desired) as usize,
    }
}

/// The reported geometry describes a buffer that a `usize` can count.
pub open spec fn decoded_valid(width: i32, height: i32, native: i32, desired: i32) -> bool {
    &&& width >= 0
    &&& height >= 0
    &&& decoded_components(native, desired) >= 0
    &&& width * height * decoded_components(native, desired) <= usize::MAX
}

/// Geometry of the buffer that a successful native decode returned, from
/// the measured width and height, the file's own channel count and the
/// channel count that was asked for.
pub fn loaded_info(width: i32, height: i32, native_channels: i32, desired_channels: i32) -> (r: Result<
    ImageInfo,
    STBErr,
>)
    ensures
        r is Ok <==> decoded_valid(width, height, native_channels, desired_channels),
        r matches Ok(info) ==> info == decoded_info(
            width,
            height,
            native_channels,
            desired_channels,
        ) && info.fits(),
        r matches Err(e) ==> e.code == ErrCode::LoadFailed,
{
    let components = if desired_channels == 0 {
        native_channels
    } else {
        desired_channels
    };
    if width < 0 || height < 0 || components < 0 {
        return Err(fail(ErrCode::LoadFailed, "decoder reported a negative size"));
    }
    let info = ImageInfo::new(width as usize, height as usize, components as usize);
    match info.sample_count() {
        Some(_) => Ok(info),
        None => Err(fail(ErrCode::LoadFailed, "decoded image is too large")),
    }
}

/// The native layer's last failure reason, as text (`None` where it is not
/// valid UTF-8).
pub fn get_fail_reason(reason: Option<&str>) -> (r: Result<String, STBErr>)
    ensures
        reason matches Some(s) ==> r is Ok && r->Ok_0@ == s@,
        reason is None ==> r is Err && r->Err_0.code == ErrCode::LoadFailed
            && r->Err_0.msg@ == "invalid message"@,
{
    match reason {
        Some(s) => Ok(s.to_owned()),
        None => Err(fail(ErrCode::LoadFailed, "invalid message")),
    }
}

/// The error for a native decode that returned no buffer, carrying the
/// native layer's failure reason where it can be read.
pub fn load_failed(reason: Option<&str>) -> (r: STBErr)
    ensures
        r.code == ErrCode::LoadFailed,
        reason matches Some(s) ==> r.msg@ == s@,
        reason is None ==> r.msg@ == "invalid message"@,
{
    match get_fail_reason(reason) {
        Ok(msg) => STBErr::new(ErrCode::LoadFailed, msg),
        Err(e) => e,
    }
}

} // verus!
