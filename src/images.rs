use vstd::prelude::*;

use crate::error::ErrorType;

verus! {

/// What decoding `bytes` gives, the format guessed from the content, once
/// converted to 8-bit RGB: width, height and pixel bytes, or the decoder's message.
pub uninterp spec fn rgb8_decoding(bytes: Seq<u8>) -> Result<(u32, u32, Seq<u8>), Seq<char>>;

/// Relies on image::load_from_memory (format guessed from the content, then
/// decoded) and DynamicImage::to_rgb8; the outcome depends on the bytes alone.
#[verifier::external_body]
fn decode_rgb8(bytes: &[u8]) -> (r: Result<(u32, u32, Vec<u8>), String>)
    ensures
        match r {
            Ok((w, h, px)) => rgb8_decoding(bytes@) == Ok::<(u32, u32, Seq<u8>), Seq<char>>(
                (w, h, px@),
            ),
            Err(e) => rgb8_decoding(bytes@) == Err::<(u32, u32, Seq<u8>), Seq<char>>(e@),
        },
{
    match image::load_from_memory(bytes) {
        Ok(img) => {
            let rgb = img.to_rgb8();
            let (width, height) = rgb.dimensions();
            Ok((width, height, rgb.into_raw()))
        },
        Err(e) => Err(e.to_string()),
    }
}

/// The number of bytes of one pixel handed to the recognition engine.
pub const BYTES_PER_PIXEL: u32 = 3;

/// The largest value of the engine's integers.
pub const ENGINE_INT_MAX: u64 = 0x7fff_ffff;

/// A pixel buffer with the dimensions that the recognition engine takes.
#[derive(Debug)]
pub struct EngineImage {
    pub width: i32,
    pub height: i32,
    pub bytes_per_pixel: i32,
    pub bytes_per_line: i32,
    pub pixels: Vec<u8>,
}

/// The message of a failed integer conversion.
pub open spec fn conversion_error_text() -> Seq<char> {
    "out of range integral type conversion attempted"@
}

/// How an RGB image of the given size is handed to the engine, or which of its
/// dimensions does not fit the engine's integers.
pub open spec fn engine_dimensions(width: u32, height: u32) -> Result<(i32, i32, i32), Seq<char>> {
    if width * 3 > ENGINE_INT_MAX {
        Err("Image dimensions are too large: "@ + conversion_error_text())
    } else if width > ENGINE_INT_MAX {
        Err("Image width is too large: "@ + conversion_error_text())
    } else if height > ENGINE_INT_MAX {
        Err("Image height is too large: "@ + conversion_error_text())
    } else {
        Ok((width as i32, height as i32, (width * 3) as i32))
    }
}

/// `r` is the engine image of the given RGB pixels, or the caller's failure
/// that names the dimension that is too large.
pub open spec fn is_engine_image(
    r: Result<EngineImage, ErrorType>,
    width: u32,
    height: u32,
    pixels: Seq<u8>,
) -> bool {
    match engine_dimensions(width, height) {
        Ok((w, h, bpl)) => match r {
            Ok(img) => img.width == w && img.height == h && img.bytes_per_pixel == 3
                && img.bytes_per_line == bpl && img.pixels@ == pixels,
            Err(_) => false,
        },
        Err(msg) => match r {
            Err(ErrorType::InvalidRequest(m)) => m@ == msg,
            _ => false,
        },
    }
}

/// Hands RGB pixels of the given size to the engine's integer widths.
pub fn engine_image(width: u32, height: u32, pixels: Vec<u8>) -> (r: Result<EngineImage, ErrorType>)
    ensures
        is_engine_image(r, width, height, pixels@),
{
    let bytes_per_line: u64 = width as u64 * BYTES_PER_PIXEL as u64;
    if bytes_per_line > ENGINE_INT_MAX {
        let mut msg = "Image dimensions are too large: ".to_owned();
        msg.append("out of range integral type conversion attempted");
        return Err(ErrorType::InvalidRequest(msg));
    }
    if width as u64 > ENGINE_INT_MAX {
        let mut msg = "Image width is too large: ".to_owned();
        msg.append("out of range integral type conversion attempted");
        return Err(ErrorType::InvalidRequest(msg));
    }
    if height as u64 > ENGINE_INT_MAX {
        let mut msg = "Image height is too large: ".to_owned();
        msg.append("out of range integral type conversion attempted");
        return Err(ErrorType::InvalidRequest(msg));
    }
    Ok(
        EngineImage {
            width: width as i32,
            height: height as i32,
            bytes_per_pixel: BYTES_PER_PIXEL as i32,
            bytes_per_line: bytes_per_line as i32,
            pixels,
        },
    )
}

/// Decodes an uploaded image and hands it to the engine's integer widths; a
/// payload that does not decode is the caller's fault, with the decoder's message.
pub fn prepare_image(bytes: &[u8]) -> (r: Result<EngineImage, ErrorType>)
    ensures
        match rgb8_decoding(bytes@) {
            Ok((w, h, px)) => is_engine_image(r, w, h, px),
            Err(msg) => r matches Err(ErrorType::InvalidRequest(m)) && m@ == msg,
        },
{
    match decode_rgb8(bytes) {
        Ok((width, height, pixels)) => engine_image(width, height, pixels),
        Err(msg) => Err(ErrorType::InvalidRequest(msg)),
    }
}

/// The stage of a recognition call that failed.
#[derive(Clone, Copy, Debug, PartialEq, Eq, Structural)]
pub enum EngineStage {
    /// Loading the model.
    Init,
    /// Handing over the pixels.
    SetImage,
    /// Extracting the text.
    ExtractText,
}

/// The error that a failure of the recognition engine ends in: a failure to
/// load the model or take the pixels is the server's fault; a failure to
/// extract text is blamed on the image.
pub open spec fn engine_failure_is(stage: EngineStage, message: Seq<char>, e: ErrorType) -> bool {
    match stage {
        EngineStage::Init => e matches ErrorType::InternalError(m) && m@
            == "Something went wrong while performing OCR: "@ + message,
        EngineStage::SetImage => e matches ErrorType::InternalError(m) && m@
            == "Something went wrong while processing the image: "@ + message,
        EngineStage::ExtractText => e matches ErrorType::InvalidRequest(m) && m@
            == "Something went wrong while extracting the text: "@ + message,
    }
}

/// The error that a failure of the recognition engine at `stage` ends in.
pub fn engine_failure(stage: EngineStage, message: &str) -> (e: ErrorType)
    ensures
        engine_failure_is(stage, message@, e),
{
    match stage {
        EngineStage::Init => {
            let mut m = "Something went wrong while performing OCR: ".to_owned();
            m.append(message);
            ErrorType::InternalError(m)
        },
        EngineStage::SetImage => {
            let mut m = "Something went wrong while processing the image: ".to_owned();
            m.append(message);
            ErrorType::InternalError(m)
        },
        EngineStage::ExtractText => {
            let mut m = "Something went wrong while extracting the text: ".to_owned();
            m.append(message);
            ErrorType::InvalidRequest(m)
        },
    }
}

/// The uploaded part, which must be present.
pub fn require_file<T>(field: Option<T>) -> (r: Result<T, ErrorType>)
    ensures
        match field {
            Some(f) => r == Ok::<T, ErrorType>(f),
            None => r matches Err(ErrorType::InvalidRequest(m)) && m@ == "no image file provided"@,
        },
{
    match field {
        Some(f) => Ok(f),
        None => Err(ErrorType::InvalidRequest("no image file provided".to_owned())),
    }
}

} // verus!
