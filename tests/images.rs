use std::io::Cursor;

use ocr_service::error::{ErrorType, JsonRejectionKind};
use ocr_service::images::{engine_failure, engine_image, prepare_image, require_file, EngineStage};
use ocr_service::models::HealthResponse;

fn png(width: u32, height: u32) -> Vec<u8> {
    let img = image::RgbImage::from_fn(width, height, |x, y| image::Rgb([x as u8, y as u8, 7]));
    let mut out = Cursor::new(Vec::new());
    img.write_to(&mut out, image::ImageFormat::Png).unwrap();
    out.into_inner()
}

#[test]
fn png_upload_is_decoded_to_rgb() {
    let img = match prepare_image(&png(4, 2)) {
        Ok(img) => img,
        Err(_) => panic!("decoding failed"),
    };
    assert_eq!(img.width, 4);
    assert_eq!(img.height, 2);
    assert_eq!(img.bytes_per_pixel, 3);
    assert_eq!(img.bytes_per_line, 12);
    assert_eq!(img.pixels.len(), 24);
    assert_eq!(&img.pixels[0..6], &[0, 0, 7, 1, 0, 7]);
}

#[test]
fn undecodable_upload_is_refused() {
    match prepare_image(b"definitely not an image") {
        Err(ErrorType::InvalidRequest(msg)) => assert!(!msg.is_empty()),
        _ => panic!("Expected InvalidRequest error"),
    }
}

#[test]
fn oversized_dimensions_are_named() {
    let message = |r: Result<_, ErrorType>| match r {
        Err(ErrorType::InvalidRequest(m)) => m,
        _ => panic!("Expected InvalidRequest error"),
    };
    assert_eq!(
        message(engine_image(715_827_883, 1, Vec::new())),
        "Image dimensions are too large: out of range integral type conversion attempted"
    );
    assert_eq!(
        message(engine_image(1, 2_147_483_648, Vec::new())),
        "Image height is too large: out of range integral type conversion attempted"
    );
    let ok = engine_image(715_827_882, 2_147_483_647, vec![1, 2, 3]);
    match ok {
        Ok(img) => {
            assert_eq!(img.bytes_per_line, 2_147_483_646);
            assert_eq!(img.height, 2_147_483_647);
            assert_eq!(img.pixels, vec![1, 2, 3]);
        }
        Err(_) => panic!("Expected the dimensions to fit"),
    }
}

#[test]
fn engine_failures_are_classified() {
    match engine_failure(EngineStage::Init, "no model") {
        ErrorType::InternalError(m) => {
            assert_eq!(m, "Something went wrong while performing OCR: no model")
        }
        _ => panic!("Expected InternalError"),
    }
    match engine_failure(EngineStage::SetImage, "bad size") {
        ErrorType::InternalError(m) => {
            assert_eq!(m, "Something went wrong while processing the image: bad size")
        }
        _ => panic!("Expected InternalError"),
    }
    match engine_failure(EngineStage::ExtractText, "garbled") {
        ErrorType::InvalidRequest(m) => {
            assert_eq!(m, "Something went wrong while extracting the text: garbled")
        }
        _ => panic!("Expected InvalidRequest"),
    }
}

#[test]
fn missing_file_is_refused() {
    assert_eq!(require_file(Some(5)).ok(), Some(5));
    match require_file::<u8>(None) {
        Err(ErrorType::InvalidRequest(m)) => assert_eq!(m, "no image file provided"),
        _ => panic!("Expected InvalidRequest"),
    }
}

#[test]
fn error_responses() {
    let (status, body) = ErrorType::InternalError("engine down".to_string()).into_response_parts();
    assert_eq!(status, 500);
    assert_eq!(body.message, "engine down");
    let (status, body) =
        ErrorType::InvalidJsonBody(JsonRejectionKind::MissingJsonContentType).into_response_parts();
    assert_eq!(status, 400);
    assert_eq!(body.message, "Missing 'Content-Type: application/json' header");
    let (status, body) = ErrorType::InvalidJsonBody(JsonRejectionKind::JsonSyntaxError).into_response_parts();
    assert_eq!(status, 400);
    assert_eq!(body.message, "Invalid JSON syntax");
    assert!(ErrorType::InvalidRequest("x".to_string()).is_client_error());
    assert!(!ErrorType::InternalError("x".to_string()).is_client_error());
}

#[test]
fn error_descriptions() {
    assert_eq!(ErrorType::InvalidRequest("bad".to_string()).to_string(), "Invalid request: bad");
    assert_eq!(
        ErrorType::InternalError("secret".to_string()).to_string(),
        "An internal server error has occurred."
    );
    assert_eq!(
        ErrorType::InvalidJsonBody(JsonRejectionKind::Other).to_string(),
        "Invalid payload."
    );
}

#[test]
fn health_response() {
    assert_eq!(HealthResponse::new("ok").status, "ok");
}
