use ocr_service::catalog::Catalog;
use ocr_service::error::ErrorType;
use ocr_service::models::{ImagesQueryParams, TesseractModel};
use ocr_service::validations::{
    resolve, validate_content_type, validate_file_type, validate_language_params,
    ResolutionError,
};

fn model(language: &str, model: Option<&str>, full_path: &str, relative_path: &str) -> TesseractModel {
    TesseractModel {
        language: language.to_string(),
        model: model.map(|m| m.to_string()),
        full_path: Some(full_path.to_string()),
        relative_path: Some(relative_path.to_string()),
    }
}

fn query(language: Option<&str>, model: Option<&str>) -> ImagesQueryParams {
    ImagesQueryParams {
        language: language.map(|l| l.to_string()),
        model: model.map(|m| m.to_string()),
    }
}

fn invalid_request_message(result: Result<TesseractModel, ErrorType>) -> String {
    match result {
        Err(ErrorType::InvalidRequest(msg)) => msg,
        _ => panic!("Expected InvalidRequest error"),
    }
}

#[test]
fn test_validate_file_type_valid() {
    assert!(validate_file_type("image/png").is_ok());
    assert!(validate_file_type("image/jpg").is_ok());
    assert!(validate_file_type("image/jpeg").is_ok());
    assert!(validate_file_type("image/webp").is_ok());
    assert!(validate_file_type("image/gif").is_ok());
}

#[test]
fn test_validate_file_type_invalid() {
    let result = validate_file_type("text/plain");
    assert!(result.is_err());
    match result {
        Err(ErrorType::InvalidRequest(msg)) => {
            assert_eq!(
                msg,
                "Invalid file type: text/plain. File types allowed: image/png,image/jpg,image/jpeg,image/webp,image/gif"
            );
        }
        _ => panic!("Expected InvalidRequest error"),
    }
}

#[test]
fn test_validate_file_type_empty() {
    let result = validate_file_type("");
    assert!(result.is_err());
    match result {
        Err(ErrorType::InvalidRequest(msg)) => {
            assert_eq!(
                msg,
                "Invalid file type: . File types allowed: image/png,image/jpg,image/jpeg,image/webp,image/gif"
            );
        }
        _ => panic!("Expected InvalidRequest error"),
    }
}

#[test]
fn file_type_gate_is_exact() {
    assert!(validate_file_type("image/PNG").is_err());
    assert!(validate_file_type("image/png ").is_err());
    assert!(validate_file_type("image/pn").is_err());
    assert!(validate_file_type("image/bmp").is_err());
}

#[test]
fn content_type_must_be_declared() {
    match validate_content_type(None) {
        Err(ErrorType::InvalidRequest(msg)) => {
            assert_eq!(msg, "no content type provided")
        }
        _ => panic!("Expected InvalidRequest error"),
    }
    assert!(validate_content_type(Some("image/gif")).is_ok());
    assert!(validate_content_type(Some("application/pdf")).is_err());
}

#[test]
fn test_validate_language_params_model_without_language() {
    let params = query(None, Some("fast"));
    let available_languages = Catalog::new();
    let result = validate_language_params(&params, &available_languages, "eng");
    assert!(result.is_err());
    assert_eq!(
        invalid_request_message(result),
        "Language must be specified when model is provided"
    );
}

#[test]
fn model_without_language_is_refused_whatever_the_catalog() {
    let mut available_languages = Catalog::new();
    available_languages.insert(model("eng", Some("fast"), "eng/fast.traineddata", "eng/fast"));
    available_languages.insert(model("eng", None, "eng.traineddata", "eng"));
    let result = resolve(&query(None, Some("fast")), &available_languages, "eng");
    assert!(matches!(result, Err(ResolutionError::ModelWithoutLanguage)));
}

#[test]
fn test_validate_language_params_unavailable_language() {
    let params = query(Some("xyz"), None);
    let available_languages = Catalog::new();
    let result = validate_language_params(&params, &available_languages, "eng");
    assert!(result.is_err());
    assert_eq!(invalid_request_message(result), "Language 'xyz' is not available");
}

#[test]
fn unavailable_language_is_named() {
    let result = resolve(&query(Some("xyz"), None), &Catalog::new(), "eng");
    match result {
        Err(ResolutionError::LanguageNotAvailable(l)) => assert_eq!(l, "xyz"),
        _ => panic!("Expected LanguageNotAvailable"),
    }
}

#[test]
fn test_validate_language_params_language_and_model_match() {
    let mut available_languages = Catalog::new();
    available_languages.insert(model("spa", Some("fast"), "spa/spa_fast.traineddata", "spa/spa_fast"));
    available_languages.insert(model(
        "spa",
        Some("default"),
        "spa/spa_default.traineddata",
        "spa/spa_default",
    ));
    let params = query(Some("spa"), Some("fast"));
    let result = validate_language_params(&params, &available_languages, "eng");
    assert!(result.is_ok());
    let model = result.unwrap();
    assert_eq!(model.language, "spa");
    assert_eq!(model.model, Some("fast".to_string()));
}

#[test]
fn exact_match_keeps_the_record_paths() {
    let mut available_languages = Catalog::new();
    available_languages.insert(model("spa", Some("fast"), "spa/spa_fast.traineddata", "spa/spa_fast"));
    available_languages.insert(model(
        "spa",
        Some("default"),
        "spa/spa_default.traineddata",
        "spa/spa_default",
    ));
    let found = resolve(&query(Some("spa"), Some("default")), &available_languages, "eng").unwrap();
    assert_eq!(found.model, Some("default".to_string()));
    assert_eq!(found.relative_path, Some("spa/spa_default".to_string()));
    assert_eq!(found.full_path, Some("spa/spa_default.traineddata".to_string()));
}

#[test]
fn test_validate_language_params_model_not_found_for_language() {
    let mut available_languages = Catalog::new();
    available_languages.insert(model("spa", Some("fast"), "spa/spa_fast.traineddata", "spa/spa_fast"));
    let params = query(Some("spa"), Some("slow"));
    let result = validate_language_params(&params, &available_languages, "eng");
    assert!(result.is_err());
    assert_eq!(
        invalid_request_message(result),
        "Model 'slow' not found for language 'spa'"
    );
}

#[test]
fn test_validate_language_params_only_language_one_model() {
    let mut available_languages = Catalog::new();
    available_languages.insert(model("spa", Some("fast"), "spa/spa_fast.traineddata", "spa/spa_fast"));
    let params = query(Some("spa"), None);
    let result = validate_language_params(&params, &available_languages, "eng");
    assert!(result.is_ok());
    let model = result.unwrap();
    assert_eq!(model.language, "spa");
    assert_eq!(model.model, Some("fast".to_string()));
}

#[test]
fn test_validate_language_params_multiple_models_one_default() {
    let mut available_languages = Catalog::new();
    available_languages.insert(model("eng", None, "eng.traineddata", "eng"));
    available_languages.insert(model("eng", Some("fast"), "eng/eng_fast.traineddata", "eng/eng_fast"));
    let params = query(Some("eng"), None);
    let result = validate_language_params(&params, &available_languages, "eng");
    assert!(result.is_ok());
    let model = result.unwrap();
    assert_eq!(model.language, "eng");
    assert_eq!(model.model, None);
}

#[test]
fn unqualified_default_wins_in_any_order() {
    let mut available_languages = Catalog::new();
    available_languages.insert(model("eng", Some("fast"), "eng/eng_fast.traineddata", "eng/eng_fast"));
    available_languages.insert(model("eng", Some("best"), "eng/eng_best.traineddata", "eng/eng_best"));
    available_languages.insert(model("eng", None, "eng.traineddata", "eng"));
    let found = resolve(&query(Some("eng"), None), &available_languages, "eng").unwrap();
    assert_eq!(found.model, None);
    assert_eq!(found.relative_path, Some("eng".to_string()));
}

#[test]
fn test_validate_language_params_multiple_models_no_default() {
    let mut available_languages = Catalog::new();
    available_languages.insert(model("eng", Some("fast"), "eng/eng_fast.traineddata", "eng/eng_fast"));
    available_languages.insert(model("eng", Some("best"), "eng/eng_best.traineddata", "eng/eng_best"));
    let params = query(Some("eng"), None);
    let result = validate_language_params(&params, &available_languages, "eng");
    assert!(result.is_err());
    assert_eq!(
        invalid_request_message(result),
        "Multiple models available for language 'eng', please specify a model"
    );
}

#[test]
fn ambiguity_is_named() {
    let mut available_languages = Catalog::new();
    available_languages.insert(model("eng", Some("fast"), "eng/eng_fast.traineddata", "eng/eng_fast"));
    available_languages.insert(model("eng", Some("best"), "eng/eng_best.traineddata", "eng/eng_best"));
    match resolve(&query(Some("eng"), None), &available_languages, "eng") {
        Err(ResolutionError::AmbiguousModel(l)) => assert_eq!(l, "eng"),
        _ => panic!("Expected AmbiguousModel"),
    }
}

#[test]
fn test_validate_language_params_use_default_language() {
    let mut available_languages = Catalog::new();
    available_languages.insert(model("eng", None, "eng.traineddata", "eng"));
    let params = query(None, None);
    let result = validate_language_params(&params, &available_languages, "eng");
    assert!(result.is_ok());
    let model = result.unwrap();
    assert_eq!(model.language, "eng");
    assert_eq!(model.model, None);
}

#[test]
fn test_validate_language_params_default_language_not_available() {
    let mut available_languages = Catalog::new();
    available_languages.insert(model("spa", None, "spa.traineddata", "spa"));
    let params = query(None, None);
    let result = validate_language_params(&params, &available_languages, "eng");
    assert!(result.is_err());
    assert_eq!(invalid_request_message(result), "Language 'eng' is not available");
}

#[test]
fn unknown_model_answers_bad_request() {
    let mut available_languages = Catalog::new();
    available_languages.insert(model("eng", None, "eng.traineddata", "eng"));
    let params = query(Some("eng"), Some("unknown"));
    let err = match validate_language_params(&params, &available_languages, "eng") {
        Err(e) => e,
        Ok(_) => panic!("Expected an error"),
    };
    let (status, body) = err.into_response_parts();
    assert_eq!(status, 400);
    assert_eq!(body.message, "Model 'unknown' not found for language 'eng'");
}

#[test]
fn resolution_messages() {
    assert_eq!(
        ResolutionError::ModelNotFoundForLanguage("m".to_string(), "l".to_string()).message(),
        "Model 'm' not found for language 'l'"
    );
    assert_eq!(
        ResolutionError::AmbiguousModel("deu".to_string()).message(),
        "Multiple models available for language 'deu', please specify a model"
    );
}
