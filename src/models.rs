use vstd::prelude::*;

verus! {

/// The mathematical value of an optional string.
pub open spec fn opt_view(o: Option<String>) -> Option<Seq<char>> {
    match o {
        Some(s) => Some(s@),
        None => None,
    }
}

/// One installed language/model combination, as plain values.
pub struct ModelRecord {
    pub language: Seq<char>,
    pub model: Option<Seq<char>>,
    pub full_path: Option<Seq<char>>,
    pub relative_path: Option<Seq<char>>,
}

impl ModelRecord {
    /// A record's identity in a catalog: its language and model.
    pub open spec fn key(self) -> (Seq<char>, Option<Seq<char>>) {
        (self.language, self.model)
    }
}

/// An installed recognition model.
#[derive(Debug, PartialEq, Eq, Hash)]
pub struct TesseractModel {
    /// The language of the model.
    pub language: String,
    /// The variant of the model; absent for the unqualified model of the language.
    pub model: Option<String>,
    /// The full file path of the model.
    pub full_path: Option<String>,
    /// The file path relative to the data directory, without the file extension.
    pub relative_path: Option<String>,
}

impl View for TesseractModel {
    type V = ModelRecord;

    open spec fn view(&self) -> ModelRecord {
        ModelRecord {
            language: self.language@,
            model: opt_view(self.model),
            full_path: opt_view(self.full_path),
            relative_path: opt_view(self.relative_path),
        }
    }
}

/// The records that a sequence of models stands for.
pub open spec fn views(s: Seq<TesseractModel>) -> Seq<ModelRecord> {
    s.map_values(|m: TesseractModel| m@)
}

/// Copies an optional string.
pub fn clone_opt_string(o: &Option<String>) -> (r: Option<String>)
    ensures
        opt_view(r) == opt_view(*o),
{
    match o {
        Some(s) => Some(s.clone()),
        None => None,
    }
}

impl Clone for TesseractModel {
    fn clone(&self) -> (r: Self)
        ensures
            r@ == self@,
    {
        TesseractModel {
            language: self.language.clone(),
            model: clone_opt_string(&self.model),
            full_path: clone_opt_string(&self.full_path),
            relative_path: clone_opt_string(&self.relative_path),
        }
    }
}

/// The query of an OCR request: which language, and which of its models, to use.
#[derive(Debug)]
pub struct ImagesQueryParams {
    /// The language to use; the service's default language when absent.
    pub language: Option<String>,
    /// The model of that language to use; only allowed together with a language.
    pub model: Option<String>,
}

/// The answer to a successful OCR request.
#[derive(Debug)]
pub struct ImagesResponse {
    /// The text extracted from the image.
    pub text: String,
}

/// The form of an OCR request: the image to process.
#[derive(Debug)]
pub struct ImagesForm {
    pub file: String,
}

/// The answer to a health check.
#[derive(Debug)]
pub struct HealthResponse {
    pub status: String,
}

impl HealthResponse {
    /// A health answer with the given status.
    pub fn new(status: &str) -> (r: Self)
        ensures
            r.status@ == status@,
    {
        HealthResponse { status: status.to_owned() }
    }
}

/// The answer to a request for the installed languages.
#[derive(Debug)]
pub struct LanguagesResponse {
    pub languages: Vec<TesseractModel>,
}

} // verus!
