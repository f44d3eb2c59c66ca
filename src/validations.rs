use vstd::prelude::*;

use crate::catalog::{has_key, keys_unique, Catalog};
use crate::error::{invalid_request, ErrorType};
use crate::models::{opt_view, ImagesQueryParams, ModelRecord, TesseractModel};
use crate::text::str_equal;

verus! {

/// Why a query could not be resolved to an installed model.
#[derive(Debug)]
pub enum ResolutionError {
    /// A model was asked for without a language.
    ModelWithoutLanguage,
    /// No model of this language is installed.
    LanguageNotAvailable(String),
    /// The language has no model of this name: (model, language).
    ModelNotFoundForLanguage(String, String),
    /// The language has several models and none is unqualified.
    AmbiguousModel(String),
}

/// A resolution failure, as plain values.
pub enum ResolutionFailure {
    ModelWithoutLanguage,
    LanguageNotAvailable(Seq<char>),
    ModelNotFoundForLanguage(Seq<char>, Seq<char>),
    AmbiguousModel(Seq<char>),
}

impl View for ResolutionError {
    type V = ResolutionFailure;

    open spec fn view(&self) -> ResolutionFailure {
        match self {
            ResolutionError::ModelWithoutLanguage => ResolutionFailure::ModelWithoutLanguage,
            ResolutionError::LanguageNotAvailable(l) => ResolutionFailure::LanguageNotAvailable(l@),
            ResolutionError::ModelNotFoundForLanguage(m, l) =>
                ResolutionFailure::ModelNotFoundForLanguage(m@, l@),
            ResolutionError::AmbiguousModel(l) => ResolutionFailure::AmbiguousModel(l@),
        }
    }
}

/// The message that explains a resolution failure to the caller.
pub open spec fn failure_message(f: ResolutionFailure) -> Seq<char> {
    match f {
        ResolutionFailure::ModelWithoutLanguage =>
            "Language must be specified when model is provided"@,
        ResolutionFailure::LanguageNotAvailable(l) => "Language '"@ + l + "' is not available"@,
        ResolutionFailure::ModelNotFoundForLanguage(m, l) =>
            "Model '"@ + m + "' not found for language '"@ + l + "'"@,
        ResolutionFailure::AmbiguousModel(l) =>
            "Multiple models available for language '"@ + l + "', please specify a model"@,
    }
}

/// Some record has the given language.
pub open spec fn has_language(s: Seq<ModelRecord>, language: Seq<char>) -> bool {
    exists|i: int| 0 <= i < s.len() && s[i].language == language
}

/// How many records have the given language.
pub open spec fn language_count(s: Seq<ModelRecord>, language: Seq<char>) -> nat
    decreases s.len(),
{
    if s.len() == 0 {
        0
    } else {
        language_count(s.drop_last(), language) + if s.last().language == language {
            1nat
        } else {
            0nat
        }
    }
}

/// The record with the given key (determined when keys are unique).
pub open spec fn record_with_key(s: Seq<ModelRecord>, k: (Seq<char>, Option<Seq<char>>)) -> ModelRecord {
    s[choose|i: int| 0 <= i < s.len() && s[i].key() == k]
}

/// A record of the given language (determined when it has exactly one).
pub open spec fn record_of_language(s: Seq<ModelRecord>, language: Seq<char>) -> ModelRecord {
    s[choose|i: int| 0 <= i < s.len() && s[i].language == language]
}

/// The language that a query asks for.
pub open spec fn requested_language(language: Option<Seq<char>>, default_language: Seq<char>) -> Seq<char> {
    match language {
        Some(l) => l,
        None => default_language,
    }
}

/// The record that a query resolves to in catalog `s`, or why it resolves to none:
/// an explicit model must match exactly; without one, the only record of the
/// language is taken, else its unqualified record, else the query is ambiguous.
pub open spec fn resolution(
    language: Option<Seq<char>>,
    model: Option<Seq<char>>,
    s: Seq<ModelRecord>,
    default_language: Seq<char>,
) -> Result<ModelRecord, ResolutionFailure> {
    let lang = requested_language(language, default_language);
    if model is Some && language is None {
        Err(ResolutionFailure::ModelWithoutLanguage)
    } else if !has_language(s, lang) {
        Err(ResolutionFailure::LanguageNotAvailable(lang))
    } else {
        match model {
            Some(m) => if has_key(s, (lang, Some(m))) {
                Ok(record_with_key(s, (lang, Some(m))))
            } else {
                Err(ResolutionFailure::ModelNotFoundForLanguage(m, lang))
            },
            None => if language_count(s, lang) == 1 {
                Ok(record_of_language(s, lang))
            } else if has_key(s, (lang, None)) {
                Ok(record_with_key(s, (lang, None)))
            } else {
                Err(ResolutionFailure::AmbiguousModel(lang))
            },
        }
    }
}

proof fn lemma_count_positive(s: Seq<ModelRecord>, language: Seq<char>, i: int)
    requires
        0 <= i < s.len(),
        s[i].language == language,
    ensures
        language_count(s, language) >= 1,
    decreases s.len(),
{
    if i < s.len() - 1 {
        lemma_count_positive(s.drop_last(), language, i);
    }
}

proof fn lemma_count_two(s: Seq<ModelRecord>, language: Seq<char>, i: int, j: int)
    requires
        0 <= i < j < s.len(),
        s[i].language == language,
        s[j].language == language,
    ensures
        language_count(s, language) >= 2,
    decreases s.len(),
{
    if j == s.len() - 1 {
        lemma_count_positive(s.drop_last(), language, i);
    } else {
        lemma_count_two(s.drop_last(), language, i, j);
    }
}

proof fn lemma_count_exact(s: Seq<ModelRecord>, language: Seq<char>, i: int)
    requires
        0 <= i < s.len(),
        s[i].language == language,
        forall|j: int| 0 <= j < s.len() && j != i ==> s[j].language != language,
    ensures
        language_count(s, language) == 1,
    decreases s.len(),
{
    let t = s.drop_last();
    if i == s.len() - 1 {
        lemma_count_zero(t, language);
    } else {
        lemma_count_exact(t, language, i);
    }
}

proof fn lemma_count_zero(s: Seq<ModelRecord>, language: Seq<char>)
    requires
        forall|j: int| 0 <= j < s.len() ==> s[j].language != language,
    ensures
        language_count(s, language) == 0,
    decreases s.len(),
{
    if s.len() > 0 {
        lemma_count_zero(s.drop_last(), language);
    }
}

/// Under unique keys, the record found at `j` is the one that the key names.
proof fn lemma_record_with_key(s: Seq<ModelRecord>, k: (Seq<char>, Option<Seq<char>>), j: int)
    requires
        keys_unique(s),
        0 <= j < s.len(),
        s[j].key() == k,
    ensures
        record_with_key(s, k) == s[j],
{
    let i = choose|i: int| 0 <= i < s.len() && s[i].key() == k;
    assert(i == j);
}

/// With exactly one record of a language, the record found at `j` is that one.
proof fn lemma_record_of_language(s: Seq<ModelRecord>, language: Seq<char>, j: int)
    requires
        language_count(s, language) == 1,
        0 <= j < s.len(),
        s[j].language == language,
    ensures
        record_of_language(s, language) == s[j],
{
    let i = choose|i: int| 0 <= i < s.len() && s[i].language == language;
    if i < j {
        lemma_count_two(s, language, i, j);
    } else if j < i {
        lemma_count_two(s, language, j, i);
    }
}

/// A model asked for without a language is refused, whatever the catalog.
pub proof fn lemma_model_requires_language(
    model: Seq<char>,
    s: Seq<ModelRecord>,
    default_language: Seq<char>,
)
    ensures
        resolution(None, Some(model), s, default_language) == Err::<
            ModelRecord,
            ResolutionFailure,
        >(ResolutionFailure::ModelWithoutLanguage),
{
}

/// A language of which no model is installed is refused, naming the language.
pub proof fn lemma_language_not_available(
    language: Option<Seq<char>>,
    model: Option<Seq<char>>,
    s: Seq<ModelRecord>,
    default_language: Seq<char>,
)
    requires
        !(model is Some && language is None),
        !has_language(s, requested_language(language, default_language)),
    ensures
        resolution(language, model, s, default_language) == Err::<ModelRecord, ResolutionFailure>(
            ResolutionFailure::LanguageNotAvailable(requested_language(language, default_language)),
        ),
{
}

/// An explicit model that is installed for the language is the one served.
pub proof fn lemma_exact_match(
    language: Seq<char>,
    model: Seq<char>,
    s: Seq<ModelRecord>,
    default_language: Seq<char>,
    i: int,
)
    requires
        keys_unique(s),
        0 <= i < s.len(),
        s[i].key() == (language, Some(model)),
    ensures
        resolution(Some(language), Some(model), s, default_language) == Ok::<
            ModelRecord,
            ResolutionFailure,
        >(s[i]),
{
    lemma_record_with_key(s, (language, Some(model)), i);
}

/// An explicit model that is not installed for an available language is refused,
/// naming both.
pub proof fn lemma_model_not_found(
    language: Seq<char>,
    model: Seq<char>,
    s: Seq<ModelRecord>,
    default_language: Seq<char>,
)
    requires
        has_language(s, language),
        !has_key(s, (language, Some(model))),
    ensures
        resolution(Some(language), Some(model), s, default_language) == Err::<
            ModelRecord,
            ResolutionFailure,
        >(ResolutionFailure::ModelNotFoundForLanguage(model, language)),
{
}

/// Without an explicit model, the only record of a language is served, whether
/// or not it names a model.
pub proof fn lemma_single_candidate(
    language: Option<Seq<char>>,
    s: Seq<ModelRecord>,
    default_language: Seq<char>,
    i: int,
)
    requires
        0 <= i < s.len(),
        s[i].language == requested_language(language, default_language),
        forall|j: int|
            0 <= j < s.len() && j != i ==> s[j].language != requested_language(
                language,
                default_language,
            ),
    ensures
        resolution(language, None, s, default_language) == Ok::<ModelRecord, ResolutionFailure>(
            s[i],
        ),
{
    let l = requested_language(language, default_language);
    lemma_count_exact(s, l, i);
    lemma_record_of_language(s, l, i);
}

/// Without an explicit model, a language with several records serves its
/// unqualified one.
pub proof fn lemma_unqualified_default(
    language: Option<Seq<char>>,
    s: Seq<ModelRecord>,
    default_language: Seq<char>,
    i: int,
    j: int,
)
    requires
        keys_unique(s),
        0 <= i < s.len(),
        0 <= j < s.len(),
        i != j,
        s[i].key() == (requested_language(language, default_language), None::<Seq<char>>),
        s[j].language == requested_language(language, default_language),
    ensures
        resolution(language, None, s, default_language) == Ok::<ModelRecord, ResolutionFailure>(
            s[i],
        ),
{
    let l = requested_language(language, default_language);
    if i < j {
        lemma_count_two(s, l, i, j);
    } else {
        lemma_count_two(s, l, j, i);
    }
    lemma_record_with_key(s, (l, None), i);
}

/// Without an explicit model, a language with several records and no
/// unqualified one is refused as ambiguous.
pub proof fn lemma_ambiguous(
    language: Option<Seq<char>>,
    s: Seq<ModelRecord>,
    default_language: Seq<char>,
    i: int,
    j: int,
)
    requires
        0 <= i < s.len(),
        0 <= j < s.len(),
        i != j,
        s[i].language == requested_language(language, default_language),
        s[j].language == requested_language(language, default_language),
        !has_key(s, (requested_language(language, default_language), None)),
    ensures
        resolution(language, None, s, default_language) == Err::<ModelRecord, ResolutionFailure>(
            ResolutionFailure::AmbiguousModel(requested_language(language, default_language)),
        ),
{
    let l = requested_language(language, default_language);
    if i < j {
        lemma_count_two(s, l, i, j);
    } else {
        lemma_count_two(s, l, j, i);
    }
}

impl ResolutionError {
    /// The message that explains this failure to the caller.
    pub fn message(&self) -> (r: String)
        ensures
            r@ == failure_message(self@),
    {
        match self {
            ResolutionError::ModelWithoutLanguage =>
                "Language must be specified when model is provided".to_owned(),
            ResolutionError::LanguageNotAvailable(l) => {
                let mut s = "Language '".to_owned();
                s.append(l.as_str());
                s.append("' is not available");
                s
            },
            ResolutionError::ModelNotFoundForLanguage(m, l) => {
                let mut s = "Model '".to_owned();
                s.append(m.as_str());
                s.append("' not found for language '");
                s.append(l.as_str());
                s.append("'");
                s
            },
            ResolutionError::AmbiguousModel(l) => {
                let mut s = "Multiple models available for language '".to_owned();
                s.append(l.as_str());
                s.append("', please specify a model");
                s
            },
        }
    }
}

/// Resolves a query against the catalog.
pub fn resolve(
    params: &ImagesQueryParams,
    available_languages: &Catalog,
    default_language: &str,
) -> (r: Result<TesseractModel, ResolutionError>)
    ensures
        match r {
            Ok(m) => resolution(
                opt_view(params.language),
                opt_view(params.model),
                available_languages@,
                default_language@,
            ) == Ok::<ModelRecord, ResolutionFailure>(m@),
            Err(e) => resolution(
                opt_view(params.language),
                opt_view(params.model),
                available_languages@,
                default_language@,
            ) == Err::<ModelRecord, ResolutionFailure>(e@),
        },
{
    proof {
        use_type_invariant(available_languages);
    }
    let ghost s = available_languages@;
    if params.model.is_some() && params.language.is_none() {
        return Err(ResolutionError::ModelWithoutLanguage);
    }
    let language: String = match &params.language {
        Some(l) => l.clone(),
        None => default_language.to_owned(),
    };
    assert(language@ == requested_language(opt_view(params.language), default_language@));
    let n = available_languages.len();
    let mut count: usize = 0;
    let mut first: usize = 0;
    let mut i: usize = 0;
    while i < n
        invariant
            n == s.len(),
            s == available_languages@,
            i <= n,
            count <= i,
            count == language_count(s.subrange(0, i as int), language@),
            count == 0 ==> forall|k: int| 0 <= k < i ==> s[k].language != language@,
            count > 0 ==> first < i && s[first as int].language == language@,
        decreases n - i,
    {
        let m = available_languages.get(i);
        assert(s.subrange(0, i + 1).drop_last() =~= s.subrange(0, i as int));
        if m.language == language {
            if count == 0 {
                first = i;
            }
            count = count + 1;
        }
        i = i + 1;
    }
    assert(s.subrange(0, n as int) =~= s);
    if count == 0 {
        return Err(ResolutionError::LanguageNotAvailable(language));
    }
    match &params.model {
        Some(requested) => {
            let wanted = Some(requested.clone());
            match available_languages.position(&language, &wanted) {
                Some(j) => {
                    proof {
                        lemma_record_with_key(s, (language@, opt_view(wanted)), j as int);
                    }
                    Ok(available_languages.get(j).clone())
                },
                None => Err(ResolutionError::ModelNotFoundForLanguage(requested.clone(), language)),
            }
        },
        None => {
            if count == 1 {
                proof {
                    lemma_record_of_language(s, language@, first as int);
                }
                Ok(available_languages.get(first).clone())
            } else {
                match available_languages.position(&language, &None) {
                    Some(j) => {
                        proof {
                            lemma_record_with_key(s, (language@, None), j as int);
                        }
                        Ok(available_languages.get(j).clone())
                    },
                    None => Err(ResolutionError::AmbiguousModel(language)),
                }
            }
        },
    }
}

/// Resolves a query against the catalog; a failure is the caller's fault and
/// carries the message that explains it.
pub fn validate_language_params(
    language_params: &ImagesQueryParams,
    available_languages: &Catalog,
    default_language: &str,
) -> (r: Result<TesseractModel, ErrorType>)
    ensures
        match resolution(
            opt_view(language_params.language),
            opt_view(language_params.model),
            available_languages@,
            default_language@,
        ) {
            Ok(rec) => r matches Ok(m) && m@ == rec,
            Err(f) => invalid_request(r, failure_message(f)),
        },
{
    match resolve(language_params, available_languages, default_language) {
        Ok(m) => Ok(m),
        Err(e) => Err(ErrorType::InvalidRequest(e.message())),
    }
}

/// The content types that an upload may declare.
pub open spec fn is_allowed_file_type(t: Seq<char>) -> bool {
    t == "image/png"@ || t == "image/jpg"@ || t == "image/jpeg"@ || t == "image/webp"@ || t
        == "image/gif"@
}

/// The allowed content types, as listed to the caller.
pub open spec fn allowed_file_types_list() -> Seq<char> {
    "image/png,image/jpg,image/jpeg,image/webp,image/gif"@
}

/// The message that rejects a content type.
pub open spec fn invalid_file_type_message(t: Seq<char>) -> Seq<char> {
    "Invalid file type: "@ + t + ". File types allowed: "@ + allowed_file_types_list()
}

/// Checks the content type that an upload declares against the allowed ones.
pub fn validate_file_type(file_type: &str) -> (r: Result<(), ErrorType>)
    ensures
        is_allowed_file_type(file_type@) ==> r is Ok,
        !is_allowed_file_type(file_type@) ==> invalid_request(
            r,
            invalid_file_type_message(file_type@),
        ),
{
    if str_equal(file_type, "image/png") || str_equal(file_type, "image/jpg") || str_equal(
        file_type,
        "image/jpeg",
    ) || str_equal(file_type, "image/webp") || str_equal(file_type, "image/gif") {
        return Ok(());
    }
    let mut msg = "Invalid file type: ".to_owned();
    msg.append(file_type);
    msg.append(". File types allowed: ");
    msg.append("image/png,image/jpg,image/jpeg,image/webp,image/gif");
    Err(ErrorType::InvalidRequest(msg))
}

/// Checks the content type of an uploaded part, which must be declared.
pub fn validate_content_type(content_type: Option<&str>) -> (r: Result<(), ErrorType>)
    ensures
        match content_type {
            None => invalid_request(r, "no content type provided"@),
            Some(t) => if is_allowed_file_type(t@) {
                r is Ok
            } else {
                invalid_request(r, invalid_file_type_message(t@))
            },
        },
{
    match content_type {
        Some(t) => validate_file_type(t),
        None => Err(ErrorType::InvalidRequest("no content type provided".to_owned())),
    }
}

} // verus!
