use ocr_service::catalog::Catalog;
use ocr_service::languages::{
    get_available_languages_with_models, is_non_hidden_file, is_traineddata_file, relative_path,
    WalkEntry,
};
use ocr_service::models::TesseractModel;

const ROOT: &str = "/data/tessdata";

fn file(depth: usize, parent: &str, name: &str) -> WalkEntry {
    WalkEntry {
        depth,
        path: format!("{}/{}", parent, name),
        is_file: true,
        file_name: Some(name.to_string()),
        parent_name: parent.rsplit('/').next().map(|p| p.to_string()),
    }
}

fn dir(depth: usize, parent: &str, name: &str) -> WalkEntry {
    WalkEntry {
        is_file: false,
        ..file(depth, parent, name)
    }
}

fn keys(catalog: &Catalog) -> Vec<(String, Option<String>)> {
    let mut out: Vec<(String, Option<String>)> = catalog
        .to_vec()
        .into_iter()
        .map(|m| (m.language, m.model))
        .collect();
    out.sort();
    out
}

fn sample_tree() -> Vec<WalkEntry> {
    let sub = format!("{}/chi_sim", ROOT);
    vec![
        file(1, ROOT, "eng.traineddata"),
        file(1, ROOT, "fra.traineddata"),
        dir(1, ROOT, "chi_sim"),
        file(2, &sub, "fast.traineddata"),
        file(2, &sub, "best.traineddata"),
        file(1, ROOT, "invalid.txt"),
        file(1, ROOT, ".hidden.traineddata"),
    ]
}

#[test]
fn test_hashset_collection() {
    let actual_models = get_available_languages_with_models(ROOT, &sample_tree());
    assert_eq!(actual_models.len(), 4);
}

#[test]
fn catalog_holds_exactly_the_model_files() {
    let catalog = get_available_languages_with_models(ROOT, &sample_tree());
    assert_eq!(
        keys(&catalog),
        vec![
            ("chi_sim".to_string(), Some("best".to_string())),
            ("chi_sim".to_string(), Some("fast".to_string())),
            ("eng".to_string(), None),
            ("fra".to_string(), None),
        ]
    );
}

#[test]
fn catalog_records_carry_paths() {
    let catalog = get_available_languages_with_models(ROOT, &sample_tree());
    let records = catalog.to_vec();
    let fast = records
        .iter()
        .find(|m| m.model.as_deref() == Some("fast"))
        .unwrap();
    assert_eq!(fast.language, "chi_sim");
    assert_eq!(
        fast.full_path,
        Some("/data/tessdata/chi_sim/fast.traineddata".to_string())
    );
    assert_eq!(fast.relative_path, Some("chi_sim/fast".to_string()));
    let eng = records.iter().find(|m| m.language == "eng").unwrap();
    assert_eq!(eng.relative_path, Some("eng".to_string()));
}

#[test]
fn first_seen_duplicate_wins() {
    let other = "/data/other";
    let entries = vec![
        file(1, ROOT, "eng.traineddata"),
        WalkEntry {
            path: format!("{}/eng.traineddata", other),
            ..file(1, ROOT, "eng.traineddata")
        },
    ];
    let catalog = get_available_languages_with_models(ROOT, &entries);
    assert_eq!(catalog.len(), 1);
    assert_eq!(
        catalog.get(0).full_path,
        Some("/data/tessdata/eng.traineddata".to_string())
    );
}

#[test]
fn unqualified_and_qualified_models_are_distinct() {
    let sub = format!("{}/eng", ROOT);
    let entries = vec![
        file(1, ROOT, "eng.traineddata"),
        dir(1, ROOT, "eng"),
        file(2, &sub, "eng.traineddata"),
        file(2, &sub, "fast.traineddata"),
    ];
    let catalog = get_available_languages_with_models(ROOT, &entries);
    assert_eq!(
        keys(&catalog),
        vec![
            ("eng".to_string(), None),
            ("eng".to_string(), Some("eng".to_string())),
            ("eng".to_string(), Some("fast".to_string())),
        ]
    );
}

#[test]
fn deeper_entries_and_odd_names_are_ignored() {
    let deep = format!("{}/chi_sim/extra", ROOT);
    let entries = vec![
        file(3, &deep, "deep.traineddata"),
        WalkEntry {
            file_name: None,
            ..file(1, ROOT, "bad.traineddata")
        },
        WalkEntry {
            parent_name: None,
            ..file(2, ROOT, "orphan.traineddata")
        },
        file(1, ROOT, "traineddata"),
    ];
    let catalog = get_available_languages_with_models(ROOT, &entries);
    assert!(catalog.is_empty());
}

#[test]
fn empty_walk_gives_empty_catalog() {
    let catalog = get_available_languages_with_models(ROOT, &Vec::new());
    assert_eq!(catalog.len(), 0);
}

#[test]
fn file_name_filters() {
    assert!(is_non_hidden_file("eng.traineddata"));
    assert!(!is_non_hidden_file(".eng.traineddata"));
    assert!(is_traineddata_file("eng.traineddata"));
    assert!(!is_traineddata_file("eng.traineddata.bak"));
    assert!(!is_traineddata_file("eng.txt"));
}

#[test]
fn relative_paths() {
    assert_eq!(relative_path("/a/b", "/a/b/eng.traineddata"), "eng");
    assert_eq!(relative_path("/a/b/", "/a/b/x/fast.traineddata"), "x/fast");
    assert_eq!(relative_path("/a/b", "/c/eng.traineddata"), "");
    assert_eq!(relative_path("/a/b", "/a/b/eng.txt"), "");
}

fn record(language: &str, model: Option<&str>) -> TesseractModel {
    TesseractModel {
        language: language.to_string(),
        model: model.map(|m| m.to_string()),
        full_path: None,
        relative_path: None,
    }
}

#[test]
fn listing_is_sorted_by_language_then_model() {
    let mut catalog = Catalog::new();
    catalog.insert(record("spa", Some("fast")));
    catalog.insert(record("eng", Some("fast")));
    catalog.insert(record("chi_sim", None));
    catalog.insert(record("eng", None));
    catalog.insert(record("eng", Some("best")));
    catalog.insert(record("chi", Some("a")));
    let listed: Vec<(String, Option<String>)> = catalog
        .sorted()
        .into_iter()
        .map(|m| (m.language, m.model))
        .collect();
    assert_eq!(
        listed,
        vec![
            ("chi".to_string(), Some("a".to_string())),
            ("chi_sim".to_string(), None),
            ("eng".to_string(), None),
            ("eng".to_string(), Some("best".to_string())),
            ("eng".to_string(), Some("fast".to_string())),
            ("spa".to_string(), Some("fast".to_string())),
        ]
    );
}

#[test]
fn catalog_insert_skips_existing_keys() {
    let mut catalog = Catalog::new();
    assert!(catalog.insert(record("eng", None)));
    assert!(!catalog.insert(record("eng", None)));
    assert!(catalog.insert(record("eng", Some("fast"))));
    assert_eq!(catalog.len(), 2);
    assert_eq!(catalog.position(&"eng".to_string(), &Some("fast".to_string())), Some(1));
    assert_eq!(catalog.position(&"deu".to_string(), &None), None);
}
