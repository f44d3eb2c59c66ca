use vstd::prelude::*;

use crate::catalog::{has_key, insert_record, keys_unique, Catalog};
use crate::models::{opt_view, ModelRecord, TesseractModel};
use crate::text::{has_prefix, has_suffix, is_prefix, is_suffix, strip_prefix, strip_suffix};

verus! {

/// One entry met while walking the data directory, as plain values.
#[derive(Debug)]
pub struct WalkEntry {
    /// 1 for an entry directly under the data directory, 2 one level down.
    pub depth: usize,
    /// The entry's full path.
    pub path: String,
    /// Whether the entry is a regular file.
    pub is_file: bool,
    /// The entry's file name, when it is valid Unicode.
    pub file_name: Option<String>,
    /// The name of the directory that holds the entry, when it is valid Unicode.
    pub parent_name: Option<String>,
}

/// The extension of a model file.
pub open spec fn model_extension() -> Seq<char> {
    ".traineddata"@
}

/// A file name that is not hidden.
pub open spec fn is_non_hidden(name: Seq<char>) -> bool {
    !is_prefix("."@, name)
}

/// A file name with the model extension.
pub open spec fn is_traineddata(name: Seq<char>) -> bool {
    is_suffix(model_extension(), name)
}

/// A file name without the model extension.
pub open spec fn stem(name: Seq<char>) -> Seq<char> {
    name.subrange(0, name.len() - model_extension().len())
}

/// The path of a model file relative to the data directory, without a leading
/// separator and without the extension; empty when `path` is not under `root`
/// or lacks the extension.
pub open spec fn relative_path_of(root: Seq<char>, path: Seq<char>) -> Seq<char> {
    if is_prefix(root, path) {
        let rest = path.subrange(root.len() as int, path.len() as int);
        let rest = if is_prefix("/"@, rest) {
            rest.subrange("/"@.len() as int, rest.len() as int)
        } else {
            rest
        };
        if is_suffix(model_extension(), rest) {
            rest.subrange(0, rest.len() - model_extension().len())
        } else {
            Seq::empty()
        }
    } else {
        Seq::empty()
    }
}

/// The record that an entry stands for, if it is a model file: one directly
/// under the data directory is the unqualified model of the language its name
/// gives; one inside a directory is the model its name gives of the language
/// that the directory names.
pub open spec fn entry_record(root: Seq<char>, e: WalkEntry) -> Option<ModelRecord> {
    match e.file_name {
        None => None,
        Some(name) => if !e.is_file || !is_non_hidden(name@) || !is_traineddata(name@) {
            None
        } else if e.depth == 1 {
            Some(
                ModelRecord {
                    language: stem(name@),
                    model: None,
                    full_path: Some(e.path@),
                    relative_path: Some(relative_path_of(root, e.path@)),
                },
            )
        } else if e.depth == 2 {
            match e.parent_name {
                Some(dir) => Some(
                    ModelRecord {
                        language: dir@,
                        model: Some(stem(name@)),
                        full_path: Some(e.path@),
                        relative_path: Some(relative_path_of(root, e.path@)),
                    },
                ),
                None => None,
            }
        } else {
            None
        },
    }
}

/// The catalog built from the entries in the order met: the first entry of
/// each language and model wins.
pub open spec fn catalog_of(root: Seq<char>, entries: Seq<WalkEntry>) -> Seq<ModelRecord>
    decreases entries.len(),
{
    if entries.len() == 0 {
        Seq::empty()
    } else {
        let prev = catalog_of(root, entries.drop_last());
        match entry_record(root, entries.last()) {
            Some(r) => insert_record(prev, r),
            None => prev,
        }
    }
}

/// A catalog built from any entries holds each language and model at most once.
pub proof fn lemma_catalog_keys_unique(root: Seq<char>, entries: Seq<WalkEntry>)
    ensures
        keys_unique(catalog_of(root, entries)),
    decreases entries.len(),
{
    if entries.len() > 0 {
        let prev = catalog_of(root, entries.drop_last());
        lemma_catalog_keys_unique(root, entries.drop_last());
        match entry_record(root, entries.last()) {
            Some(r) => {
                if !has_key(prev, r.key()) {
                    let next = prev.push(r);
                    assert forall|i: int, j: int|
                        0 <= i < next.len() && 0 <= j < next.len() && i != j implies next[i].key()
                        != next[j].key() by {
                        if i == prev.len() {
                            assert(prev[j].key() != r.key());
                        } else if j == prev.len() {
                            assert(prev[i].key() != r.key());
                        }
                    }
                }
            },
            None => {},
        }
    }
}

/// Every model file met while walking has its language and model in the catalog.
pub proof fn lemma_catalog_complete(root: Seq<char>, entries: Seq<WalkEntry>, j: int)
    requires
        0 <= j < entries.len(),
        entry_record(root, entries[j]) is Some,
    ensures
        has_key(catalog_of(root, entries), entry_record(root, entries[j])->0.key()),
    decreases entries.len(),
{
    let prev = catalog_of(root, entries.drop_last());
    let k = entry_record(root, entries[j])->0.key();
    if j < entries.len() - 1 {
        lemma_catalog_complete(root, entries.drop_last(), j);
        let i = choose|i: int| 0 <= i < prev.len() && prev[i].key() == k;
        match entry_record(root, entries.last()) {
            Some(r) => {
                if !has_key(prev, r.key()) {
                    assert(prev.push(r)[i].key() == k);
                }
            },
            None => {},
        }
    } else {
        let r = entry_record(root, entries.last())->0;
        if !has_key(prev, r.key()) {
            assert(prev.push(r)[prev.len() as int].key() == k);
        }
    }
}

/// Every record of the catalog is the record of the first entry met with its
/// language and model.
pub proof fn lemma_catalog_first_seen(root: Seq<char>, entries: Seq<WalkEntry>, k: int)
    requires
        0 <= k < catalog_of(root, entries).len(),
    ensures
        exists|j: int|
            0 <= j < entries.len() && entry_record(root, #[trigger] entries[j]) == Some(
                catalog_of(root, entries)[k],
            ) && forall|i: int|
                0 <= i < j && entry_record(root, #[trigger] entries[i]) is Some ==> entry_record(
                    root,
                    entries[i],
                )->0.key() != catalog_of(root, entries)[k].key(),
    decreases entries.len(),
{
    let t = entries.drop_last();
    let prev = catalog_of(root, t);
    let c = catalog_of(root, entries);
    if k < prev.len() {
        lemma_catalog_first_seen(root, t, k);
        assert(c[k] == prev[k]);
        let j = choose|j: int|
            0 <= j < t.len() && entry_record(root, #[trigger] t[j]) == Some(prev[k]) && forall|
                i: int,
            |
                0 <= i < j && entry_record(root, #[trigger] t[i]) is Some ==> entry_record(
                    root,
                    t[i],
                )->0.key() != prev[k].key();
        assert(entries[j] == t[j]);
        assert forall|i: int|
            0 <= i < j && entry_record(root, #[trigger] entries[i]) is Some implies entry_record(
                root,
                entries[i],
            )->0.key() != c[k].key() by {
            assert(entries[i] == t[i]);
        }
    } else {
        let j = entries.len() - 1;
        assert forall|i: int|
            0 <= i < j && entry_record(root, #[trigger] entries[i]) is Some implies entry_record(
                root,
                entries[i],
            )->0.key() != c[k].key() by {
            assert(entries[i] == t[i]);
            lemma_catalog_complete(root, t, i);
        }
    }
}

/// Whether a file name is not hidden.
pub fn is_non_hidden_file(name: &str) -> (r: bool)
    ensures
        r == is_non_hidden(name@),
{
    !has_prefix(name, ".")
}

/// Whether a file name carries the model extension.
pub fn is_traineddata_file(name: &str) -> (r: bool)
    ensures
        r == is_traineddata(name@),
{
    has_suffix(name, ".traineddata")
}

/// The path of a model file relative to the data directory.
pub fn relative_path(root: &str, path: &str) -> (r: String)
    ensures
        r@ == relative_path_of(root@, path@),
{
    match strip_prefix(path, root) {
        None => String::new(),
        Some(rest) => {
            let rest = match strip_prefix(rest, "/") {
                Some(r) => r,
                None => rest,
            };
            match strip_suffix(rest, ".traineddata") {
                Some(r) => r.to_owned(),
                None => String::new(),
            }
        },
    }
}

/// The record that an entry stands for, if it is a model file.
pub fn model_for_entry(data_path: &str, entry: &WalkEntry) -> (r: Option<TesseractModel>)
    ensures
        match r {
            Some(m) => entry_record(data_path@, *entry) == Some(m@),
            None => entry_record(data_path@, *entry) is None,
        },
{
    let name = match &entry.file_name {
        Some(n) => n.as_str(),
        None => return None,
    };
    if !entry.is_file || !is_non_hidden_file(name) || !is_traineddata_file(name) {
        return None;
    }
    let stem = match strip_suffix(name, ".traineddata") {
        Some(s) => s.to_owned(),
        None => return None,
    };
    let full_path = entry.path.clone();
    let relative = relative_path(data_path, entry.path.as_str());
    if entry.depth == 1 {
        Some(
            TesseractModel {
                language: stem,
                model: None,
                full_path: Some(full_path),
                relative_path: Some(relative),
            },
        )
    } else if entry.depth == 2 {
        match &entry.parent_name {
            Some(dir) => Some(
                TesseractModel {
                    language: dir.clone(),
                    model: Some(stem),
                    full_path: Some(full_path),
                    relative_path: Some(relative),
                },
            ),
            None => None,
        }
    } else {
        None
    }
}

/// Builds the catalog of installed models from the entries met while walking
/// the data directory `data_path`.
pub fn get_available_languages_with_models(data_path: &str, entries: &Vec<WalkEntry>) -> (r:
    Catalog)
    ensures
        r@ == catalog_of(data_path@, entries@),
{
    let mut languages = Catalog::new();
    let mut i: usize = 0;
    while i < entries.len()
        invariant
            i <= entries@.len(),
            languages@ == catalog_of(data_path@, entries@.subrange(0, i as int)),
        decreases entries@.len() - i,
    {
        proof {
            let next = entries@.subrange(0, i + 1);
            assert(next.drop_last() =~= entries@.subrange(0, i as int));
            assert(next.last() == entries@[i as int]);
        }
        match model_for_entry(data_path, &entries[i]) {
            Some(m) => {
                languages.insert(m);
            },
            None => {},
        }
        i = i + 1;
    }
    assert(entries@.subrange(0, entries@.len() as int) =~= entries@);
    languages
}

} // verus!
