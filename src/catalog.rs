use vstd::prelude::*;

use crate::models::{opt_view, views, ModelRecord, TesseractModel};
use crate::text::{
    chars_lt, lemma_chars_lt_total, lemma_chars_lt_transitive, str_lt,
};

verus! {

/// No two records share a language and a model.
pub open spec fn keys_unique(s: Seq<ModelRecord>) -> bool {
    forall|i: int, j: int|
        0 <= i < s.len() && 0 <= j < s.len() && i != j ==> s[i].key() != s[j].key()
}

/// Some record has the given language and model.
pub open spec fn has_key(s: Seq<ModelRecord>, k: (Seq<char>, Option<Seq<char>>)) -> bool {
    exists|i: int| 0 <= i < s.len() && s[i].key() == k
}

/// The catalog after offering it one record: a record whose key is already
/// present is skipped, any other is added at the end.
pub open spec fn insert_record(s: Seq<ModelRecord>, r: ModelRecord) -> Seq<ModelRecord> {
    if has_key(s, r.key()) {
        s
    } else {
        s.push(r)
    }
}

/// Order of optional model names: an absent name comes first.
pub open spec fn opt_lt(a: Option<Seq<char>>, b: Option<Seq<char>>) -> bool {
    match (a, b) {
        (None, Some(_)) => true,
        (Some(x), Some(y)) => chars_lt(x, y),
        _ => false,
    }
}

/// Order of records: by language, then by model.
pub open spec fn record_lt(x: ModelRecord, y: ModelRecord) -> bool {
    chars_lt(x.language, y.language) || (x.language == y.language && opt_lt(x.model, y.model))
}

/// The records are in strictly ascending order of language and model.
pub open spec fn sorted_by_key(s: Seq<ModelRecord>) -> bool {
    forall|i: int, j: int| 0 <= i < j < s.len() ==> record_lt(s[i], s[j])
}

proof fn lemma_record_lt_transitive(x: ModelRecord, y: ModelRecord, z: ModelRecord)
    requires
        record_lt(x, y),
        record_lt(y, z),
    ensures
        record_lt(x, z),
{
    if chars_lt(x.language, y.language) && chars_lt(y.language, z.language) {
        lemma_chars_lt_transitive(x.language, y.language, z.language);
    } else if x.language == y.language && y.language == z.language {
        match (x.model, y.model, z.model) {
            (Some(a), Some(b), Some(c)) => lemma_chars_lt_transitive(a, b, c),
            _ => {},
        }
    }
}

proof fn lemma_record_lt_total(x: ModelRecord, y: ModelRecord)
    requires
        x.key() != y.key(),
    ensures
        record_lt(x, y) || record_lt(y, x),
{
    lemma_chars_lt_total(x.language, y.language);
    match (x.model, y.model) {
        (Some(a), Some(b)) => lemma_chars_lt_total(a, b),
        _ => {},
    }
}

proof fn lemma_insert_sorted(u: Seq<ModelRecord>, p: int, v: ModelRecord)
    requires
        sorted_by_key(u),
        0 <= p <= u.len(),
        forall|k: int| 0 <= k < p ==> record_lt(u[k], v),
        p < u.len() ==> record_lt(v, u[p]),
    ensures
        sorted_by_key(u.insert(p, v)),
{
    let t = u.insert(p, v);
    assert forall|i: int, j: int| 0 <= i < j < t.len() implies record_lt(t[i], t[j]) by {
        if i < p && j > p {
            assert(record_lt(u[i], u[j - 1]));
        } else if i == p && j > p + 1 {
            lemma_record_lt_transitive(v, u[p], u[j - 1]);
        } else if i > p {
            assert(record_lt(u[i - 1], u[j - 1]));
        }
    }
}

/// Whether a model comes strictly before another by language, then model.
pub fn model_lt(a: &TesseractModel, b: &TesseractModel) -> (r: bool)
    ensures
        r == record_lt(a@, b@),
{
    if str_lt(a.language.as_str(), b.language.as_str()) {
        return true;
    }
    if a.language != b.language {
        return false;
    }
    match (&a.model, &b.model) {
        (None, Some(_)) => true,
        (Some(x), Some(y)) => str_lt(x.as_str(), y.as_str()),
        _ => false,
    }
}

/// Whether two optional strings are equal.
pub fn opt_string_eq(a: &Option<String>, b: &Option<String>) -> (r: bool)
    ensures
        r == (opt_view(*a) == opt_view(*b)),
{
    match (a, b) {
        (Some(x), Some(y)) => x.eq(y),
        (None, None) => true,
        _ => false,
    }
}

/// The installed models, unique by language and model.
#[derive(Debug)]
pub struct Catalog {
    models: Vec<TesseractModel>,
}

impl View for Catalog {
    type V = Seq<ModelRecord>;

    closed spec fn view(&self) -> Seq<ModelRecord> {
        views(self.models@)
    }
}

impl Catalog {
    #[verifier::type_invariant]
    pub open spec fn inv(self) -> bool {
        keys_unique(self@)
    }

    /// An empty catalog.
    pub fn new() -> (r: Catalog)
        ensures
            r@ == Seq::<ModelRecord>::empty(),
    {
        let r = Catalog { models: Vec::new() };
        assert(r@ =~= Seq::<ModelRecord>::empty());
        r
    }

    /// The number of records.
    pub fn len(&self) -> (r: usize)
        ensures
            r == self@.len(),
    {
        self.models.len()
    }

    /// Whether the catalog holds no record.
    pub fn is_empty(&self) -> (r: bool)
        ensures
            r == (self@.len() == 0),
    {
        self.models.len() == 0
    }

    /// The record at position `i`.
    pub fn get(&self, i: usize) -> (r: &TesseractModel)
        requires
            i < self@.len(),
        ensures
            r@ == self@[i as int],
    {
        &self.models[i]
    }

    /// The position of the record with the given language and model, if any.
    pub fn position(&self, language: &String, model: &Option<String>) -> (r: Option<usize>)
        ensures
            r is Some ==> r->0 < self@.len() && self@[r->0 as int].key() == (language@, opt_view(*model)),
            r is None ==> !has_key(self@, (language@, opt_view(*model))),
    {
        let mut i: usize = 0;
        while i < self.models.len()
            invariant
                i <= self@.len(),
                self@.len() == self.models@.len(),
                forall|k: int| 0 <= k < i ==> self@[k].key() != (language@, opt_view(*model)),
            decreases self@.len() - i,
        {
            let m = &self.models[i];
            if m.language == *language && opt_string_eq(&m.model, model) {
                return Some(i);
            }
            i = i + 1;
        }
        None
    }

    /// Adds `model` unless a record with the same language and model is
    /// already present; tells whether it was added.
    pub fn insert(&mut self, model: TesseractModel) -> (added: bool)
        ensures
            added == !has_key(old(self)@, model@.key()),
            final(self)@ == insert_record(old(self)@, model@),
    {
        proof {
            use_type_invariant(&*self);
        }
        match self.position(&model.language, &model.model) {
            Some(_) => false,
            None => {
                let ghost r = model@;
                let mut taken = Catalog { models: Vec::new() };
                assert(taken@ =~= Seq::<ModelRecord>::empty());
                std::mem::swap(self, &mut taken);
                proof {
                    use_type_invariant(&taken);
                }
                let Catalog { mut models } = taken;
                models.push(model);
                let ghost pushed = old(self)@.push(r);
                assert(views(models@) =~= pushed);
                assert(keys_unique(pushed)) by {
                    assert forall|i: int, j: int|
                        0 <= i < pushed.len() && 0 <= j < pushed.len() && i != j
                        implies pushed[i].key() != pushed[j].key() by {
                        if i == pushed.len() - 1 {
                            assert(old(self)@[j].key() != r.key());
                        } else if j == pushed.len() - 1 {
                            assert(old(self)@[i].key() != r.key());
                        }
                    }
                }
                let next = Catalog { models };
                *self = next;
                true
            }
        }
    }

    /// The records in ascending order of language, then model (an absent
    /// model first), copied.
    pub fn sorted(&self) -> (r: Vec<TesseractModel>)
        ensures
            sorted_by_key(views(r@)),
            r@.len() == self@.len(),
            forall|k: int| 0 <= k < r@.len() ==> self@.contains(#[trigger] r@[k]@),
            forall|j: int| 0 <= j < self@.len() ==> views(r@).contains(#[trigger] self@[j]),
    {
        proof {
            use_type_invariant(self);
        }
        let ghost s = self@;
        let n = self.models.len();
        let mut out: Vec<TesseractModel> = Vec::new();
        let mut i: usize = 0;
        while i < n
            invariant
                n == s.len(),
                s == self@,
                keys_unique(s),
                i <= n,
                out@.len() == i,
                sorted_by_key(views(out@)),
                forall|k: int| 0 <= k < out@.len() ==> exists|j: int| 0 <= j < i && #[trigger] out@[k]@ == s[j],
                forall|j: int| 0 <= j < i ==> views(out@).contains(#[trigger] s[j]),
            decreases n - i,
        {
            let x = self.models[i].clone();
            assert(x@ == s[i as int]);
            let mut p: usize = 0;
            while p < out.len() && !model_lt(&x, &out[p])
                invariant
                    p <= out@.len(),
                    forall|k: int| 0 <= k < p ==> !record_lt(x@, #[trigger] out@[k]@),
                decreases out@.len() - p,
            {
                p = p + 1;
            }
            let ghost u = views(out@);
            proof {
                assert forall|k: int| 0 <= k < p implies record_lt(u[k], x@) by {
                    let j = choose|j: int| 0 <= j < i && out@[k]@ == s[j];
                    assert(s[j].key() != s[i as int].key());
                    lemma_record_lt_total(u[k], x@);
                }
                lemma_insert_sorted(u, p as int, x@);
            }
            let ghost before = out@;
            out.insert(p, x);
            proof {
                assert(views(out@) =~= u.insert(p as int, x@));
                assert forall|k: int| 0 <= k < out@.len() implies exists|j: int|
                    0 <= j < i + 1 && #[trigger] out@[k]@ == s[j] by {
                    if k < p {
                        assert(out@[k] == before[k]);
                    } else if k == p {
                        assert(out@[k]@ == s[i as int]);
                    } else {
                        assert(out@[k] == before[k - 1]);
                    }
                }
                assert forall|j: int| 0 <= j < i + 1 implies views(out@).contains(#[trigger] s[j]) by {
                    if j < i {
                        let k = choose|k: int| 0 <= k < u.len() && u[k] == s[j];
                        if k < p {
                            assert(views(out@)[k] == s[j]);
                        } else {
                            assert(views(out@)[k + 1] == s[j]);
                        }
                    } else {
                        assert(views(out@)[p as int] == s[j]);
                    }
                }
            }
            i = i + 1;
        }
        out
    }

    /// The records in catalog order, copied.
    pub fn to_vec(&self) -> (r: Vec<TesseractModel>)
        ensures
            views(r@) == self@,
    {
        let mut out: Vec<TesseractModel> = Vec::new();
        let mut i: usize = 0;
        while i < self.models.len()
            invariant
                i <= self@.len(),
                self@.len() == self.models@.len(),
                views(out@) == self@.subrange(0, i as int),
            decreases self@.len() - i,
        {
            let c = self.models[i].clone();
            let ghost prev = out@;
            out.push(c);
            assert(out@ == prev.push(c));
            assert(views(prev).push(c@) =~= views(out@));
            assert(views(out@) =~= self@.subrange(0, i + 1));
            i = i + 1;
        }
        assert(self@.subrange(0, self@.len() as int) =~= self@);
        out
    }
}

} // verus!
