//! The model catalog: recognizing installed model files in a directory
//! listing and presenting them as a deterministically ordered list.
//!
//! The external tool's models are identified by their network weight files,
//! so a directory entry counts as a model exactly when its extension is on
//! the fixed whitelist (`bin`). The catalog is sorted by display name,
//! ascending and case-insensitive; entries whose names fold to the same key
//! keep the order of the listing, so discovery is a pure function of the
//! listing handed in.

use vstd::prelude::*;
use vstd::seq_lib::group_to_multiset_ensures;
use vstd::seq_lib::lemma_multiset_commutative;
use vstd::string::StrSliceExecFns;
use vstd::string::StringExecFns;

use crate::error::Error;
use crate::paths::extension;
use crate::paths::join_dir;
use crate::paths::join_dir_exec;
use crate::paths::last_dot_index;
use crate::paths::lemma_last_dot_bounds;
use crate::paths::stem;
use crate::paths::stem_exec;
use crate::text::lemma_lex_lt_asym;
use crate::text::lemma_lex_lt_trans;
use crate::text::lex_lt;
use crate::text::lex_lt_exec;
use crate::text::str_eq;

verus! {

/// One discovered upscaling model: a display name and the path of its file.
#[derive(Debug)]
pub struct Model {
    pub name: String,
    pub file_path: String,
}

/// The mathematical content of a `Model`.
#[verifier::ext_equal]
pub ghost struct ModelView {
    pub name: Seq<char>,
    pub file_path: Seq<char>,
}

impl View for Model {
    type V = ModelView;

    open spec fn view(&self) -> ModelView {
        ModelView { name: self.name@, file_path: self.file_path@ }
    }
}

impl DeepView for Model {
    type V = ModelView;

    open spec fn deep_view(&self) -> ModelView {
        self@
    }
}

impl Clone for Model {
    fn clone(&self) -> (r: Self)
        ensures
            r == *self,
    {
        Model { name: self.name.clone(), file_path: self.file_path.clone() }
    }
}

impl PartialEq for Model {
    /// Models compare by identity, which is their file path.
    fn eq(&self, other: &Model) -> bool {
        str_eq(self.file_path.as_str(), other.file_path.as_str())
    }
}

impl vstd::std_specs::cmp::PartialEqSpecImpl for Model {
    open spec fn obeys_eq_spec() -> bool {
        true
    }

    open spec fn eq_spec(&self, other: &Model) -> bool {
        self.file_path@ == other.file_path@
    }
}

/// Whether a directory entry is a recognizable model file.
pub open spec fn is_model_file(fname: Seq<char>) -> bool {
    extension(fname) == "bin"@
}

/// The model a recognized directory entry stands for: its display name is the
/// file's stem, its path the entry joined onto the directory.
pub open spec fn model_of(dir: Seq<char>, fname: Seq<char>) -> ModelView {
    ModelView { name: stem(fname), file_path: join_dir(dir, fname) }
}

/// The models recognized in a directory listing, in listing order.
pub open spec fn recognized_models(dir: Seq<char>, names: Seq<Seq<char>>) -> Seq<ModelView>
    decreases names.len(),
{
    if names.len() == 0 {
        Seq::empty()
    } else {
        let rest = recognized_models(dir, names.drop_last());
        if is_model_file(names.last()) {
            rest.push(model_of(dir, names.last()))
        } else {
            rest
        }
    }
}

/// Sorted by display name, ascending and case-insensitive.
pub open spec fn models_sorted(s: Seq<ModelView>) -> bool {
    forall|i: int, j: int| 0 <= i < j < s.len() ==> !lex_lt(s[j].name, s[i].name)
}

/// `m` placed into an already sorted sequence: before the first entry it
/// strictly precedes, after every entry whose name folds equal.
pub open spec fn insert_sorted(s: Seq<ModelView>, m: ModelView) -> Seq<ModelView>
    decreases s.len(),
{
    if s.len() == 0 {
        seq![m]
    } else if lex_lt(m.name, s[0].name) {
        seq![m] + s
    } else {
        seq![s[0]] + insert_sorted(s.drop_first(), m)
    }
}

/// Insertion sort of the recognized models: stable, so the catalog order is a
/// function of the listing alone.
pub open spec fn sort_models(s: Seq<ModelView>) -> Seq<ModelView>
    decreases s.len(),
{
    if s.len() == 0 {
        Seq::empty()
    } else {
        insert_sorted(sort_models(s.drop_last()), s.last())
    }
}

pub proof fn lemma_insert_sorted_props(s: Seq<ModelView>, m: ModelView)
    requires
        models_sorted(s),
    ensures
        models_sorted(insert_sorted(s, m)),
        insert_sorted(s, m).to_multiset() == s.to_multiset().insert(m),
        insert_sorted(s, m).len() == s.len() + 1,
    decreases s.len(),
{
    broadcast use group_to_multiset_ensures;

    let r = insert_sorted(s, m);
    if s.len() == 0 {
        assert(seq![m] =~= Seq::<ModelView>::empty().push(m));
        assert(r.to_multiset() =~= s.to_multiset().insert(m));
    } else if lex_lt(m.name, s[0].name) {
        lemma_multiset_commutative(seq![m], s);
        assert(seq![m] =~= Seq::<ModelView>::empty().push(m));
        assert(r.to_multiset() =~= s.to_multiset().insert(m));
        assert forall|i: int, j: int| 0 <= i < j < r.len() implies !lex_lt(
            r[j].name,
            r[i].name,
        ) by {
            if i == 0 {
                assert(r[j] == s[j - 1]);
                if j > 1 {
                    assert(!lex_lt(s[j - 1].name, s[0].name));
                    if lex_lt(s[j - 1].name, m.name) {
                        lemma_lex_lt_trans(s[j - 1].name, m.name, s[0].name);
                    }
                } else {
                    lemma_lex_lt_asym(m.name, s[0].name);
                }
            } else {
                assert(r[i] == s[i - 1] && r[j] == s[j - 1]);
            }
        }
    } else {
        let tail = s.drop_first();
        assert(models_sorted(tail)) by {
            assert forall|i: int, j: int| 0 <= i < j < tail.len() implies !lex_lt(
                tail[j].name,
                tail[i].name,
            ) by {
                assert(tail[i] == s[i + 1] && tail[j] == s[j + 1]);
            }
        }
        lemma_insert_sorted_props(tail, m);
        let t = insert_sorted(tail, m);
        lemma_multiset_commutative(seq![s[0]], t);
        assert(seq![s[0]] =~= Seq::<ModelView>::empty().push(s[0]));
        assert(s =~= seq![s[0]] + tail);
        lemma_multiset_commutative(seq![s[0]], tail);
        assert(r.to_multiset() =~= s.to_multiset().insert(m));
        assert forall|i: int, j: int| 0 <= i < j < r.len() implies !lex_lt(
            r[j].name,
            r[i].name,
        ) by {
            if i == 0 {
                let x = r[j];
                assert(t[j - 1] == x);
                assert(t.contains(x));
                assert(t.to_multiset().count(x) > 0);
                if x == m {
                    assert(!lex_lt(m.name, s[0].name));
                } else {
                    assert(tail.to_multiset().count(x) > 0);
                    assert(tail.contains(x));
                    let k = choose|k: int| 0 <= k < tail.len() && tail[k] == x;
                    assert(tail[k] == s[k + 1]);
                    assert(!lex_lt(s[k + 1].name, s[0].name));
                }
            } else {
                assert(r[i] == t[i - 1] && r[j] == t[j - 1]);
            }
        }
    }
}

/// The catalog order is well defined: sorting the recognized models keeps
/// exactly the recognized models (as a multiset) and yields a list sorted by
/// display name, ascending and case-insensitive. Together with discovery
/// being a function of the listing alone, repeated discovery on an unchanged
/// directory returns the same catalog.
pub proof fn lemma_sort_models_props(s: Seq<ModelView>)
    ensures
        models_sorted(sort_models(s)),
        sort_models(s).to_multiset() == s.to_multiset(),
        sort_models(s).len() == s.len(),
    decreases s.len(),
{
    broadcast use group_to_multiset_ensures;

    if s.len() == 0 {
        assert(sort_models(s).to_multiset() =~= s.to_multiset());
    } else {
        lemma_sort_models_props(s.drop_last());
        lemma_insert_sorted_props(sort_models(s.drop_last()), s.last());
        assert(s =~= s.drop_last().push(s.last()));
        assert(sort_models(s).to_multiset() =~= s.to_multiset());
    }
}

fn has_model_extension(fname: &str) -> (r: bool)
    ensures
        r == is_model_file(fname@),
{
    match last_dot_index(fname) {
        None => {
            proof {
                reveal_strlit("bin");
                assert(extension(fname@).len() == 0);
                assert("bin"@.len() == 3);
            }
            false
        },
        Some(d) => {
            let len = fname.unicode_len();
            proof {
                lemma_last_dot_bounds(fname@);
            }
            let ext = fname.substring_char(d + 1, len);
            proof {
                assert(fname@.subrange((d + 1) as int, len as int) =~= extension(fname@));
                assert(ext@ == extension(fname@));
            }
            let b = str_eq(ext, "bin");
            proof {
                assert(b == is_model_file(fname@));
            }
            b
        },
    }
}

fn insert_model(v: Vec<Model>, m: Model) -> (r: Vec<Model>)
    ensures
        r.deep_view() == insert_sorted(v.deep_view(), m@),
    decreases v.len(),
{
    let ghost v0 = v.deep_view();
    if v.len() == 0 {
        let mut r = v;
        r.push(m);
        proof {
            assert(r.deep_view() =~= insert_sorted(v0, m@));
        }
        r
    } else if lex_lt_exec(m.name.as_str(), v[0].name.as_str()) {
        let mut r = v;
        r.insert(0, m);
        proof {
            assert(r.deep_view() =~= seq![m@] + v0);
        }
        r
    } else {
        let mut v2 = v;
        let first = v2.remove(0);
        proof {
            assert(v2.deep_view() =~= v0.drop_first());
        }
        let mut r = insert_model(v2, m);
        r.insert(0, first);
        proof {
            assert(r.deep_view() =~= seq![v0[0]] + insert_sorted(v0.drop_first(), m@));
        }
        r
    }
}

fn sort_models_exec(models: Vec<Model>) -> (r: Vec<Model>)
    ensures
        r.deep_view() == sort_models(models.deep_view()),
{
    let mut acc: Vec<Model> = Vec::new();
    let mut i: usize = 0;
    proof {
        assert(models.deep_view().take(0) =~= Seq::<ModelView>::empty());
        assert(acc.deep_view() =~= Seq::<ModelView>::empty());
    }
    while i < models.len()
        invariant
            i <= models.len(),
            acc.deep_view() == sort_models(models.deep_view().take(i as int)),
        decreases models.len() - i,
    {
        let m = models[i].clone();
        acc = insert_model(acc, m);
        proof {
            let dv = models.deep_view();
            assert(dv.take(i + 1).drop_last() =~= dv.take(i as int));
            assert(dv.take(i + 1).last() == dv[i as int]);
        }
        i = i + 1;
    }
    proof {
        assert(models.deep_view().take(models.len() as int) =~= models.deep_view());
    }
    acc
}

/// Discovers the installed models from a directory listing.
///
/// The caller lists the model directory and hands the entries' file names in
/// here, or `None` when the directory does not exist. Fails with
/// `ModelsFolderNotFound` when the directory does not exist and with
/// `NoModels` when it holds no recognizable model file; otherwise returns the
/// recognized models sorted by display name, ascending and case-insensitive,
/// entries with equal keys keeping listing order. Repeated calls on the same
/// listing return the same catalog.
pub fn discover(models_dir: &str, listing: Option<Vec<String>>) -> (r: Result<Vec<Model>, Error>)
    ensures
        match r {
            Ok(models) => {
                &&& listing is Some
                &&& recognized_models(models_dir@, listing->0.deep_view()).len() > 0
                &&& models.deep_view() == sort_models(
                    recognized_models(models_dir@, listing->0.deep_view()),
                )
            },
            Err(e) => match listing {
                None => e matches Error::ModelsFolderNotFound(u, d) && u is None && d@
                    == models_dir@,
                Some(l) => {
                    &&& recognized_models(models_dir@, l.deep_view()).len() == 0
                    &&& e matches Error::NoModels(u, d) && u is None && d@ == models_dir@
                },
            },
        },
{
    let names = match listing {
        None => {
            return Err(Error::ModelsFolderNotFound(None, models_dir.to_owned()));
        },
        Some(names) => names,
    };
    let mut found: Vec<Model> = Vec::new();
    let mut i: usize = 0;
    proof {
        assert(recognized_models(models_dir@, names.deep_view().take(0)) =~= Seq::<
            ModelView,
        >::empty());
        assert(found.deep_view() =~= Seq::<ModelView>::empty());
    }
    while i < names.len()
        invariant
            i <= names.len(),
            found.deep_view() == recognized_models(models_dir@, names.deep_view().take(i as int)),
        decreases names.len() - i,
    {
        let fname = &names[i];
        proof {
            let nv = names.deep_view();
            assert(nv.take(i + 1).drop_last() =~= nv.take(i as int));
            assert(nv.take(i + 1).last() == nv[i as int]);
        }
        if has_model_extension(fname.as_str()) {
            let name = stem_exec(fname.as_str());
            let file_path = join_dir_exec(models_dir, fname.as_str());
            let ghost old_found = found.deep_view();
            found.push(Model { name, file_path });
            proof {
                assert(found.deep_view() =~= old_found.push(
                    model_of(models_dir@, names.deep_view()[i as int]),
                ));
            }
        }
        i = i + 1;
    }
    proof {
        assert(names.deep_view().take(names.len() as int) =~= names.deep_view());
    }
    if found.len() == 0 {
        proof {
            assert(recognized_models(models_dir@, names.deep_view()) =~= found.deep_view());
        }
        return Err(Error::NoModels(None, models_dir.to_owned()));
    }
    Ok(sort_models_exec(found))
}

} // verus!
