//! The JSON value tree that the descriptor model is mapped from and to.
//!
//! Numbers are held as their decimal lexeme (the wire text of the number), so
//! that any wire number survives a round trip without a floating-point
//! representation in the model.

use vstd::prelude::*;

verus! {

broadcast use vstd::std_specs::vec::group_vec_axioms, vstd::seq::group_seq_axioms;

/// A JSON value.
///
/// Objects are held as a sequence of key/value entries; a well-formed tree
/// (see [`jwf`]) keeps each object strictly sorted by key, which makes the
/// keys unique and the serialized form canonical.
#[derive(Debug, PartialEq)]
pub enum Json {
    Null,
    Bool(bool),
    /// A number, as its decimal/exponent lexeme, e.g. `"12"` or `"-0.5e3"`.
    Num(String),
    Str(String),
    Arr(Vec<Json>),
    Obj(Vec<(String, Json)>),
}

/// The mathematical model of a JSON tree.
#[verifier::ext_equal]
pub enum JsonV {
    Null,
    Bool(bool),
    Num(Seq<char>),
    Str(Seq<char>),
    Arr(Seq<JsonV>),
    Obj(Seq<(Seq<char>, JsonV)>),
}

/// The model of an executable JSON tree.
pub open spec fn jview(j: Json) -> JsonV
    decreases j,
{
    match j {
        Json::Null => JsonV::Null,
        Json::Bool(b) => JsonV::Bool(b),
        Json::Num(s) => JsonV::Num(s@),
        Json::Str(s) => JsonV::Str(s@),
        Json::Arr(items) => {
            proof {
                assert(decreases_to!(items => items@));
            }
            JsonV::Arr(jview_arr(items@))
        },
        Json::Obj(entries) => {
            proof {
                assert(decreases_to!(entries => entries@));
            }
            JsonV::Obj(jview_obj(entries@))
        },
    }
}

/// The models of the elements of a JSON array.
pub open spec fn jview_arr(items: Seq<Json>) -> Seq<JsonV>
    decreases items,
{
    if items.len() == 0 {
        Seq::empty()
    } else {
        seq![jview(items[0])] + jview_arr(items.drop_first())
    }
}

/// The models of the entries of a JSON object.
pub open spec fn jview_obj(entries: Seq<(String, Json)>) -> Seq<(Seq<char>, JsonV)>
    decreases entries,
{
    if entries.len() == 0 {
        Seq::empty()
    } else {
        seq![(entries[0].0@, jview(entries[0].1))] + jview_obj(entries.drop_first())
    }
}

impl DeepView for Json {
    type V = JsonV;

    open spec fn deep_view(&self) -> JsonV {
        jview(*self)
    }
}

pub broadcast proof fn lemma_jview_arr_len(items: Seq<Json>)
    ensures
        #[trigger] jview_arr(items).len() == items.len(),
    decreases items,
{
    if items.len() > 0 {
        lemma_jview_arr_len(items.drop_first());
    }
}

pub broadcast proof fn lemma_jview_arr_index(items: Seq<Json>, i: int)
    requires
        0 <= i < items.len(),
    ensures
        #[trigger] jview_arr(items)[i] == jview(items[i]),
    decreases items,
{
    lemma_jview_arr_len(items);
    if i > 0 {
        lemma_jview_arr_index(items.drop_first(), i - 1);
    }
}

pub broadcast proof fn lemma_jview_obj_len(entries: Seq<(String, Json)>)
    ensures
        #[trigger] jview_obj(entries).len() == entries.len(),
    decreases entries,
{
    if entries.len() > 0 {
        lemma_jview_obj_len(entries.drop_first());
    }
}

pub broadcast proof fn lemma_jview_obj_index(entries: Seq<(String, Json)>, i: int)
    requires
        0 <= i < entries.len(),
    ensures
        #[trigger] jview_obj(entries)[i] == (entries[i].0@, jview(entries[i].1)),
    decreases entries,
{
    lemma_jview_obj_len(entries);
    if i > 0 {
        lemma_jview_obj_index(entries.drop_first(), i - 1);
    }
}

pub broadcast proof fn lemma_jview_obj_push(entries: Seq<(String, Json)>, k: String, j: Json)
    ensures
        #[trigger] jview_obj(entries.push((k, j))) == jview_obj(entries).push((k@, jview(j))),
    decreases entries,
{
    lemma_jview_obj_len(entries);
    if entries.len() == 0 {
        assert(entries.push((k, j))[0] == (k, j));
        assert(entries.push((k, j)).drop_first() =~= Seq::<(String, Json)>::empty());
        assert(jview_obj(entries.push((k, j))) == seq![
            (entries.push((k, j))[0].0@, jview(entries.push((k, j))[0].1)),
        ] + jview_obj(entries.push((k, j)).drop_first()));
        assert(jview_obj(entries.push((k, j))) =~= jview_obj(entries).push((k@, jview(j))));
    } else {
        lemma_jview_obj_len(entries.drop_first());
        lemma_jview_obj_push(entries.drop_first(), k, j);
        assert(entries.push((k, j))[0] == entries[0]);
        assert(entries.push((k, j)).drop_first() =~= entries.drop_first().push((k, j)));
        assert(jview_obj(entries.push((k, j))) == seq![(entries[0].0@, jview(entries[0].1))]
            + jview_obj(entries.drop_first().push((k, j))));
        assert(jview_obj(entries) == seq![(entries[0].0@, jview(entries[0].1))] + jview_obj(
            entries.drop_first(),
        ));
        assert(seq![(entries[0].0@, jview(entries[0].1))] + jview_obj(
            entries.drop_first(),
        ).push((k@, jview(j))) =~= (seq![(entries[0].0@, jview(entries[0].1))] + jview_obj(
            entries.drop_first(),
        )).push((k@, jview(j))));
        assert(jview_obj(entries.push((k, j))) =~= jview_obj(entries).push((k@, jview(j))));
    }
}

// ---------------------------------------------------------------------------
// Ordering of keys
// ---------------------------------------------------------------------------

/// Strict lexicographic order on character sequences, by code point.
///
/// On the wire this coincides with byte order of the UTF-8 encodings, which
/// is the order in which a JSON writer with sorted maps emits object keys.
pub open spec fn str_lt(a: Seq<char>, b: Seq<char>) -> bool
    decreases a.len(),
{
    if b.len() == 0 {
        false
    } else if a.len() == 0 {
        true
    } else if (a[0] as int) < (b[0] as int) {
        true
    } else if a[0] == b[0] {
        str_lt(a.drop_first(), b.drop_first())
    } else {
        false
    }
}

pub proof fn lemma_str_lt_trans(a: Seq<char>, b: Seq<char>, c: Seq<char>)
    requires
        str_lt(a, b),
        str_lt(b, c),
    ensures
        str_lt(a, c),
    decreases a.len(), b.len(), c.len(),
{
    if a.len() > 0 && b.len() > 0 && c.len() > 0 {
        if a[0] == b[0] && b[0] == c[0] {
            lemma_str_lt_trans(a.drop_first(), b.drop_first(), c.drop_first());
        }
    }
}

/// The keys are strictly ascending, hence unique.
pub open spec fn keys_sorted(o: Seq<(Seq<char>, JsonV)>) -> bool {
    forall|i: int, j: int|
        0 <= i < j < o.len() ==> str_lt(#[trigger] o[i].0, #[trigger] o[j].0)
}

// ---------------------------------------------------------------------------
// Well-formedness
// ---------------------------------------------------------------------------

/// A number lexeme that the library can answer for on the wire: it conforms
/// to the wire grammar, and writing it out and reading it back is known to
/// give it back — either because it is the plain notation of an integer in
/// machine range, or because the wire reader itself produced it.
pub open spec fn wf_num(s: Seq<char>) -> bool {
    crate::num::is_num_lexeme(s) && (crate::num::is_canonical_int(s)
        || crate::wire::canonical_num(s))
}

/// A well-formed JSON model: every object is strictly sorted by key and every
/// number lexeme conforms to the wire grammar.  Trees read from wire text are
/// well-formed, and only well-formed trees are rendered back to text.
pub open spec fn jwf(v: JsonV) -> bool
    decreases v,
{
    match v {
        JsonV::Null => true,
        JsonV::Bool(_) => true,
        JsonV::Num(s) => wf_num(s),
        JsonV::Str(_) => true,
        JsonV::Arr(items) => jwf_arr(items),
        JsonV::Obj(entries) => keys_sorted(entries) && jwf_obj(entries),
    }
}

pub open spec fn jwf_arr(items: Seq<JsonV>) -> bool
    decreases items,
{
    items.len() == 0 || (jwf(items[0]) && jwf_arr(items.drop_first()))
}

pub open spec fn jwf_obj(entries: Seq<(Seq<char>, JsonV)>) -> bool
    decreases entries,
{
    entries.len() == 0 || (jwf(entries[0].1) && jwf_obj(entries.drop_first()))
}

pub broadcast proof fn lemma_jwf_arr_index(items: Seq<JsonV>, i: int)
    requires
        0 <= i < items.len(),
        jwf_arr(items),
    ensures
        #[trigger] jwf(items[i]),
    decreases items,
{
    if i > 0 {
        lemma_jwf_arr_index(items.drop_first(), i - 1);
    }
}

pub broadcast proof fn lemma_jwf_obj_index(entries: Seq<(Seq<char>, JsonV)>, i: int)
    requires
        0 <= i < entries.len(),
        jwf_obj(entries),
    ensures
        #[trigger] jwf(entries[i].1),
    decreases entries,
{
    if i > 0 {
        lemma_jwf_obj_index(entries.drop_first(), i - 1);
    }
}

pub proof fn lemma_jwf_arr_all(items: Seq<JsonV>)
    requires
        forall|i: int| 0 <= i < items.len() ==> jwf(#[trigger] items[i]),
    ensures
        jwf_arr(items),
    decreases items,
{
    if items.len() > 0 {
        lemma_jwf_arr_all(items.drop_first());
    }
}

pub proof fn lemma_jwf_obj_all(entries: Seq<(Seq<char>, JsonV)>)
    requires
        forall|i: int| 0 <= i < entries.len() ==> jwf(#[trigger] entries[i].1),
    ensures
        jwf_obj(entries),
    decreases entries,
{
    if entries.len() > 0 {
        lemma_jwf_obj_all(entries.drop_first());
    }
}

// ---------------------------------------------------------------------------
// Object lookup
// ---------------------------------------------------------------------------

/// The value under the first entry named `k`, if any.
pub open spec fn obj_get(o: Seq<(Seq<char>, JsonV)>, k: Seq<char>) -> Option<JsonV>
    decreases o.len(),
{
    if o.len() == 0 {
        None
    } else if o[0].0 == k {
        Some(o[0].1)
    } else {
        obj_get(o.drop_first(), k)
    }
}

pub proof fn lemma_obj_get_concat(a: Seq<(Seq<char>, JsonV)>, b: Seq<(Seq<char>, JsonV)>, k: Seq<char>)
    ensures
        obj_get(a + b, k) == (match obj_get(a, k) {
            Some(v) => Some(v),
            None => obj_get(b, k),
        }),
    decreases a.len(),
{
    if a.len() == 0 {
        assert(a + b =~= b);
    } else {
        assert((a + b).drop_first() =~= a.drop_first() + b);
        lemma_obj_get_concat(a.drop_first(), b, k);
    }
}

// ---------------------------------------------------------------------------
// Nesting depth
// ---------------------------------------------------------------------------

/// How deeply containers nest: a scalar is at 0, an array or object one
/// above its deepest member.  The wire reader refuses documents nested beyond
/// 127 levels, so the writer is only answered for up to that depth.
pub open spec fn jdepth(v: JsonV) -> int
    decreases v,
{
    match v {
        JsonV::Null => 0,
        JsonV::Bool(_) => 0,
        JsonV::Num(_) => 0,
        JsonV::Str(_) => 0,
        JsonV::Arr(items) => 1 + jdepth_arr(items),
        JsonV::Obj(entries) => 1 + jdepth_obj(entries),
    }
}

pub open spec fn jdepth_arr(items: Seq<JsonV>) -> int
    decreases items,
{
    if items.len() == 0 {
        0
    } else {
        let head = jdepth(items[0]);
        let rest = jdepth_arr(items.drop_first());
        if head >= rest {
            head
        } else {
            rest
        }
    }
}

pub open spec fn jdepth_obj(entries: Seq<(Seq<char>, JsonV)>) -> int
    decreases entries,
{
    if entries.len() == 0 {
        0
    } else {
        let head = jdepth(entries[0].1);
        let rest = jdepth_obj(entries.drop_first());
        if head >= rest {
            head
        } else {
            rest
        }
    }
}

pub proof fn lemma_jdepth_nonneg(v: JsonV)
    ensures
        jdepth(v) >= 0,
    decreases v,
{
    match v {
        JsonV::Arr(items) => {
            lemma_jdepth_arr_nonneg(items);
        },
        JsonV::Obj(entries) => {
            lemma_jdepth_obj_nonneg(entries);
        },
        _ => {},
    }
}

pub proof fn lemma_jdepth_arr_nonneg(items: Seq<JsonV>)
    ensures
        jdepth_arr(items) >= 0,
    decreases items,
{
    if items.len() > 0 {
        lemma_jdepth_arr_nonneg(items.drop_first());
    }
}

pub proof fn lemma_jdepth_obj_nonneg(entries: Seq<(Seq<char>, JsonV)>)
    ensures
        jdepth_obj(entries) >= 0,
    decreases entries,
{
    if entries.len() > 0 {
        lemma_jdepth_obj_nonneg(entries.drop_first());
    }
}

pub broadcast proof fn lemma_jdepth_arr_index(items: Seq<JsonV>, i: int)
    requires
        0 <= i < items.len(),
    ensures
        #[trigger] jdepth(items[i]) <= jdepth_arr(items),
    decreases items,
{
    if i > 0 {
        lemma_jdepth_arr_index(items.drop_first(), i - 1);
    } else {
        lemma_jdepth_arr_nonneg(items.drop_first());
    }
}

pub broadcast proof fn lemma_jdepth_obj_index(entries: Seq<(Seq<char>, JsonV)>, i: int)
    requires
        0 <= i < entries.len(),
    ensures
        #[trigger] jdepth(entries[i].1) <= jdepth_obj(entries),
    decreases entries,
{
    if i > 0 {
        lemma_jdepth_obj_index(entries.drop_first(), i - 1);
    } else {
        lemma_jdepth_obj_nonneg(entries.drop_first());
    }
}

pub proof fn lemma_jdepth_arr_bound(items: Seq<JsonV>, d: int)
    requires
        forall|i: int| 0 <= i < items.len() ==> jdepth(#[trigger] items[i]) <= d,
        d >= 0,
    ensures
        jdepth_arr(items) <= d,
    decreases items,
{
    if items.len() > 0 {
        lemma_jdepth_arr_bound(items.drop_first(), d);
    }
}

pub proof fn lemma_jdepth_obj_bound(entries: Seq<(Seq<char>, JsonV)>, d: int)
    requires
        forall|i: int| 0 <= i < entries.len() ==> jdepth(#[trigger] entries[i].1) <= d,
        d >= 0,
    ensures
        jdepth_obj(entries) <= d,
    decreases entries,
{
    if entries.len() > 0 {
        lemma_jdepth_obj_bound(entries.drop_first(), d);
    }
}

/// A value found under a key is a member of the object.
pub proof fn lemma_obj_get_member(o: Seq<(Seq<char>, JsonV)>, k: Seq<char>)
    requires
        obj_get(o, k) is Some,
    ensures
        exists|i: int| 0 <= i < o.len() && #[trigger] o[i].1 == obj_get(o, k)->Some_0,
    decreases o.len(),
{
    if o.len() > 0 && o[0].0 != k {
        lemma_obj_get_member(o.drop_first(), k);
        let i = choose|i: int|
            0 <= i < o.drop_first().len() && #[trigger] o.drop_first()[i].1 == obj_get(
                o.drop_first(),
                k,
            )->Some_0;
        assert(o[i + 1].1 == obj_get(o, k)->Some_0);
    }
}

// ---------------------------------------------------------------------------
// Executable helpers
// ---------------------------------------------------------------------------

/// A collection's deep view is the model of its entries.
pub proof fn lemma_entries_deep_view(v: Vec<(String, Json)>)
    ensures
        v.deep_view() == jview_obj(v@),
{
    lemma_jview_obj_len(v@);
    assert forall|i: int| 0 <= i < v@.len() implies #[trigger] v.deep_view()[i] == jview_obj(
        v@,
    )[i] by {
        lemma_jview_obj_index(v@, i);
    }
    assert(v.deep_view() =~= jview_obj(v@));
}

impl Json {
    /// A number node for a lexeme in the wire's canonical notation; `None`
    /// where the wire reader would not hand the lexeme back as it stands.
    pub fn num(s: &str) -> (r: Option<Json>)
        ensures
            r matches Some(j) ==> jview(j) == JsonV::Num(s@) && jwf(jview(j)),
            r is None ==> !crate::wire::canonical_num(s@),
    {
        if crate::wire::num_canonical(s) {
            Some(Json::Num(String::from_str(s)))
        } else {
            None
        }
    }
}

/// The value under the first entry named `key`, if any.
pub fn lookup<'a>(entries: &'a Vec<(String, Json)>, key: &str) -> (r: Option<&'a Json>)
    ensures
        match r {
            Some(v) => obj_get(jview_obj(entries@), key@) == Some(jview(*v)),
            None => obj_get(jview_obj(entries@), key@) is None,
        },
{
    let k = String::from_str(key);
    let ghost o = jview_obj(entries@);
    proof {
        lemma_jview_obj_len(entries@);
        assert(o.subrange(0, o.len() as int) =~= o);
    }
    let mut i: usize = 0;
    while i < entries.len()
        invariant
            0 <= i <= entries@.len(),
            o == jview_obj(entries@),
            o.len() == entries@.len(),
            k@ == key@,
            obj_get(o, key@) == obj_get(o.subrange(i as int, o.len() as int), key@),
        decreases entries@.len() - i,
    {
        proof {
            lemma_jview_obj_index(entries@, i as int);
            assert(o.subrange(i as int, o.len() as int)[0] == o[i as int]);
        }
        if entries[i].0 == k {
            proof {
                assert(o[i as int].0 == key@);
            }
            return Some(&entries[i].1);
        }
        proof {
            assert(o.subrange(i as int, o.len() as int).drop_first() =~= o.subrange(
                i as int + 1,
                o.len() as int,
            ));
        }
        i = i + 1;
    }
    proof {
        assert(o.subrange(i as int, o.len() as int).len() == 0);
    }
    None
}

/// A structurally equal copy of a JSON tree.
pub fn deep_copy(j: &Json) -> (r: Json)
    ensures
        jview(r) == jview(*j),
    decreases jdepth(jview(*j)),
{
    proof {
        lemma_jdepth_nonneg(jview(*j));
    }
    match j {
        Json::Null => Json::Null,
        Json::Bool(b) => Json::Bool(*b),
        Json::Num(s) => Json::Num(s.clone()),
        Json::Str(s) => Json::Str(s.clone()),
        Json::Arr(items) => {
            let mut out: Vec<Json> = Vec::new();
            let mut i: usize = 0;
            while i < items.len()
                invariant
                    0 <= i <= items@.len(),
                    out@.len() == i,
                    jview(*j) == JsonV::Arr(jview_arr(items@)),
                    jdepth(jview(*j)) == 1 + jdepth_arr(jview_arr(items@)),
                    forall|p: int| 0 <= p < i ==> jview(#[trigger] out@[p]) == jview(items@[p]),
                decreases items@.len() - i,
            {
                proof {
                    lemma_jview_arr_len(items@);
                    lemma_jview_arr_index(items@, i as int);
                    lemma_jdepth_arr_index(jview_arr(items@), i as int);
                    lemma_jdepth_nonneg(jview(items@[i as int]));
                }
                let c = deep_copy(&items[i]);
                out.push(c);
                i = i + 1;
            }
            proof {
                lemma_jview_arr_len(out@);
                lemma_jview_arr_len(items@);
                assert(forall|p: int|
                    0 <= p < items@.len() ==> #[trigger] jview_arr(out@)[p] == jview_arr(
                        items@,
                    )[p]) by {
                    assert(forall|p: int|
                        0 <= p < items@.len() ==> #[trigger] jview_arr(out@)[p] == jview(
                            out@[p],
                        )) by {
                        assert forall|p: int| 0 <= p < items@.len() implies #[trigger] jview_arr(
                            out@,
                        )[p] == jview(out@[p]) by {
                            lemma_jview_arr_index(out@, p);
                        }
                    }
                    assert(forall|p: int|
                        0 <= p < items@.len() ==> #[trigger] jview_arr(items@)[p] == jview(
                            items@[p],
                        )) by {
                        assert forall|p: int| 0 <= p < items@.len() implies #[trigger] jview_arr(
                            items@,
                        )[p] == jview(items@[p]) by {
                            lemma_jview_arr_index(items@, p);
                        }
                    }
                }
                assert(jview_arr(out@) =~= jview_arr(items@));
            }
            Json::Arr(out)
        },
        Json::Obj(entries) => {
            let mut out: Vec<(String, Json)> = Vec::new();
            let mut i: usize = 0;
            while i < entries.len()
                invariant
                    0 <= i <= entries@.len(),
                    out@.len() == i,
                    jview(*j) == JsonV::Obj(jview_obj(entries@)),
                    jdepth(jview(*j)) == 1 + jdepth_obj(jview_obj(entries@)),
                    forall|p: int|
                        0 <= p < i ==> (#[trigger] out@[p]).0@ == entries@[p].0@ && jview(
                            out@[p].1,
                        ) == jview(entries@[p].1),
                decreases entries@.len() - i,
            {
                proof {
                    lemma_jview_obj_len(entries@);
                    lemma_jview_obj_index(entries@, i as int);
                    lemma_jdepth_obj_index(jview_obj(entries@), i as int);
                    lemma_jdepth_nonneg(jview(entries@[i as int].1));
                }
                let k = entries[i].0.clone();
                let c = deep_copy(&entries[i].1);
                out.push((k, c));
                i = i + 1;
            }
            proof {
                lemma_jview_obj_len(out@);
                lemma_jview_obj_len(entries@);
                assert forall|p: int| 0 <= p < entries@.len() implies #[trigger] jview_obj(
                    out@,
                )[p] == jview_obj(entries@)[p] by {
                    lemma_jview_obj_index(out@, p);
                    lemma_jview_obj_index(entries@, p);
                }
                assert(jview_obj(out@) =~= jview_obj(entries@));
            }
            Json::Obj(out)
        },
    }
}

} // verus!
