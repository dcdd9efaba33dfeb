//! Reading a descriptor out of a JSON tree.
//!
//! Each function mirrors a spec-level reading of the model from the tree:
//! required fields must be present with the right shape, optional fields may
//! be wholly absent, unknown fields are ignored, and the first fault found is
//! reported.

use vstd::prelude::*;
use crate::cnab::{Action, ActionV, Bundle, BundleV, Credential, CredentialV, Destination,
    DestinationV, FormatError, FormatErrorV, Image, ImageV, InvocationImage, InvocationImageV,
    Maintainer, MaintainerV, Output, OutputV, Parameter, ParameterV, Platform, PlatformV};
use crate::cnab::{bundle_wf, image_wf, invocation_image_wf, json_map_wf, map_keys_sorted};
use crate::json::{jdepth, jview, jview_arr, jview_obj, jwf, obj_get, Json, JsonV};
use crate::json::{lemma_jdepth_obj_index, lemma_jview_arr_index, lemma_jview_arr_len,
    lemma_jview_obj_index, lemma_jview_obj_len, lemma_jwf_arr_index, lemma_jwf_obj_index,
    lemma_obj_get_member, lookup};
use crate::num::spec_parse_i64;
use crate::num::parse_dec_i64;

verus! {

broadcast use vstd::std_specs::vec::group_vec_axioms, vstd::seq::group_seq_axioms;

/// The model of an executable `Result`, both outcomes deeply viewed.
pub open spec fn res_view<T: DeepView, E: DeepView>(r: Result<T, E>) -> Result<
    <T as DeepView>::V,
    <E as DeepView>::V,
> {
    match r {
        Ok(v) => Ok(v.deep_view()),
        Err(e) => Err(e.deep_view()),
    }
}

// ---------------------------------------------------------------------------
// Field readers
// ---------------------------------------------------------------------------

/// A required string field.
pub open spec fn spec_req_str(o: Seq<(Seq<char>, JsonV)>, k: Seq<char>) -> Result<
    Seq<char>,
    FormatErrorV,
> {
    match obj_get(o, k) {
        None => Err(FormatErrorV::Missing(k)),
        Some(JsonV::Str(s)) => Ok(s),
        Some(_) => Err(FormatErrorV::WrongType(k)),
    }
}

/// An optional string field.
pub open spec fn spec_opt_str(o: Seq<(Seq<char>, JsonV)>, k: Seq<char>) -> Result<
    Option<Seq<char>>,
    FormatErrorV,
> {
    match obj_get(o, k) {
        None => Ok(None),
        Some(JsonV::Null) => Ok(None),
        Some(JsonV::Str(s)) => Ok(Some(s)),
        Some(_) => Err(FormatErrorV::WrongType(k)),
    }
}

/// An optional boolean field.
pub open spec fn spec_opt_bool(o: Seq<(Seq<char>, JsonV)>, k: Seq<char>) -> Result<
    Option<bool>,
    FormatErrorV,
> {
    match obj_get(o, k) {
        None => Ok(None),
        Some(JsonV::Null) => Ok(None),
        Some(JsonV::Bool(b)) => Ok(Some(b)),
        Some(_) => Err(FormatErrorV::WrongType(k)),
    }
}

/// A boolean field read as `false` where absent.
pub open spec fn spec_bool_default(o: Seq<(Seq<char>, JsonV)>, k: Seq<char>) -> Result<
    bool,
    FormatErrorV,
> {
    match spec_opt_bool(o, k) {
        Ok(Some(b)) => Ok(b),
        Ok(None) => Ok(false),
        Err(e) => Err(e),
    }
}

/// An optional integer field: a number in plain decimal notation within the
/// `i64` range.
pub open spec fn spec_opt_i64(o: Seq<(Seq<char>, JsonV)>, k: Seq<char>) -> Result<
    Option<int>,
    FormatErrorV,
> {
    match obj_get(o, k) {
        None => Ok(None),
        Some(JsonV::Null) => Ok(None),
        Some(JsonV::Num(s)) => match spec_parse_i64(s) {
            Some(v) => Ok(Some(v)),
            None => Err(FormatErrorV::WrongType(k)),
        },
        Some(_) => Err(FormatErrorV::WrongType(k)),
    }
}

/// An optional object-shaped field, handed out as its entries.
pub open spec fn spec_opt_obj(o: Seq<(Seq<char>, JsonV)>, k: Seq<char>) -> Result<
    Option<Seq<(Seq<char>, JsonV)>>,
    FormatErrorV,
> {
    match obj_get(o, k) {
        None => Ok(None),
        Some(JsonV::Null) => Ok(None),
        Some(JsonV::Obj(m)) => Ok(Some(m)),
        Some(_) => Err(FormatErrorV::WrongType(k)),
    }
}

/// Reads a required string field.
pub fn req_str(entries: &Vec<(String, Json)>, k: &str) -> (r: Result<String, FormatError>)
    ensures
        res_view(r) == spec_req_str(jview_obj(entries@), k@),
{
    match lookup(entries, k) {
        None => Err(FormatError::Missing(String::from_str(k))),
        Some(Json::Str(s)) => Ok(s.clone()),
        Some(_) => Err(FormatError::WrongType(String::from_str(k))),
    }
}

/// Reads an optional string field.
pub fn opt_str(entries: &Vec<(String, Json)>, k: &str) -> (r: Result<Option<String>, FormatError>)
    ensures
        res_view(r) == spec_opt_str(jview_obj(entries@), k@),
{
    match lookup(entries, k) {
        None => Ok(None),
        Some(Json::Null) => Ok(None),
        Some(Json::Str(s)) => Ok(Some(s.clone())),
        Some(_) => Err(FormatError::WrongType(String::from_str(k))),
    }
}

/// Reads an optional boolean field.
pub fn opt_bool(entries: &Vec<(String, Json)>, k: &str) -> (r: Result<Option<bool>, FormatError>)
    ensures
        res_view(r) == spec_opt_bool(jview_obj(entries@), k@),
{
    match lookup(entries, k) {
        None => Ok(None),
        Some(Json::Null) => Ok(None),
        Some(Json::Bool(b)) => Ok(Some(*b)),
        Some(_) => Err(FormatError::WrongType(String::from_str(k))),
    }
}

/// Reads a boolean field, as `false` where absent.
pub fn bool_default(entries: &Vec<(String, Json)>, k: &str) -> (r: Result<bool, FormatError>)
    ensures
        res_view(r) == spec_bool_default(jview_obj(entries@), k@),
{
    match opt_bool(entries, k) {
        Ok(Some(b)) => Ok(b),
        Ok(None) => Ok(false),
        Err(e) => Err(e),
    }
}

/// Reads an optional integer field.
pub fn opt_i64(entries: &Vec<(String, Json)>, k: &str) -> (r: Result<Option<i64>, FormatError>)
    ensures
        (match r {
            Ok(None) => spec_opt_i64(jview_obj(entries@), k@) == Ok::<Option<int>, FormatErrorV>(
                None,
            ),
            Ok(Some(v)) => spec_opt_i64(jview_obj(entries@), k@) == Ok::<Option<int>, FormatErrorV>(
                Some(v as int),
            ),
            Err(e) => spec_opt_i64(jview_obj(entries@), k@) == Err::<Option<int>, FormatErrorV>(
                e.deep_view(),
            ),
        }),
{
    match lookup(entries, k) {
        None => Ok(None),
        Some(Json::Null) => Ok(None),
        Some(Json::Num(s)) => match parse_dec_i64(s.as_str()) {
            Some(v) => Ok(Some(v)),
            None => Err(FormatError::WrongType(String::from_str(k))),
        },
        Some(_) => Err(FormatError::WrongType(String::from_str(k))),
    }
}

// ---------------------------------------------------------------------------
// Simple entities
// ---------------------------------------------------------------------------

/// Reads a [`Destination`] from the value under `k`; the field is required.
pub open spec fn spec_destination_from(v: JsonV, k: Seq<char>) -> Result<
    DestinationV,
    FormatErrorV,
> {
    match v {
        JsonV::Obj(o) => match spec_opt_str(o, "env"@) {
            Err(e) => Err(e),
            Ok(env) => match spec_opt_str(o, "path"@) {
                Err(e) => Err(e),
                Ok(path) => Ok(DestinationV { env, path }),
            },
        },
        _ => Err(FormatErrorV::WrongType(k)),
    }
}

pub fn destination_from_json(j: &Json, k: &str) -> (r: Result<Destination, FormatError>)
    ensures
        res_view(r) == spec_destination_from(jview(*j), k@),
{
    match j {
        Json::Obj(entries) => {
            let env = match opt_str(entries, "env") {
                Ok(v) => v,
                Err(e) => {
                    return Err(e);
                },
            };
            let path = match opt_str(entries, "path") {
                Ok(v) => v,
                Err(e) => {
                    return Err(e);
                },
            };
            Ok(Destination { env, path })
        },
        _ => Err(FormatError::WrongType(String::from_str(k))),
    }
}

/// Reads a [`Platform`].
pub open spec fn spec_platform_from(v: JsonV, k: Seq<char>) -> Result<PlatformV, FormatErrorV> {
    match v {
        JsonV::Obj(o) => match spec_opt_str(o, "arch"@) {
            Err(e) => Err(e),
            Ok(arch) => match spec_opt_str(o, "os"@) {
                Err(e) => Err(e),
                Ok(os) => Ok(PlatformV { arch, os }),
            },
        },
        _ => Err(FormatErrorV::WrongType(k)),
    }
}

pub fn platform_from_json(j: &Json, k: &str) -> (r: Result<Platform, FormatError>)
    ensures
        res_view(r) == spec_platform_from(jview(*j), k@),
{
    match j {
        Json::Obj(entries) => {
            let arch = match opt_str(entries, "arch") {
                Ok(v) => v,
                Err(e) => {
                    return Err(e);
                },
            };
            let os = match opt_str(entries, "os") {
                Ok(v) => v,
                Err(e) => {
                    return Err(e);
                },
            };
            Ok(Platform { arch, os })
        },
        _ => Err(FormatError::WrongType(String::from_str(k))),
    }
}

/// Reads an [`Action`]; `modifies` and `stateless` are `false` where absent.
pub open spec fn spec_action_from(v: JsonV, k: Seq<char>) -> Result<ActionV, FormatErrorV> {
    match v {
        JsonV::Obj(o) => match spec_opt_str(o, "description"@) {
            Err(e) => Err(e),
            Ok(description) => match spec_bool_default(o, "modifies"@) {
                Err(e) => Err(e),
                Ok(modifies) => match spec_bool_default(o, "stateless"@) {
                    Err(e) => Err(e),
                    Ok(stateless) => Ok(ActionV { description, modifies, stateless }),
                },
            },
        },
        _ => Err(FormatErrorV::WrongType(k)),
    }
}

pub fn action_from_json(j: &Json, k: &str) -> (r: Result<Action, FormatError>)
    ensures
        res_view(r) == spec_action_from(jview(*j), k@),
{
    match j {
        Json::Obj(entries) => {
            let description = match opt_str(entries, "description") {
                Ok(v) => v,
                Err(e) => {
                    return Err(e);
                },
            };
            let modifies = match bool_default(entries, "modifies") {
                Ok(v) => v,
                Err(e) => {
                    return Err(e);
                },
            };
            let stateless = match bool_default(entries, "stateless") {
                Ok(v) => v,
                Err(e) => {
                    return Err(e);
                },
            };
            Ok(Action { description, modifies, stateless })
        },
        _ => Err(FormatError::WrongType(String::from_str(k))),
    }
}

/// Reads a [`Credential`]; `env` and `path` are independently optional.
pub open spec fn spec_credential_from(v: JsonV, k: Seq<char>) -> Result<CredentialV, FormatErrorV> {
    match v {
        JsonV::Obj(o) => match spec_opt_str(o, "description"@) {
            Err(e) => Err(e),
            Ok(description) => match spec_opt_str(o, "env"@) {
                Err(e) => Err(e),
                Ok(env) => match spec_opt_str(o, "path"@) {
                    Err(e) => Err(e),
                    Ok(path) => match spec_opt_bool(o, "required"@) {
                        Err(e) => Err(e),
                        Ok(required) => Ok(CredentialV { description, env, path, required }),
                    },
                },
            },
        },
        _ => Err(FormatErrorV::WrongType(k)),
    }
}

pub fn credential_from_json(j: &Json, k: &str) -> (r: Result<Credential, FormatError>)
    ensures
        res_view(r) == spec_credential_from(jview(*j), k@),
{
    match j {
        Json::Obj(entries) => {
            let description = match opt_str(entries, "description") {
                Ok(v) => v,
                Err(e) => {
                    return Err(e);
                },
            };
            let env = match opt_str(entries, "env") {
                Ok(v) => v,
                Err(e) => {
                    return Err(e);
                },
            };
            let path = match opt_str(entries, "path") {
                Ok(v) => v,
                Err(e) => {
                    return Err(e);
                },
            };
            let required = match opt_bool(entries, "required") {
                Ok(v) => v,
                Err(e) => {
                    return Err(e);
                },
            };
            Ok(Credential { description, env, path, required })
        },
        _ => Err(FormatError::WrongType(String::from_str(k))),
    }
}

/// Reads a [`Maintainer`]; the name is required.
pub open spec fn spec_maintainer_from(v: JsonV, k: Seq<char>) -> Result<MaintainerV, FormatErrorV> {
    match v {
        JsonV::Obj(o) => match spec_opt_str(o, "email"@) {
            Err(e) => Err(e),
            Ok(email) => match spec_req_str(o, "name"@) {
                Err(e) => Err(e),
                Ok(name) => match spec_opt_str(o, "url"@) {
                    Err(e) => Err(e),
                    Ok(url) => Ok(MaintainerV { email, name, url }),
                },
            },
        },
        _ => Err(FormatErrorV::WrongType(k)),
    }
}

pub fn maintainer_from_json(j: &Json, k: &str) -> (r: Result<Maintainer, FormatError>)
    ensures
        res_view(r) == spec_maintainer_from(jview(*j), k@),
{
    match j {
        Json::Obj(entries) => {
            let email = match opt_str(entries, "email") {
                Ok(v) => v,
                Err(e) => {
                    return Err(e);
                },
            };
            let name = match req_str(entries, "name") {
                Ok(v) => v,
                Err(e) => {
                    return Err(e);
                },
            };
            let url = match opt_str(entries, "url") {
                Ok(v) => v,
                Err(e) => {
                    return Err(e);
                },
            };
            Ok(Maintainer { email, name, url })
        },
        _ => Err(FormatError::WrongType(String::from_str(k))),
    }
}

// ---------------------------------------------------------------------------
// Lists and keyed collections
// ---------------------------------------------------------------------------

/// Reads the elements from `i` on as strings.
pub open spec fn spec_str_list_items(items: Seq<JsonV>, k: Seq<char>, i: int) -> Result<
    Seq<Seq<char>>,
    FormatErrorV,
>
    decreases items.len() - i,
{
    if i >= items.len() {
        Ok(Seq::empty())
    } else {
        match items[i] {
            JsonV::Str(s) => match spec_str_list_items(items, k, i + 1) {
                Ok(r) => Ok(seq![s] + r),
                Err(e) => Err(e),
            },
            _ => Err(FormatErrorV::WrongType(k)),
        }
    }
}

/// An optional field holding a list of strings.
pub open spec fn spec_opt_str_list(o: Seq<(Seq<char>, JsonV)>, k: Seq<char>) -> Result<
    Option<Seq<Seq<char>>>,
    FormatErrorV,
> {
    match obj_get(o, k) {
        None => Ok(None),
        Some(JsonV::Null) => Ok(None),
        Some(JsonV::Arr(items)) => match spec_str_list_items(items, k, 0) {
            Ok(r) => Ok(Some(r)),
            Err(e) => Err(e),
        },
        Some(_) => Err(FormatErrorV::WrongType(k)),
    }
}

/// Reads the entries from `i` on as string values under their keys.
pub open spec fn spec_str_map_entries(m: Seq<(Seq<char>, JsonV)>, k: Seq<char>, i: int) -> Result<
    Seq<(Seq<char>, Seq<char>)>,
    FormatErrorV,
>
    decreases m.len() - i,
{
    if i >= m.len() {
        Ok(Seq::empty())
    } else {
        match m[i].1 {
            JsonV::Str(s) => match spec_str_map_entries(m, k, i + 1) {
                Ok(r) => Ok(seq![(m[i].0, s)] + r),
                Err(e) => Err(e),
            },
            _ => Err(FormatErrorV::WrongType(k)),
        }
    }
}

/// An optional field holding a mapping of strings to strings.
pub open spec fn spec_opt_str_map(o: Seq<(Seq<char>, JsonV)>, k: Seq<char>) -> Result<
    Option<Seq<(Seq<char>, Seq<char>)>>,
    FormatErrorV,
> {
    match obj_get(o, k) {
        None => Ok(None),
        Some(JsonV::Null) => Ok(None),
        Some(JsonV::Obj(m)) => match spec_str_map_entries(m, k, 0) {
            Ok(r) => Ok(Some(r)),
            Err(e) => Err(e),
        },
        Some(_) => Err(FormatErrorV::WrongType(k)),
    }
}

/// Reads the entries from `i` on, each value through `f`, keeping the keys.
pub open spec fn spec_entity_map<T>(
    m: Seq<(Seq<char>, JsonV)>,
    f: spec_fn(JsonV) -> Result<T, FormatErrorV>,
    i: int,
) -> Result<Seq<(Seq<char>, T)>, FormatErrorV>
    decreases m.len() - i,
{
    if i >= m.len() {
        Ok(Seq::empty())
    } else {
        match f(m[i].1) {
            Err(e) => Err(e),
            Ok(t) => match spec_entity_map(m, f, i + 1) {
                Err(e) => Err(e),
                Ok(r) => Ok(seq![(m[i].0, t)] + r),
            },
        }
    }
}

/// Reads the elements from `i` on, each through `f`.
pub open spec fn spec_entity_list<T>(
    items: Seq<JsonV>,
    f: spec_fn(JsonV) -> Result<T, FormatErrorV>,
    i: int,
) -> Result<Seq<T>, FormatErrorV>
    decreases items.len() - i,
{
    if i >= items.len() {
        Ok(Seq::empty())
    } else {
        match f(items[i]) {
            Err(e) => Err(e),
            Ok(t) => match spec_entity_list(items, f, i + 1) {
                Err(e) => Err(e),
                Ok(r) => Ok(seq![t] + r),
            },
        }
    }
}

/// An entity collection read keeps the keys of the wire object, in order,
/// and each value is the reading of the wire value under its key.
pub proof fn lemma_entity_map_entries<T>(
    m: Seq<(Seq<char>, JsonV)>,
    f: spec_fn(JsonV) -> Result<T, FormatErrorV>,
    i: int,
)
    requires
        0 <= i <= m.len(),
        spec_entity_map(m, f, i) is Ok,
    ensures
        spec_entity_map(m, f, i)->Ok_0.len() == m.len() - i,
        forall|p: int|
            0 <= p < m.len() - i ==> (#[trigger] spec_entity_map(m, f, i)->Ok_0[p]).0 == m[p
                + i].0,
        forall|p: int| 0 <= p < m.len() - i ==> (#[trigger] f(m[p + i].1)) is Ok,
        forall|p: int|
            0 <= p < m.len() - i ==> (#[trigger] spec_entity_map(m, f, i)->Ok_0[p]).1 == f(
                m[p + i].1,
            )->Ok_0,
    decreases m.len() - i,
{
    if i < m.len() {
        lemma_entity_map_entries(m, f, i + 1);
        let r = spec_entity_map(m, f, i)->Ok_0;
        let rest = spec_entity_map(m, f, i + 1)->Ok_0;
        assert(r == seq![(m[i].0, f(m[i].1)->Ok_0)] + rest);
        assert forall|p: int| 0 <= p < m.len() - i implies (#[trigger] f(m[p + i].1)) is Ok by {
            if p > 0 {
                assert(f(m[(p - 1) + (i + 1)].1) is Ok);
            }
        }
        assert forall|p: int| 0 <= p < m.len() - i implies (#[trigger] r[p]).1 == f(m[p + i].1)->Ok_0
            && r[p].0 == m[p + i].0 by {
            if p > 0 {
                assert(r[p] == rest[p - 1]);
            }
        }
    }
}

/// An entity list read maps each element through its reader.
pub proof fn lemma_entity_list_elems<T>(
    items: Seq<JsonV>,
    f: spec_fn(JsonV) -> Result<T, FormatErrorV>,
    i: int,
)
    requires
        0 <= i <= items.len(),
        spec_entity_list(items, f, i) is Ok,
    ensures
        spec_entity_list(items, f, i)->Ok_0.len() == items.len() - i,
        forall|p: int| 0 <= p < items.len() - i ==> (#[trigger] f(items[p + i])) is Ok,
        forall|p: int|
            0 <= p < items.len() - i ==> #[trigger] spec_entity_list(items, f, i)->Ok_0[p] == f(
                items[p + i],
            )->Ok_0,
    decreases items.len() - i,
{
    if i < items.len() {
        lemma_entity_list_elems(items, f, i + 1);
        let r = spec_entity_list(items, f, i)->Ok_0;
        let rest = spec_entity_list(items, f, i + 1)->Ok_0;
        assert(r == seq![f(items[i])->Ok_0] + rest);
        assert forall|p: int| 0 <= p < items.len() - i implies (#[trigger] f(items[p + i])) is Ok by {
            if p > 0 {
                assert(f(items[(p - 1) + (i + 1)]) is Ok);
            }
        }
        assert forall|p: int| 0 <= p < items.len() - i implies #[trigger] r[p] == f(
            items[p + i],
        )->Ok_0 by {
            if p > 0 {
                assert(r[p] == rest[p - 1]);
            }
        }
    }
}

/// A string map read keeps the keys of the wire object, in order.
pub proof fn lemma_str_map_keys(m: Seq<(Seq<char>, JsonV)>, k: Seq<char>, i: int)
    requires
        0 <= i <= m.len(),
        spec_str_map_entries(m, k, i) is Ok,
    ensures
        spec_str_map_entries(m, k, i)->Ok_0.len() == m.len() - i,
        forall|p: int|
            0 <= p < m.len() - i ==> (#[trigger] spec_str_map_entries(m, k, i)->Ok_0[p]).0 == m[p
                + i].0,
    decreases m.len() - i,
{
    if i < m.len() {
        lemma_str_map_keys(m, k, i + 1);
    }
}

/// Reads a list of strings.
pub fn str_list_from_json(items: &Vec<Json>, k: &str) -> (r: Result<Vec<String>, FormatError>)
    ensures
        res_view(r) == spec_str_list_items(jview_arr(items@), k@, 0),
{
    let ghost va = jview_arr(items@);
    proof {
        lemma_jview_arr_len(items@);
    }
    let mut out: Vec<String> = Vec::new();
    let mut i: usize = 0;
    while i < items.len()
        invariant
            0 <= i <= items@.len(),
            va == jview_arr(items@),
            va.len() == items@.len(),
            out.deep_view().len() == i,
            (match spec_str_list_items(va, k@, i as int) {
                Ok(rest) => spec_str_list_items(va, k@, 0) == Ok::<_, FormatErrorV>(
                    out.deep_view() + rest,
                ),
                Err(e) => spec_str_list_items(va, k@, 0) == Err::<Seq<Seq<char>>, _>(e),
            }),
        decreases items@.len() - i,
    {
        proof {
            lemma_jview_arr_index(items@, i as int);
        }
        match &items[i] {
            Json::Str(s) => {
                let ghost old_deep = out.deep_view();
                out.push(s.clone());
                proof {
                    assert(out.deep_view() =~= old_deep.push(s@));
                    match spec_str_list_items(va, k@, i + 1) {
                        Ok(rest) => {
                            assert(old_deep + (seq![s@] + rest) =~= old_deep.push(s@) + rest);
                        },
                        Err(_) => {},
                    }
                }
            },
            _ => {
                return Err(FormatError::WrongType(String::from_str(k)));
            },
        }
        i = i + 1;
    }
    proof {
        assert(out.deep_view() + Seq::<Seq<char>>::empty() =~= out.deep_view());
    }
    Ok(out)
}

/// Reads an optional list of strings.
pub fn opt_str_list(entries: &Vec<(String, Json)>, k: &str) -> (r: Result<
    Option<Vec<String>>,
    FormatError,
>)
    ensures
        res_view(r) == spec_opt_str_list(jview_obj(entries@), k@),
{
    match lookup(entries, k) {
        None => Ok(None),
        Some(Json::Null) => Ok(None),
        Some(Json::Arr(items)) => match str_list_from_json(items, k) {
            Ok(v) => Ok(Some(v)),
            Err(e) => Err(e),
        },
        Some(_) => Err(FormatError::WrongType(String::from_str(k))),
    }
}

/// Reads a mapping of strings to strings.
pub fn str_map_from_json(entries: &Vec<(String, Json)>, k: &str) -> (r: Result<
    Vec<(String, String)>,
    FormatError,
>)
    ensures
        res_view(r) == spec_str_map_entries(jview_obj(entries@), k@, 0),
{
    let ghost m = jview_obj(entries@);
    proof {
        lemma_jview_obj_len(entries@);
    }
    let mut out: Vec<(String, String)> = Vec::new();
    let mut i: usize = 0;
    while i < entries.len()
        invariant
            0 <= i <= entries@.len(),
            m == jview_obj(entries@),
            m.len() == entries@.len(),
            out.deep_view().len() == i,
            (match spec_str_map_entries(m, k@, i as int) {
                Ok(rest) => spec_str_map_entries(m, k@, 0) == Ok::<_, FormatErrorV>(
                    out.deep_view() + rest,
                ),
                Err(e) => spec_str_map_entries(m, k@, 0) == Err::<Seq<(Seq<char>, Seq<char>)>, _>(
                    e,
                ),
            }),
        decreases entries@.len() - i,
    {
        proof {
            lemma_jview_obj_index(entries@, i as int);
        }
        match &entries[i].1 {
            Json::Str(s) => {
                let ghost old_deep = out.deep_view();
                let key = entries[i].0.clone();
                out.push((key, s.clone()));
                proof {
                    assert(out.deep_view() =~= old_deep.push((m[i as int].0, s@)));
                    match spec_str_map_entries(m, k@, i + 1) {
                        Ok(rest) => {
                            assert(old_deep + (seq![(m[i as int].0, s@)] + rest) =~= old_deep.push(
                                (m[i as int].0, s@),
                            ) + rest);
                        },
                        Err(_) => {},
                    }
                }
            },
            _ => {
                return Err(FormatError::WrongType(String::from_str(k)));
            },
        }
        i = i + 1;
    }
    proof {
        assert(out.deep_view() + Seq::<(Seq<char>, Seq<char>)>::empty() =~= out.deep_view());
    }
    Ok(out)
}

/// Reads an optional mapping of strings to strings.
pub fn opt_str_map(entries: &Vec<(String, Json)>, k: &str) -> (r: Result<
    Option<Vec<(String, String)>>,
    FormatError,
>)
    ensures
        res_view(r) == spec_opt_str_map(jview_obj(entries@), k@),
{
    match lookup(entries, k) {
        None => Ok(None),
        Some(Json::Null) => Ok(None),
        Some(Json::Obj(m)) => match str_map_from_json(m, k) {
            Ok(v) => Ok(Some(v)),
            Err(e) => Err(e),
        },
        Some(_) => Err(FormatError::WrongType(String::from_str(k))),
    }
}

// ---------------------------------------------------------------------------
// Composite entities
// ---------------------------------------------------------------------------

/// Reads a [`Parameter`]; the destination is required.
pub open spec fn spec_parameter_from(v: JsonV, k: Seq<char>) -> Result<ParameterV, FormatErrorV> {
    match v {
        JsonV::Obj(o) => match spec_opt_str_list(o, "applyTo"@) {
            Err(e) => Err(e),
            Ok(apply_to) => match spec_opt_str(o, "definition"@) {
                Err(e) => Err(e),
                Ok(definition) => match spec_opt_str(o, "description"@) {
                    Err(e) => Err(e),
                    Ok(description) => match obj_get(o, "destination"@) {
                        None => Err(FormatErrorV::Missing("destination"@)),
                        Some(d) => match spec_destination_from(d, "destination"@) {
                            Err(e) => Err(e),
                            Ok(destination) => match spec_opt_bool(o, "required"@) {
                                Err(e) => Err(e),
                                Ok(required) => Ok(
                                    ParameterV {
                                        apply_to,
                                        definition,
                                        description,
                                        destination,
                                        required,
                                    },
                                ),
                            },
                        },
                    },
                },
            },
        },
        _ => Err(FormatErrorV::WrongType(k)),
    }
}

pub fn parameter_from_json(j: &Json, k: &str) -> (r: Result<Parameter, FormatError>)
    ensures
        res_view(r) == spec_parameter_from(jview(*j), k@),
{
    match j {
        Json::Obj(entries) => {
            let apply_to = match opt_str_list(entries, "applyTo") {
                Ok(v) => v,
                Err(e) => {
                    return Err(e);
                },
            };
            let definition = match opt_str(entries, "definition") {
                Ok(v) => v,
                Err(e) => {
                    return Err(e);
                },
            };
            let description = match opt_str(entries, "description") {
                Ok(v) => v,
                Err(e) => {
                    return Err(e);
                },
            };
            let destination = match lookup(entries, "destination") {
                None => {
                    return Err(FormatError::Missing(String::from_str("destination")));
                },
                Some(d) => match destination_from_json(d, "destination") {
                    Ok(v) => v,
                    Err(e) => {
                        return Err(e);
                    },
                },
            };
            let required = match opt_bool(entries, "required") {
                Ok(v) => v,
                Err(e) => {
                    return Err(e);
                },
            };
            Ok(Parameter { apply_to, definition, description, destination, required })
        },
        _ => Err(FormatError::WrongType(String::from_str(k))),
    }
}

/// Reads an [`Output`]; the definition is required.
pub open spec fn spec_output_from(v: JsonV, k: Seq<char>) -> Result<OutputV, FormatErrorV> {
    match v {
        JsonV::Obj(o) => match spec_opt_str_list(o, "applyTo"@) {
            Err(e) => Err(e),
            Ok(apply_to) => match spec_req_str(o, "definition"@) {
                Err(e) => Err(e),
                Ok(definition) => match spec_opt_str(o, "description"@) {
                    Err(e) => Err(e),
                    Ok(description) => match spec_opt_str(o, "path"@) {
                        Err(e) => Err(e),
                        Ok(path) => Ok(OutputV { apply_to, definition, description, path }),
                    },
                },
            },
        },
        _ => Err(FormatErrorV::WrongType(k)),
    }
}

pub fn output_from_json(j: &Json, k: &str) -> (r: Result<Output, FormatError>)
    ensures
        res_view(r) == spec_output_from(jview(*j), k@),
{
    match j {
        Json::Obj(entries) => {
            let apply_to = match opt_str_list(entries, "applyTo") {
                Ok(v) => v,
                Err(e) => {
                    return Err(e);
                },
            };
            let definition = match req_str(entries, "definition") {
                Ok(v) => v,
                Err(e) => {
                    return Err(e);
                },
            };
            let description = match opt_str(entries, "description") {
                Ok(v) => v,
                Err(e) => {
                    return Err(e);
                },
            };
            let path = match opt_str(entries, "path") {
                Ok(v) => v,
                Err(e) => {
                    return Err(e);
                },
            };
            Ok(Output { apply_to, definition, description, path })
        },
        _ => Err(FormatError::WrongType(String::from_str(k))),
    }
}

/// An optional [`Platform`]-shaped field.
pub open spec fn spec_opt_platform(o: Seq<(Seq<char>, JsonV)>, k: Seq<char>) -> Result<
    Option<PlatformV>,
    FormatErrorV,
> {
    match obj_get(o, k) {
        None => Ok(None),
        Some(JsonV::Null) => Ok(None),
        Some(p) => match spec_platform_from(p, k) {
            Err(e) => Err(e),
            Ok(platform) => Ok(Some(platform)),
        },
    }
}

/// Reads an [`Image`]; the image reference is required.
pub open spec fn spec_image_from(v: JsonV, k: Seq<char>) -> Result<ImageV, FormatErrorV> {
    match v {
        JsonV::Obj(o) => match spec_opt_str(o, "description"@) {
            Err(e) => Err(e),
            Ok(description) => match spec_opt_str(o, "contentDigest"@) {
                Err(e) => Err(e),
                Ok(content_digest) => match spec_req_str(o, "image"@) {
                    Err(e) => Err(e),
                    Ok(image) => match spec_opt_str(o, "imageType"@) {
                        Err(e) => Err(e),
                        Ok(image_type) => match spec_opt_str(o, "mediaType"@) {
                            Err(e) => Err(e),
                            Ok(media_type) => match spec_opt_platform(o, "platform"@) {
                                Err(e) => Err(e),
                                Ok(platform) => match spec_opt_i64(o, "size"@) {
                                    Err(e) => Err(e),
                                    Ok(size) => match spec_opt_str_map(o, "labels"@) {
                                        Err(e) => Err(e),
                                        Ok(labels) => Ok(
                                            ImageV {
                                                description,
                                                content_digest,
                                                image,
                                                image_type,
                                                media_type,
                                                platform,
                                                size,
                                                labels,
                                            },
                                        ),
                                    },
                                },
                            },
                        },
                    },
                },
            },
        },
        _ => Err(FormatErrorV::WrongType(k)),
    }
}

pub fn image_from_json(j: &Json, k: &str) -> (r: Result<Image, FormatError>)
    ensures
        res_view(r) == spec_image_from(jview(*j), k@),
{
    match j {
        Json::Obj(entries) => {
            let description = match opt_str(entries, "description") {
                Ok(v) => v,
                Err(e) => {
                    return Err(e);
                },
            };
            let content_digest = match opt_str(entries, "contentDigest") {
                Ok(v) => v,
                Err(e) => {
                    return Err(e);
                },
            };
            let image = match req_str(entries, "image") {
                Ok(v) => v,
                Err(e) => {
                    return Err(e);
                },
            };
            let image_type = match opt_str(entries, "imageType") {
                Ok(v) => v,
                Err(e) => {
                    return Err(e);
                },
            };
            let media_type = match opt_str(entries, "mediaType") {
                Ok(v) => v,
                Err(e) => {
                    return Err(e);
                },
            };
            let platform = match lookup(entries, "platform") {
                None => None,
                Some(Json::Null) => None,
                Some(p) => match platform_from_json(p, "platform") {
                    Ok(v) => Some(v),
                    Err(e) => {
                        return Err(e);
                    },
                },
            };
            let size = match opt_i64(entries, "size") {
                Ok(v) => v,
                Err(e) => {
                    return Err(e);
                },
            };
            let labels = match opt_str_map(entries, "labels") {
                Ok(v) => v,
                Err(e) => {
                    return Err(e);
                },
            };
            Ok(
                Image {
                    description,
                    content_digest,
                    image,
                    image_type,
                    media_type,
                    platform,
                    size,
                    labels,
                },
            )
        },
        _ => Err(FormatError::WrongType(String::from_str(k))),
    }
}

/// Reads an [`InvocationImage`]; the image reference is required.
pub open spec fn spec_invocation_image_from(v: JsonV, k: Seq<char>) -> Result<
    InvocationImageV,
    FormatErrorV,
> {
    match v {
        JsonV::Obj(o) => match spec_opt_str(o, "contentDigest"@) {
            Err(e) => Err(e),
            Ok(content_digest) => match spec_req_str(o, "image"@) {
                Err(e) => Err(e),
                Ok(image) => match spec_opt_str(o, "imageType"@) {
                    Err(e) => Err(e),
                    Ok(image_type) => match spec_opt_str(o, "mediaType"@) {
                        Err(e) => Err(e),
                        Ok(media_type) => match spec_opt_i64(o, "size"@) {
                            Err(e) => Err(e),
                            Ok(size) => match spec_opt_str_map(o, "labels"@) {
                                Err(e) => Err(e),
                                Ok(labels) => Ok(
                                    InvocationImageV {
                                        content_digest,
                                        image,
                                        image_type,
                                        media_type,
                                        size,
                                        labels,
                                    },
                                ),
                            },
                        },
                    },
                },
            },
        },
        _ => Err(FormatErrorV::WrongType(k)),
    }
}

pub fn invocation_image_from_json(j: &Json, k: &str) -> (r: Result<InvocationImage, FormatError>)
    ensures
        res_view(r) == spec_invocation_image_from(jview(*j), k@),
{
    match j {
        Json::Obj(entries) => {
            let content_digest = match opt_str(entries, "contentDigest") {
                Ok(v) => v,
                Err(e) => {
                    return Err(e);
                },
            };
            let image = match req_str(entries, "image") {
                Ok(v) => v,
                Err(e) => {
                    return Err(e);
                },
            };
            let image_type = match opt_str(entries, "imageType") {
                Ok(v) => v,
                Err(e) => {
                    return Err(e);
                },
            };
            let media_type = match opt_str(entries, "mediaType") {
                Ok(v) => v,
                Err(e) => {
                    return Err(e);
                },
            };
            let size = match opt_i64(entries, "size") {
                Ok(v) => v,
                Err(e) => {
                    return Err(e);
                },
            };
            let labels = match opt_str_map(entries, "labels") {
                Ok(v) => v,
                Err(e) => {
                    return Err(e);
                },
            };
            Ok(InvocationImage { content_digest, image, image_type, media_type, size, labels })
        },
        _ => Err(FormatError::WrongType(String::from_str(k))),
    }
}

// ---------------------------------------------------------------------------
// Entity collections
// ---------------------------------------------------------------------------

pub open spec fn spec_action_map(m: Seq<(Seq<char>, JsonV)>, k: Seq<char>) -> Result<
    Seq<(Seq<char>, ActionV)>,
    FormatErrorV,
> {
    spec_entity_map(m, |v: JsonV| spec_action_from(v, k), 0)
}

pub open spec fn spec_credential_map(m: Seq<(Seq<char>, JsonV)>, k: Seq<char>) -> Result<
    Seq<(Seq<char>, CredentialV)>,
    FormatErrorV,
> {
    spec_entity_map(m, |v: JsonV| spec_credential_from(v, k), 0)
}

pub open spec fn spec_image_map(m: Seq<(Seq<char>, JsonV)>, k: Seq<char>) -> Result<
    Seq<(Seq<char>, ImageV)>,
    FormatErrorV,
> {
    spec_entity_map(m, |v: JsonV| spec_image_from(v, k), 0)
}

pub open spec fn spec_output_map(m: Seq<(Seq<char>, JsonV)>, k: Seq<char>) -> Result<
    Seq<(Seq<char>, OutputV)>,
    FormatErrorV,
> {
    spec_entity_map(m, |v: JsonV| spec_output_from(v, k), 0)
}

pub open spec fn spec_parameter_map(m: Seq<(Seq<char>, JsonV)>, k: Seq<char>) -> Result<
    Seq<(Seq<char>, ParameterV)>,
    FormatErrorV,
> {
    spec_entity_map(m, |v: JsonV| spec_parameter_from(v, k), 0)
}

pub fn action_map_from_json(entries: &Vec<(String, Json)>, k: &str) -> (r: Result<
    Vec<(String, Action)>,
    FormatError,
>)
    ensures
        res_view(r) == spec_action_map(jview_obj(entries@), k@),
{
    let ghost m = jview_obj(entries@);
    let ghost f = |v: JsonV| spec_action_from(v, k@);
    proof {
        lemma_jview_obj_len(entries@);
        assert(f =~= (|v: JsonV| spec_action_from(v, k@)));
    }
    let mut out: Vec<(String, Action)> = Vec::new();
    let mut i: usize = 0;
    while i < entries.len()
        invariant
            0 <= i <= entries@.len(),
            m == jview_obj(entries@),
            m.len() == entries@.len(),
            f == (|v: JsonV| spec_action_from(v, k@)),
            out.deep_view().len() == i,
            (match spec_entity_map(m, f, i as int) {
                Ok(rest) => spec_entity_map(m, f, 0) == Ok::<_, FormatErrorV>(
                    out.deep_view() + rest,
                ),
                Err(e) => spec_entity_map(m, f, 0) == Err::<Seq<(Seq<char>, ActionV)>, _>(e),
            }),
        decreases entries@.len() - i,
    {
        proof {
            lemma_jview_obj_index(entries@, i as int);
        }
        let key = entries[i].0.clone();
        match action_from_json(&entries[i].1, k) {
            Ok(t) => {
                let ghost old_deep = out.deep_view();
                out.push((key, t));
                proof {
                    assert(out.deep_view() =~= old_deep.push((m[i as int].0, t.deep_view())));
                    match spec_entity_map(m, f, i + 1) {
                        Ok(rest) => {
                            assert(old_deep + (seq![(m[i as int].0, t.deep_view())] + rest)
                                =~= old_deep.push((m[i as int].0, t.deep_view())) + rest);
                        },
                        Err(_) => {},
                    }
                }
            },
            Err(e) => {
                return Err(e);
            },
        }
        i = i + 1;
    }
    proof {
        assert(out.deep_view() + Seq::<(Seq<char>, ActionV)>::empty() =~= out.deep_view());
    }
    Ok(out)
}

pub fn credential_map_from_json(entries: &Vec<(String, Json)>, k: &str) -> (r: Result<
    Vec<(String, Credential)>,
    FormatError,
>)
    ensures
        res_view(r) == spec_credential_map(jview_obj(entries@), k@),
{
    let ghost m = jview_obj(entries@);
    let ghost f = |v: JsonV| spec_credential_from(v, k@);
    proof {
        lemma_jview_obj_len(entries@);
        assert(f =~= (|v: JsonV| spec_credential_from(v, k@)));
    }
    let mut out: Vec<(String, Credential)> = Vec::new();
    let mut i: usize = 0;
    while i < entries.len()
        invariant
            0 <= i <= entries@.len(),
            m == jview_obj(entries@),
            m.len() == entries@.len(),
            f == (|v: JsonV| spec_credential_from(v, k@)),
            out.deep_view().len() == i,
            (match spec_entity_map(m, f, i as int) {
                Ok(rest) => spec_entity_map(m, f, 0) == Ok::<_, FormatErrorV>(
                    out.deep_view() + rest,
                ),
                Err(e) => spec_entity_map(m, f, 0) == Err::<Seq<(Seq<char>, CredentialV)>, _>(e),
            }),
        decreases entries@.len() - i,
    {
        proof {
            lemma_jview_obj_index(entries@, i as int);
        }
        let key = entries[i].0.clone();
        match credential_from_json(&entries[i].1, k) {
            Ok(t) => {
                let ghost old_deep = out.deep_view();
                out.push((key, t));
                proof {
                    assert(out.deep_view() =~= old_deep.push((m[i as int].0, t.deep_view())));
                    match spec_entity_map(m, f, i + 1) {
                        Ok(rest) => {
                            assert(old_deep + (seq![(m[i as int].0, t.deep_view())] + rest)
                                =~= old_deep.push((m[i as int].0, t.deep_view())) + rest);
                        },
                        Err(_) => {},
                    }
                }
            },
            Err(e) => {
                return Err(e);
            },
        }
        i = i + 1;
    }
    proof {
        assert(out.deep_view() + Seq::<(Seq<char>, CredentialV)>::empty() =~= out.deep_view());
    }
    Ok(out)
}

pub fn image_map_from_json(entries: &Vec<(String, Json)>, k: &str) -> (r: Result<
    Vec<(String, Image)>,
    FormatError,
>)
    ensures
        res_view(r) == spec_image_map(jview_obj(entries@), k@),
{
    let ghost m = jview_obj(entries@);
    let ghost f = |v: JsonV| spec_image_from(v, k@);
    proof {
        lemma_jview_obj_len(entries@);
        assert(f =~= (|v: JsonV| spec_image_from(v, k@)));
    }
    let mut out: Vec<(String, Image)> = Vec::new();
    let mut i: usize = 0;
    while i < entries.len()
        invariant
            0 <= i <= entries@.len(),
            m == jview_obj(entries@),
            m.len() == entries@.len(),
            f == (|v: JsonV| spec_image_from(v, k@)),
            out.deep_view().len() == i,
            (match spec_entity_map(m, f, i as int) {
                Ok(rest) => spec_entity_map(m, f, 0) == Ok::<_, FormatErrorV>(
                    out.deep_view() + rest,
                ),
                Err(e) => spec_entity_map(m, f, 0) == Err::<Seq<(Seq<char>, ImageV)>, _>(e),
            }),
        decreases entries@.len() - i,
    {
        proof {
            lemma_jview_obj_index(entries@, i as int);
        }
        let key = entries[i].0.clone();
        match image_from_json(&entries[i].1, k) {
            Ok(t) => {
                let ghost old_deep = out.deep_view();
                out.push((key, t));
                proof {
                    assert(out.deep_view() =~= old_deep.push((m[i as int].0, t.deep_view())));
                    match spec_entity_map(m, f, i + 1) {
                        Ok(rest) => {
                            assert(old_deep + (seq![(m[i as int].0, t.deep_view())] + rest)
                                =~= old_deep.push((m[i as int].0, t.deep_view())) + rest);
                        },
                        Err(_) => {},
                    }
                }
            },
            Err(e) => {
                return Err(e);
            },
        }
        i = i + 1;
    }
    proof {
        assert(out.deep_view() + Seq::<(Seq<char>, ImageV)>::empty() =~= out.deep_view());
    }
    Ok(out)
}

pub fn output_map_from_json(entries: &Vec<(String, Json)>, k: &str) -> (r: Result<
    Vec<(String, Output)>,
    FormatError,
>)
    ensures
        res_view(r) == spec_output_map(jview_obj(entries@), k@),
{
    let ghost m = jview_obj(entries@);
    let ghost f = |v: JsonV| spec_output_from(v, k@);
    proof {
        lemma_jview_obj_len(entries@);
        assert(f =~= (|v: JsonV| spec_output_from(v, k@)));
    }
    let mut out: Vec<(String, Output)> = Vec::new();
    let mut i: usize = 0;
    while i < entries.len()
        invariant
            0 <= i <= entries@.len(),
            m == jview_obj(entries@),
            m.len() == entries@.len(),
            f == (|v: JsonV| spec_output_from(v, k@)),
            out.deep_view().len() == i,
            (match spec_entity_map(m, f, i as int) {
                Ok(rest) => spec_entity_map(m, f, 0) == Ok::<_, FormatErrorV>(
                    out.deep_view() + rest,
                ),
                Err(e) => spec_entity_map(m, f, 0) == Err::<Seq<(Seq<char>, OutputV)>, _>(e),
            }),
        decreases entries@.len() - i,
    {
        proof {
            lemma_jview_obj_index(entries@, i as int);
        }
        let key = entries[i].0.clone();
        match output_from_json(&entries[i].1, k) {
            Ok(t) => {
                let ghost old_deep = out.deep_view();
                out.push((key, t));
                proof {
                    assert(out.deep_view() =~= old_deep.push((m[i as int].0, t.deep_view())));
                    match spec_entity_map(m, f, i + 1) {
                        Ok(rest) => {
                            assert(old_deep + (seq![(m[i as int].0, t.deep_view())] + rest)
                                =~= old_deep.push((m[i as int].0, t.deep_view())) + rest);
                        },
                        Err(_) => {},
                    }
                }
            },
            Err(e) => {
                return Err(e);
            },
        }
        i = i + 1;
    }
    proof {
        assert(out.deep_view() + Seq::<(Seq<char>, OutputV)>::empty() =~= out.deep_view());
    }
    Ok(out)
}

pub fn parameter_map_from_json(entries: &Vec<(String, Json)>, k: &str) -> (r: Result<
    Vec<(String, Parameter)>,
    FormatError,
>)
    ensures
        res_view(r) == spec_parameter_map(jview_obj(entries@), k@),
{
    let ghost m = jview_obj(entries@);
    let ghost f = |v: JsonV| spec_parameter_from(v, k@);
    proof {
        lemma_jview_obj_len(entries@);
        assert(f =~= (|v: JsonV| spec_parameter_from(v, k@)));
    }
    let mut out: Vec<(String, Parameter)> = Vec::new();
    let mut i: usize = 0;
    while i < entries.len()
        invariant
            0 <= i <= entries@.len(),
            m == jview_obj(entries@),
            m.len() == entries@.len(),
            f == (|v: JsonV| spec_parameter_from(v, k@)),
            out.deep_view().len() == i,
            (match spec_entity_map(m, f, i as int) {
                Ok(rest) => spec_entity_map(m, f, 0) == Ok::<_, FormatErrorV>(
                    out.deep_view() + rest,
                ),
                Err(e) => spec_entity_map(m, f, 0) == Err::<Seq<(Seq<char>, ParameterV)>, _>(e),
            }),
        decreases entries@.len() - i,
    {
        proof {
            lemma_jview_obj_index(entries@, i as int);
        }
        let key = entries[i].0.clone();
        match parameter_from_json(&entries[i].1, k) {
            Ok(t) => {
                let ghost old_deep = out.deep_view();
                out.push((key, t));
                proof {
                    assert(out.deep_view() =~= old_deep.push((m[i as int].0, t.deep_view())));
                    match spec_entity_map(m, f, i + 1) {
                        Ok(rest) => {
                            assert(old_deep + (seq![(m[i as int].0, t.deep_view())] + rest)
                                =~= old_deep.push((m[i as int].0, t.deep_view())) + rest);
                        },
                        Err(_) => {},
                    }
                }
            },
            Err(e) => {
                return Err(e);
            },
        }
        i = i + 1;
    }
    proof {
        assert(out.deep_view() + Seq::<(Seq<char>, ParameterV)>::empty() =~= out.deep_view());
    }
    Ok(out)
}

/// The bootstrapping images, read from the required array.
pub open spec fn spec_invocation_images(items: Seq<JsonV>) -> Result<
    Seq<InvocationImageV>,
    FormatErrorV,
> {
    spec_entity_list(items, |v: JsonV| spec_invocation_image_from(v, "invocationImages"@), 0)
}

pub fn invocation_images_from_json(items: &Vec<Json>) -> (r: Result<
    Vec<InvocationImage>,
    FormatError,
>)
    ensures
        res_view(r) == spec_invocation_images(jview_arr(items@)),
{
    let ghost va = jview_arr(items@);
    let ghost f = |v: JsonV| spec_invocation_image_from(v, "invocationImages"@);
    proof {
        lemma_jview_arr_len(items@);
        assert(f =~= (|v: JsonV| spec_invocation_image_from(v, "invocationImages"@)));
    }
    let mut out: Vec<InvocationImage> = Vec::new();
    let mut i: usize = 0;
    while i < items.len()
        invariant
            0 <= i <= items@.len(),
            va == jview_arr(items@),
            va.len() == items@.len(),
            f == (|v: JsonV| spec_invocation_image_from(v, "invocationImages"@)),
            out.deep_view().len() == i,
            (match spec_entity_list(va, f, i as int) {
                Ok(rest) => spec_entity_list(va, f, 0) == Ok::<_, FormatErrorV>(
                    out.deep_view() + rest,
                ),
                Err(e) => spec_entity_list(va, f, 0) == Err::<Seq<InvocationImageV>, _>(e),
            }),
        decreases items@.len() - i,
    {
        proof {
            lemma_jview_arr_index(items@, i as int);
        }
        match invocation_image_from_json(&items[i], "invocationImages") {
            Ok(t) => {
                let ghost old_deep = out.deep_view();
                out.push(t);
                proof {
                    assert(out.deep_view() =~= old_deep.push(t.deep_view()));
                    match spec_entity_list(va, f, i + 1) {
                        Ok(rest) => {
                            assert(old_deep + (seq![t.deep_view()] + rest) =~= old_deep.push(
                                t.deep_view(),
                            ) + rest);
                        },
                        Err(_) => {},
                    }
                }
            },
            Err(e) => {
                return Err(e);
            },
        }
        i = i + 1;
    }
    proof {
        assert(out.deep_view() + Seq::<InvocationImageV>::empty() =~= out.deep_view());
    }
    Ok(out)
}

/// Copies the entries of an opaque JSON collection.
pub fn json_map_copy(entries: &Vec<(String, Json)>) -> (r: Vec<(String, Json)>)
    ensures
        r.deep_view() == jview_obj(entries@),
{
    let mut out: Vec<(String, Json)> = Vec::new();
    let mut i: usize = 0;
    proof {
        lemma_jview_obj_len(entries@);
    }
    while i < entries.len()
        invariant
            0 <= i <= entries@.len(),
            out.deep_view().len() == i,
            jview_obj(entries@).len() == entries@.len(),
            forall|p: int|
                0 <= p < i ==> #[trigger] out.deep_view()[p] == jview_obj(entries@)[p],
        decreases entries@.len() - i,
    {
        proof {
            lemma_jview_obj_index(entries@, i as int);
        }
        let key = entries[i].0.clone();
        let val = crate::json::deep_copy(&entries[i].1);
        let ghost old_deep = out.deep_view();
        out.push((key, val));
        proof {
            assert(out.deep_view() =~= old_deep.push((entries@[i as int].0@, jview(val))));
        }
        i = i + 1;
    }
    proof {
        assert(out.deep_view() =~= jview_obj(entries@));
    }
    out
}

/// The maintainers, read from an array.
pub open spec fn spec_maintainer_list(items: Seq<JsonV>, k: Seq<char>) -> Result<
    Seq<MaintainerV>,
    FormatErrorV,
> {
    spec_entity_list(items, |v: JsonV| spec_maintainer_from(v, k), 0)
}

pub fn maintainer_list_from_json(items: &Vec<Json>, k: &str) -> (r: Result<
    Vec<Maintainer>,
    FormatError,
>)
    ensures
        res_view(r) == spec_maintainer_list(jview_arr(items@), k@),
{
    let ghost va = jview_arr(items@);
    let ghost f = |v: JsonV| spec_maintainer_from(v, k@);
    proof {
        lemma_jview_arr_len(items@);
        assert(f =~= (|v: JsonV| spec_maintainer_from(v, k@)));
    }
    let mut out: Vec<Maintainer> = Vec::new();
    let mut i: usize = 0;
    while i < items.len()
        invariant
            0 <= i <= items@.len(),
            va == jview_arr(items@),
            va.len() == items@.len(),
            f == (|v: JsonV| spec_maintainer_from(v, k@)),
            out.deep_view().len() == i,
            (match spec_entity_list(va, f, i as int) {
                Ok(rest) => spec_entity_list(va, f, 0) == Ok::<_, FormatErrorV>(
                    out.deep_view() + rest,
                ),
                Err(e) => spec_entity_list(va, f, 0) == Err::<Seq<MaintainerV>, _>(e),
            }),
        decreases items@.len() - i,
    {
        proof {
            lemma_jview_arr_index(items@, i as int);
        }
        match maintainer_from_json(&items[i], k) {
            Ok(t) => {
                let ghost old_deep = out.deep_view();
                out.push(t);
                proof {
                    assert(out.deep_view() =~= old_deep.push(t.deep_view()));
                    match spec_entity_list(va, f, i + 1) {
                        Ok(rest) => {
                            assert(old_deep + (seq![t.deep_view()] + rest) =~= old_deep.push(
                                t.deep_view(),
                            ) + rest);
                        },
                        Err(_) => {},
                    }
                }
            },
            Err(e) => {
                return Err(e);
            },
        }
        i = i + 1;
    }
    proof {
        assert(out.deep_view() + Seq::<MaintainerV>::empty() =~= out.deep_view());
    }
    Ok(out)
}

// ---------------------------------------------------------------------------
// The bundle
// ---------------------------------------------------------------------------

pub open spec fn spec_opt_action_map(o: Seq<(Seq<char>, JsonV)>, k: Seq<char>) -> Result<
    Option<Seq<(Seq<char>, ActionV)>>,
    FormatErrorV,
> {
    match spec_opt_obj(o, k) {
        Err(e) => Err(e),
        Ok(None) => Ok(None),
        Ok(Some(m)) => match spec_action_map(m, k) {
            Err(e) => Err(e),
            Ok(r) => Ok(Some(r)),
        },
    }
}

pub open spec fn spec_opt_credential_map(o: Seq<(Seq<char>, JsonV)>, k: Seq<char>) -> Result<
    Option<Seq<(Seq<char>, CredentialV)>>,
    FormatErrorV,
> {
    match spec_opt_obj(o, k) {
        Err(e) => Err(e),
        Ok(None) => Ok(None),
        Ok(Some(m)) => match spec_credential_map(m, k) {
            Err(e) => Err(e),
            Ok(r) => Ok(Some(r)),
        },
    }
}

pub open spec fn spec_opt_image_map(o: Seq<(Seq<char>, JsonV)>, k: Seq<char>) -> Result<
    Option<Seq<(Seq<char>, ImageV)>>,
    FormatErrorV,
> {
    match spec_opt_obj(o, k) {
        Err(e) => Err(e),
        Ok(None) => Ok(None),
        Ok(Some(m)) => match spec_image_map(m, k) {
            Err(e) => Err(e),
            Ok(r) => Ok(Some(r)),
        },
    }
}

pub open spec fn spec_opt_output_map(o: Seq<(Seq<char>, JsonV)>, k: Seq<char>) -> Result<
    Option<Seq<(Seq<char>, OutputV)>>,
    FormatErrorV,
> {
    match spec_opt_obj(o, k) {
        Err(e) => Err(e),
        Ok(None) => Ok(None),
        Ok(Some(m)) => match spec_output_map(m, k) {
            Err(e) => Err(e),
            Ok(r) => Ok(Some(r)),
        },
    }
}

pub open spec fn spec_opt_parameter_map(o: Seq<(Seq<char>, JsonV)>, k: Seq<char>) -> Result<
    Option<Seq<(Seq<char>, ParameterV)>>,
    FormatErrorV,
> {
    match spec_opt_obj(o, k) {
        Err(e) => Err(e),
        Ok(None) => Ok(None),
        Ok(Some(m)) => match spec_parameter_map(m, k) {
            Err(e) => Err(e),
            Ok(r) => Ok(Some(r)),
        },
    }
}

pub open spec fn spec_opt_maintainers(o: Seq<(Seq<char>, JsonV)>, k: Seq<char>) -> Result<
    Option<Seq<MaintainerV>>,
    FormatErrorV,
> {
    match obj_get(o, k) {
        None => Ok(None),
        Some(JsonV::Null) => Ok(None),
        Some(JsonV::Arr(items)) => match spec_maintainer_list(items, k) {
            Err(e) => Err(e),
            Ok(r) => Ok(Some(r)),
        },
        Some(_) => Err(FormatErrorV::WrongType(k)),
    }
}

/// The bundle's own version field: required, a string, and a semantic
/// version.
pub open spec fn spec_version_field(o: Seq<(Seq<char>, JsonV)>) -> Result<
    crate::version::VersionV,
    FormatErrorV,
> {
    match obj_get(o, "version"@) {
        None => Err(FormatErrorV::Missing("version"@)),
        Some(JsonV::Str(s)) => match crate::version::spec_parse_semver(s) {
            Some(v) => Ok(v),
            None => Err(FormatErrorV::Version),
        },
        Some(_) => Err(FormatErrorV::WrongType("version"@)),
    }
}

/// Reads a bundle out of the entries of the document's top-level object.
pub open spec fn spec_bundle_from_obj(o: Seq<(Seq<char>, JsonV)>) -> Result<
    BundleV,
    FormatErrorV,
> {
    match spec_req_str(o, "name"@) {
        Err(e) => Err(e),
        Ok(name) => match spec_version_field(o) {
            Err(e) => Err(e),
            Ok(version) => match spec_req_str(o, "schemaVersion"@) {
                Err(e) => Err(e),
                Ok(schema_version) => match obj_get(o, "invocationImages"@) {
                    None => Err(FormatErrorV::Missing("invocationImages"@)),
                    Some(JsonV::Arr(items)) => match spec_invocation_images(items) {
                        Err(e) => Err(e),
                        Ok(invocation_images) => match spec_opt_action_map(o, "actions"@) {
                            Err(e) => Err(e),
                            Ok(actions) => match spec_opt_credential_map(o, "credentials"@) {
                                Err(e) => Err(e),
                                Ok(credentials) => match spec_opt_obj(o, "custom"@) {
                                    Err(e) => Err(e),
                                    Ok(custom) => match spec_opt_obj(o, "definitions"@) {
                                        Err(e) => Err(e),
                                        Ok(definitions) => match spec_opt_str(o, "description"@) {
                                            Err(e) => Err(e),
                                            Ok(description) => match spec_opt_image_map(
                                                o,
                                                "images"@,
                                            ) {
                                                Err(e) => Err(e),
                                                Ok(images) => match spec_opt_str_list(
                                                    o,
                                                    "keywords"@,
                                                ) {
                                                    Err(e) => Err(e),
                                                    Ok(keywords) => match spec_opt_str(
                                                        o,
                                                        "license"@,
                                                    ) {
                                                        Err(e) => Err(e),
                                                        Ok(license) => match spec_opt_maintainers(
                                                            o,
                                                            "maintainers"@,
                                                        ) {
                                                            Err(e) => Err(e),
                                                            Ok(maintainers) => match spec_opt_output_map(
                                                                o,
                                                                "outputs"@,
                                                            ) {
                                                                Err(e) => Err(e),
                                                                Ok(outputs) => match spec_opt_parameter_map(
                                                                    o,
                                                                    "parameters"@,
                                                                ) {
                                                                    Err(e) => Err(e),
                                                                    Ok(parameters) => Ok(
                                                                        BundleV {
                                                                            actions,
                                                                            credentials,
                                                                            custom,
                                                                            definitions,
                                                                            description,
                                                                            images,
                                                                            invocation_images,
                                                                            keywords,
                                                                            license,
                                                                            maintainers,
                                                                            name,
                                                                            outputs,
                                                                            parameters,
                                                                            schema_version,
                                                                            version,
                                                                        },
                                                                    ),
                                                                },
                                                            },
                                                        },
                                                    },
                                                },
                                            },
                                        },
                                    },
                                },
                            },
                        },
                    },
                    Some(_) => Err(FormatErrorV::WrongType("invocationImages"@)),
                },
            },
        },
    }
}

/// Reads a bundle out of a JSON tree: the document must be an object with
/// the required `name`, `version`, `schemaVersion` and `invocationImages`
/// fields; everything else is optional, and unknown fields are ignored.
pub open spec fn spec_bundle_from(v: JsonV) -> Result<BundleV, FormatErrorV> {
    match v {
        JsonV::Obj(o) => spec_bundle_from_obj(o),
        _ => Err(FormatErrorV::WrongType("bundle"@)),
    }
}

impl Bundle {
    /// Reads a bundle from a JSON tree.
    pub fn from_json_tree(j: &Json) -> (r: Result<Bundle, FormatError>)
        ensures
            res_view(r) == spec_bundle_from(jview(*j)),
    {
        match j {
            Json::Obj(entries) => {
                let name = match req_str(entries, "name") {
                    Ok(v) => v,
                    Err(e) => {
                        return Err(e);
                    },
                };
                let version = match lookup(entries, "version") {
                    None => {
                        return Err(FormatError::Missing(String::from_str("version")));
                    },
                    Some(Json::Str(s)) => match crate::version::parse_semver(s.as_str()) {
                        Some(v) => v,
                        None => {
                            return Err(FormatError::Version);
                        },
                    },
                    Some(_) => {
                        return Err(FormatError::WrongType(String::from_str("version")));
                    },
                };
                let schema_version = match req_str(entries, "schemaVersion") {
                    Ok(v) => v,
                    Err(e) => {
                        return Err(e);
                    },
                };
                let invocation_images = match lookup(entries, "invocationImages") {
                    None => {
                        return Err(FormatError::Missing(String::from_str("invocationImages")));
                    },
                    Some(Json::Arr(items)) => match invocation_images_from_json(items) {
                        Ok(v) => v,
                        Err(e) => {
                            return Err(e);
                        },
                    },
                    Some(_) => {
                        return Err(FormatError::WrongType(String::from_str("invocationImages")));
                    },
                };
                let actions = match lookup(entries, "actions") {
                    None => None,
                    Some(Json::Null) => None,
                    Some(Json::Obj(m)) => match action_map_from_json(m, "actions") {
                        Ok(v) => Some(v),
                        Err(e) => {
                            return Err(e);
                        },
                    },
                    Some(_) => {
                        return Err(FormatError::WrongType(String::from_str("actions")));
                    },
                };
                let credentials = match lookup(entries, "credentials") {
                    None => None,
                    Some(Json::Null) => None,
                    Some(Json::Obj(m)) => match credential_map_from_json(m, "credentials") {
                        Ok(v) => Some(v),
                        Err(e) => {
                            return Err(e);
                        },
                    },
                    Some(_) => {
                        return Err(FormatError::WrongType(String::from_str("credentials")));
                    },
                };
                let custom = match lookup(entries, "custom") {
                    None => None,
                    Some(Json::Null) => None,
                    Some(Json::Obj(m)) => Some(json_map_copy(m)),
                    Some(_) => {
                        return Err(FormatError::WrongType(String::from_str("custom")));
                    },
                };
                let definitions = match lookup(entries, "definitions") {
                    None => None,
                    Some(Json::Null) => None,
                    Some(Json::Obj(m)) => Some(json_map_copy(m)),
                    Some(_) => {
                        return Err(FormatError::WrongType(String::from_str("definitions")));
                    },
                };
                let description = match opt_str(entries, "description") {
                    Ok(v) => v,
                    Err(e) => {
                        return Err(e);
                    },
                };
                let images = match lookup(entries, "images") {
                    None => None,
                    Some(Json::Null) => None,
                    Some(Json::Obj(m)) => match image_map_from_json(m, "images") {
                        Ok(v) => Some(v),
                        Err(e) => {
                            return Err(e);
                        },
                    },
                    Some(_) => {
                        return Err(FormatError::WrongType(String::from_str("images")));
                    },
                };
                let keywords = match opt_str_list(entries, "keywords") {
                    Ok(v) => v,
                    Err(e) => {
                        return Err(e);
                    },
                };
                let license = match opt_str(entries, "license") {
                    Ok(v) => v,
                    Err(e) => {
                        return Err(e);
                    },
                };
                let maintainers = match lookup(entries, "maintainers") {
                    None => None,
                    Some(Json::Null) => None,
                    Some(Json::Arr(items)) => match maintainer_list_from_json(
                        items,
                        "maintainers",
                    ) {
                        Ok(v) => Some(v),
                        Err(e) => {
                            return Err(e);
                        },
                    },
                    Some(_) => {
                        return Err(FormatError::WrongType(String::from_str("maintainers")));
                    },
                };
                let outputs = match lookup(entries, "outputs") {
                    None => None,
                    Some(Json::Null) => None,
                    Some(Json::Obj(m)) => match output_map_from_json(m, "outputs") {
                        Ok(v) => Some(v),
                        Err(e) => {
                            return Err(e);
                        },
                    },
                    Some(_) => {
                        return Err(FormatError::WrongType(String::from_str("outputs")));
                    },
                };
                let parameters = match lookup(entries, "parameters") {
                    None => None,
                    Some(Json::Null) => None,
                    Some(Json::Obj(m)) => match parameter_map_from_json(m, "parameters") {
                        Ok(v) => Some(v),
                        Err(e) => {
                            return Err(e);
                        },
                    },
                    Some(_) => {
                        return Err(FormatError::WrongType(String::from_str("parameters")));
                    },
                };
                Ok(
                    Bundle {
                        actions,
                        credentials,
                        custom,
                        definitions,
                        description,
                        images,
                        invocation_images,
                        keywords,
                        license,
                        maintainers,
                        name,
                        outputs,
                        parameters,
                        schema_version,
                        version,
                    },
                )
            },
            _ => Err(FormatError::WrongType(String::from_str("bundle"))),
        }
    }
}

// ---------------------------------------------------------------------------
// Well-formedness of what was read
// ---------------------------------------------------------------------------

/// A field's value in a well-formed object is itself well-formed.
proof fn lemma_field_jwf(o: Seq<(Seq<char>, JsonV)>, k: Seq<char>)
    requires
        jwf(JsonV::Obj(o)),
        obj_get(o, k) is Some,
    ensures
        jwf(obj_get(o, k)->Some_0),
{
    lemma_obj_get_member(o, k);
    let i = choose|i: int| 0 <= i < o.len() && #[trigger] o[i].1 == obj_get(o, k)->Some_0;
    lemma_jwf_obj_index(o, i);
}

/// A field's value nests at least one level below its object.
proof fn lemma_field_depth(o: Seq<(Seq<char>, JsonV)>, k: Seq<char>)
    requires
        obj_get(o, k) is Some,
    ensures
        jdepth(obj_get(o, k)->Some_0) <= jdepth(JsonV::Obj(o)) - 1,
{
    lemma_obj_get_member(o, k);
    let i = choose|i: int| 0 <= i < o.len() && #[trigger] o[i].1 == obj_get(o, k)->Some_0;
    lemma_jdepth_obj_index(o, i);
}

/// An opaque collection read from a well-formed, shallowly nested object is
/// itself well-formed.
proof fn lemma_opt_json_map_wf(o: Seq<(Seq<char>, JsonV)>, k: Seq<char>)
    requires
        jwf(JsonV::Obj(o)),
        jdepth(JsonV::Obj(o)) <= 127,
        spec_opt_obj(o, k) is Ok,
    ensures
        (match spec_opt_obj(o, k)->Ok_0 {
            Some(m) => json_map_wf(m),
            None => true,
        }),
{
    match spec_opt_obj(o, k) {
        Ok(Some(m)) => {
            lemma_field_jwf(o, k);
            lemma_field_depth(o, k);
            assert(obj_get(o, k)->Some_0 == JsonV::Obj(m));
            assert forall|i: int| 0 <= i < m.len() implies jwf((#[trigger] m[i]).1) && jdepth(
                m[i].1,
            ) <= 125 by {
                lemma_jwf_obj_index(m, i);
                lemma_jdepth_obj_index(m, i);
            }
        },
        _ => {},
    }
}

/// An entity collection read from a sorted wire object is sorted.
proof fn lemma_entity_map_sorted<T>(
    m: Seq<(Seq<char>, JsonV)>,
    f: spec_fn(JsonV) -> Result<T, FormatErrorV>,
)
    requires
        map_keys_sorted(m),
        spec_entity_map(m, f, 0) is Ok,
    ensures
        map_keys_sorted(spec_entity_map(m, f, 0)->Ok_0),
{
    lemma_entity_map_entries(m, f, 0);
}

/// An image read from a well-formed value has sorted labels.
proof fn lemma_image_wf(u: JsonV, k: Seq<char>)
    requires
        jwf(u),
        spec_image_from(u, k) is Ok,
    ensures
        image_wf(spec_image_from(u, k)->Ok_0),
{
    let im = spec_image_from(u, k)->Ok_0;
    let o = u->Obj_0;
    assert(spec_opt_i64(o, "size"@) == Ok::<_, FormatErrorV>(im.size));
    match obj_get(o, "size"@) {
        Some(JsonV::Num(sn)) => {
            crate::num::lemma_parse_i64_bounds(sn);
        },
        _ => {},
    }
    match im.labels {
        Some(lbls) => {
            assert(spec_opt_str_map(o, "labels"@) == Ok::<_, FormatErrorV>(Some(lbls)));
            let lm = obj_get(o, "labels"@)->Some_0->Obj_0;
            lemma_field_jwf(o, "labels"@);
            lemma_str_map_keys(lm, "labels"@, 0);
        },
        None => {},
    }
}

/// An invocation image read from a well-formed value has sorted labels.
proof fn lemma_invocation_image_wf(u: JsonV, k: Seq<char>)
    requires
        jwf(u),
        spec_invocation_image_from(u, k) is Ok,
    ensures
        invocation_image_wf(spec_invocation_image_from(u, k)->Ok_0),
{
    let im = spec_invocation_image_from(u, k)->Ok_0;
    let o = u->Obj_0;
    assert(spec_opt_i64(o, "size"@) == Ok::<_, FormatErrorV>(im.size));
    match obj_get(o, "size"@) {
        Some(JsonV::Num(sn)) => {
            crate::num::lemma_parse_i64_bounds(sn);
        },
        _ => {},
    }
    match im.labels {
        Some(lbls) => {
            assert(spec_opt_str_map(o, "labels"@) == Ok::<_, FormatErrorV>(Some(lbls)));
            let lm = obj_get(o, "labels"@)->Some_0->Obj_0;
            lemma_field_jwf(o, "labels"@);
            lemma_str_map_keys(lm, "labels"@, 0);
        },
        None => {},
    }
}

/// A bundle read from a well-formed, shallowly nested tree is well-formed.
pub proof fn lemma_parsed_bundle_wf(v: JsonV)
    requires
        jwf(v),
        jdepth(v) <= 127,
        spec_bundle_from(v) is Ok,
    ensures
        bundle_wf(spec_bundle_from(v)->Ok_0),
{
    let b = spec_bundle_from(v)->Ok_0;
    let o = v->Obj_0;
    assert(jwf(JsonV::Obj(o)));
    // actions
    match spec_opt_action_map(o, "actions"@) {
        Ok(actions) => {
            assert(b.actions == actions);
            match actions {
                Some(am) => {
                    let m = spec_opt_obj(o, "actions"@)->Ok_0->Some_0;
                    lemma_field_jwf(o, "actions"@);
                    lemma_entity_map_sorted(m, |x: JsonV| spec_action_from(x, "actions"@));
                },
                None => {},
            }
        },
        Err(_) => {
            assert(false);
        },
    }
    // credentials
    match spec_opt_credential_map(o, "credentials"@) {
        Ok(credentials) => {
            assert(b.credentials == credentials);
            match credentials {
                Some(_) => {
                    let m = spec_opt_obj(o, "credentials"@)->Ok_0->Some_0;
                    lemma_field_jwf(o, "credentials"@);
                    lemma_entity_map_sorted(m, |x: JsonV| spec_credential_from(x, "credentials"@));
                },
                None => {},
            }
        },
        Err(_) => {
            assert(false);
        },
    }
    // custom and definitions
    lemma_opt_json_map_wf(o, "custom"@);
    lemma_opt_json_map_wf(o, "definitions"@);
    assert(b.custom == spec_opt_obj(o, "custom"@)->Ok_0);
    assert(b.definitions == spec_opt_obj(o, "definitions"@)->Ok_0);
    // images: sorted keys and sorted labels in each image
    match spec_opt_image_map(o, "images"@) {
        Ok(images) => {
            assert(b.images == images);
            match images {
                Some(im) => {
                    let m = spec_opt_obj(o, "images"@)->Ok_0->Some_0;
                    let f = |x: JsonV| spec_image_from(x, "images"@);
                    lemma_field_jwf(o, "images"@);
                    lemma_entity_map_sorted(m, f);
                    lemma_entity_map_entries(m, f, 0);
                    assert forall|i: int| 0 <= i < im.len() implies image_wf(
                        (#[trigger] im[i]).1,
                    ) by {
                        lemma_jwf_obj_index(m, i);
                        assert(im[i].1 == f(m[i].1)->Ok_0);
                        assert(f(m[i].1) == spec_image_from(m[i].1, "images"@));
                        lemma_image_wf(m[i].1, "images"@);
                    }
                },
                None => {},
            }
        },
        Err(_) => {
            assert(false);
        },
    }
    // invocation images: sorted labels in each
    match obj_get(o, "invocationImages"@) {
        Some(JsonV::Arr(items)) => {
            match spec_invocation_images(items) {
                Ok(imgs) => {
                    assert(b.invocation_images == imgs);
                    let f = |x: JsonV| spec_invocation_image_from(x, "invocationImages"@);
                    lemma_field_jwf(o, "invocationImages"@);
                    lemma_entity_list_elems(items, f, 0);
                    assert forall|i: int|
                        0 <= i < imgs.len() implies invocation_image_wf(
                        #[trigger] imgs[i],
                    ) by {
                        lemma_jwf_arr_index(items, i);
                        assert(imgs[i] == f(items[i])->Ok_0);
                        assert(f(items[i]) == spec_invocation_image_from(
                            items[i],
                            "invocationImages"@,
                        ));
                        lemma_invocation_image_wf(items[i], "invocationImages"@);
                    }
                },
                Err(_) => {
                    assert(false);
                },
            }
        },
        _ => {
            assert(false);
        },
    }
    // outputs
    match spec_opt_output_map(o, "outputs"@) {
        Ok(outputs) => {
            assert(b.outputs == outputs);
            match outputs {
                Some(_) => {
                    let m = spec_opt_obj(o, "outputs"@)->Ok_0->Some_0;
                    lemma_field_jwf(o, "outputs"@);
                    lemma_entity_map_sorted(m, |x: JsonV| spec_output_from(x, "outputs"@));
                },
                None => {},
            }
        },
        Err(_) => {
            assert(false);
        },
    }
    // parameters
    match spec_opt_parameter_map(o, "parameters"@) {
        Ok(parameters) => {
            assert(b.parameters == parameters);
            match parameters {
                Some(_) => {
                    let m = spec_opt_obj(o, "parameters"@)->Ok_0->Some_0;
                    lemma_field_jwf(o, "parameters"@);
                    lemma_entity_map_sorted(m, |x: JsonV| spec_parameter_from(x, "parameters"@));
                },
                None => {},
            }
        },
        Err(_) => {
            assert(false);
        },
    }
}

// ---------------------------------------------------------------------------
// The boundary: wire text in
// ---------------------------------------------------------------------------

/// Reads a bundle from wire text: malformed JSON is a syntax fault, and a
/// well-formed document is read as [`spec_bundle_from`] describes.
pub open spec fn spec_parse_bundle(s: Seq<char>) -> Result<BundleV, FormatErrorV> {
    match crate::wire::spec_parse_json(s) {
        None => Err(FormatErrorV::Syntax),
        Some(v) => spec_bundle_from(v),
    }
}

impl Bundle {
    /// Reads a bundle descriptor from wire text.
    ///
    /// Never panics: any text that is not a well-formed descriptor document
    /// is answered with the fault that [`spec_parse_bundle`] names.  A bundle
    /// that is handed out is well-formed.
    pub fn from_text(s: &str) -> (r: Result<Bundle, FormatError>)
        ensures
            res_view(r) == spec_parse_bundle(s@),
            r matches Ok(b) ==> b.wf(),
    {
        match crate::wire::parse_json(s) {
            None => Err(FormatError::Syntax),
            Some(j) => {
                let r = Bundle::from_json_tree(&j);
                proof {
                    if r is Ok {
                        lemma_parsed_bundle_wf(jview(j));
                    }
                }
                r
            },
        }
    }
}

impl core::str::FromStr for Bundle {
    type Err = FormatError;

    fn from_str(s: &str) -> Result<Bundle, FormatError> {
        Bundle::from_text(s)
    }
}

} // verus!
