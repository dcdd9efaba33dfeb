//! The laws the library answers for: reading back what was written gives
//! the same descriptor, field for field; flags default as the wire form
//! prescribes; opaque custom values pass through untouched.

use vstd::prelude::*;
use crate::cnab::{bundle_wf, image_wf, invocation_image_wf, ActionV, BundleV, CredentialV,
    DestinationV, FormatErrorV, ImageV, InvocationImageV, MaintainerV, OutputV, ParameterV,
    PlatformV};
use crate::json::{obj_get, JsonV, lemma_obj_get_concat};
use crate::num::lemma_dec_roundtrip;
use crate::parse::{spec_action_from, spec_action_map, spec_bool_default, spec_bundle_from,
    spec_credential_from, spec_credential_map, spec_destination_from, spec_entity_list,
    spec_entity_map, spec_image_from, spec_image_map, spec_invocation_image_from,
    spec_invocation_images, spec_maintainer_from, spec_maintainer_list, spec_opt_action_map,
    spec_opt_bool, spec_opt_credential_map, spec_opt_i64, spec_opt_image_map,
    spec_opt_maintainers, spec_opt_obj, spec_opt_output_map, spec_opt_parameter_map,
    spec_opt_platform, spec_opt_str, spec_opt_str_list, spec_opt_str_map, spec_output_from,
    spec_output_map, spec_parameter_from, spec_parameter_map, spec_parse_bundle,
    spec_platform_from, spec_req_str, spec_str_list_items, spec_str_map_entries,
    spec_version_field};
use crate::ser::{action_map_opt, bool_opt, credential_map_opt, fld, image_map_opt, labels_opt,
    maintainers_opt, num_opt, obj_opt, opt_fld, output_map_opt, parameter_map_opt, platform_opt,
    spec_action_json, spec_action_map_json, spec_bundle_fields, spec_bundle_json,
    spec_credential_json, spec_credential_map_json, spec_destination_json, spec_image_json,
    spec_image_map_json, spec_invocation_image_json, spec_invocation_images_json,
    spec_maintainer_json, spec_maintainers_json, spec_output_json, spec_output_map_json,
    spec_parameter_json, spec_parameter_map_json, spec_platform_json, spec_str_arr,
    spec_str_map_json, str_arr_opt, str_opt};
use crate::version::{spec_version_chars, version_roundtrip_ok, VersionV};

verus! {

broadcast use vstd::std_specs::vec::group_vec_axioms, vstd::seq::group_seq_axioms;

/// What a lookup finds in a one-field (or omitted) segment.
proof fn lemma_obj_get_opt_fld(k: Seq<char>, ov: Option<JsonV>, k2: Seq<char>)
    ensures
        obj_get(opt_fld(k, ov), k2) == (if k2 == k {
            ov
        } else {
            None
        }),
{
    match ov {
        Some(v) => {
            let s = opt_fld(k, ov);
            assert(s.len() == 1);
            assert(s[0] == (k, v));
            assert(s.drop_first() =~= Seq::<(Seq<char>, JsonV)>::empty());
            assert(obj_get(Seq::<(Seq<char>, JsonV)>::empty(), k2) is None);
            if k2 == k {
                assert(obj_get(s, k2) == Some(v));
            } else {
                assert(obj_get(s, k2) == obj_get(s.drop_first(), k2));
            }
        },
        None => {},
    }
}

/// What a lookup finds in an always-written field segment.
proof fn lemma_obj_get_fld(k: Seq<char>, v: JsonV, k2: Seq<char>)
    ensures
        obj_get(fld(k, v), k2) == (if k2 == k {
            Some(v)
        } else {
            None
        }),
{
    assert(fld(k, v) == opt_fld(k, Some(v)));
    lemma_obj_get_opt_fld(k, Some(v), k2);
}

/// Reading back written strings, one for one.
proof fn lemma_str_arr_roundtrip(ss: Seq<Seq<char>>, k: Seq<char>, i: int)
    requires
        0 <= i <= ss.len(),
    ensures
        spec_str_list_items(spec_str_arr(ss), k, i) == Ok::<Seq<Seq<char>>, FormatErrorV>(
            ss.subrange(i, ss.len() as int),
        ),
    decreases ss.len() - i,
{
    let r = spec_str_arr(ss);
    if i == ss.len() {
        assert(ss.subrange(i, ss.len() as int) =~= Seq::<Seq<char>>::empty());
    } else {
        lemma_str_arr_roundtrip(ss, k, i + 1);
        assert(r[i] == JsonV::Str(ss[i]));
        assert(seq![ss[i]] + ss.subrange(i + 1, ss.len() as int) =~= ss.subrange(
            i,
            ss.len() as int,
        ));
    }
}

/// Reading back a written string mapping, entry for entry.
proof fn lemma_str_map_roundtrip(m: Seq<(Seq<char>, Seq<char>)>, k: Seq<char>, i: int)
    requires
        0 <= i <= m.len(),
    ensures
        spec_str_map_entries(spec_str_map_json(m), k, i) == Ok::<
            Seq<(Seq<char>, Seq<char>)>,
            FormatErrorV,
        >(m.subrange(i, m.len() as int)),
    decreases m.len() - i,
{
    let r = spec_str_map_json(m);
    if i == m.len() {
        assert(m.subrange(i, m.len() as int) =~= Seq::<(Seq<char>, Seq<char>)>::empty());
    } else {
        lemma_str_map_roundtrip(m, k, i + 1);
        assert(r[i] == (m[i].0, JsonV::Str(m[i].1)));
        assert((m[i].0, m[i].1) == m[i]);
        assert(seq![(m[i].0, m[i].1)] + m.subrange(i + 1, m.len() as int) =~= m.subrange(
            i,
            m.len() as int,
        ));
    }
}

/// Reading back a written entity collection, entry for entry.
proof fn lemma_entity_map_roundtrip<T>(
    m: Seq<(Seq<char>, T)>,
    g: spec_fn(T) -> JsonV,
    f: spec_fn(JsonV) -> Result<T, FormatErrorV>,
    i: int,
)
    requires
        0 <= i <= m.len(),
        forall|q: int|
            0 <= q < m.len() ==> f(g((#[trigger] m[q]).1)) == Ok::<T, FormatErrorV>(m[q].1),
    ensures
        spec_entity_map(Seq::new(m.len(), |q: int| (m[q].0, g(m[q].1))), f, i) == Ok::<
            Seq<(Seq<char>, T)>,
            FormatErrorV,
        >(m.subrange(i, m.len() as int)),
    decreases m.len() - i,
{
    let r = Seq::new(m.len(), |q: int| (m[q].0, g(m[q].1)));
    if i == m.len() {
        assert(m.subrange(i, m.len() as int) =~= Seq::<(Seq<char>, T)>::empty());
    } else {
        lemma_entity_map_roundtrip(m, g, f, i + 1);
        assert(r[i] == (m[i].0, g(m[i].1)));
        assert(f(r[i].1) == Ok::<T, FormatErrorV>(m[i].1));
        assert((m[i].0, m[i].1) == m[i]);
        assert(seq![(m[i].0, m[i].1)] + m.subrange(i + 1, m.len() as int) =~= m.subrange(
            i,
            m.len() as int,
        ));
    }
}

/// Reading back a written entity list, element for element.
proof fn lemma_entity_list_roundtrip<T>(
    items: Seq<T>,
    g: spec_fn(T) -> JsonV,
    f: spec_fn(JsonV) -> Result<T, FormatErrorV>,
    i: int,
)
    requires
        0 <= i <= items.len(),
        forall|q: int|
            0 <= q < items.len() ==> f(g(#[trigger] items[q])) == Ok::<T, FormatErrorV>(items[q]),
    ensures
        spec_entity_list(Seq::new(items.len(), |q: int| g(items[q])), f, i) == Ok::<
            Seq<T>,
            FormatErrorV,
        >(items.subrange(i, items.len() as int)),
    decreases items.len() - i,
{
    let r = Seq::new(items.len(), |q: int| g(items[q]));
    if i == items.len() {
        assert(items.subrange(i, items.len() as int) =~= Seq::<T>::empty());
    } else {
        lemma_entity_list_roundtrip(items, g, f, i + 1);
        assert(r[i] == g(items[i]));
        assert(f(r[i]) == Ok::<T, FormatErrorV>(items[i]));
        assert(seq![items[i]] + items.subrange(i + 1, items.len() as int) =~= items.subrange(
            i,
            items.len() as int,
        ));
    }
}
/// Reading back a written destination.
#[verifier::rlimit(100)]
proof fn lemma_destination_roundtrip(v: DestinationV, k: Seq<char>)
    ensures
        spec_destination_from(spec_destination_json(v), k) == Ok::<DestinationV, FormatErrorV>(v),
{
    let s1 = opt_fld("env"@, str_opt(v.env));
    let s2 = opt_fld("path"@, str_opt(v.path));
    let o = s1 + s2;
    reveal_strlit("env");
    reveal_strlit("path");
    assert("env"@.len() == 3);
    assert("path"@.len() == 4);
    assert("env"@ != "path"@);
    lemma_obj_get_opt_fld("env"@, str_opt(v.env), "env"@);
    lemma_obj_get_opt_fld("path"@, str_opt(v.path), "env"@);
    lemma_obj_get_concat(s1, s2, "env"@);
    assert(spec_opt_str(o, "env"@) == Ok::<Option<Seq<char>>, FormatErrorV>(v.env));
    lemma_obj_get_opt_fld("env"@, str_opt(v.env), "path"@);
    lemma_obj_get_opt_fld("path"@, str_opt(v.path), "path"@);
    lemma_obj_get_concat(s1, s2, "path"@);
    assert(spec_opt_str(o, "path"@) == Ok::<Option<Seq<char>>, FormatErrorV>(v.path));
    assert(spec_destination_from(spec_destination_json(v), k)->Ok_0 =~= v);
}

/// Reading back a written platform.
#[verifier::rlimit(100)]
proof fn lemma_platform_roundtrip(v: PlatformV, k: Seq<char>)
    ensures
        spec_platform_from(spec_platform_json(v), k) == Ok::<PlatformV, FormatErrorV>(v),
{
    let s1 = opt_fld("arch"@, str_opt(v.arch));
    let s2 = opt_fld("os"@, str_opt(v.os));
    let o = s1 + s2;
    reveal_strlit("arch");
    reveal_strlit("os");
    assert("arch"@.len() == 4);
    assert("os"@.len() == 2);
    assert("arch"@ != "os"@);
    lemma_obj_get_opt_fld("arch"@, str_opt(v.arch), "arch"@);
    lemma_obj_get_opt_fld("os"@, str_opt(v.os), "arch"@);
    lemma_obj_get_concat(s1, s2, "arch"@);
    assert(spec_opt_str(o, "arch"@) == Ok::<Option<Seq<char>>, FormatErrorV>(v.arch));
    lemma_obj_get_opt_fld("arch"@, str_opt(v.arch), "os"@);
    lemma_obj_get_opt_fld("os"@, str_opt(v.os), "os"@);
    lemma_obj_get_concat(s1, s2, "os"@);
    assert(spec_opt_str(o, "os"@) == Ok::<Option<Seq<char>>, FormatErrorV>(v.os));
    assert(spec_platform_from(spec_platform_json(v), k)->Ok_0 =~= v);
}

/// Reading back a written action.
#[verifier::rlimit(100)]
proof fn lemma_action_roundtrip(v: ActionV, k: Seq<char>)
    ensures
        spec_action_from(spec_action_json(v), k) == Ok::<ActionV, FormatErrorV>(v),
{
    let s1 = opt_fld("description"@, str_opt(v.description));
    let s2 = fld("modifies"@, JsonV::Bool(v.modifies));
    let s3 = fld("stateless"@, JsonV::Bool(v.stateless));
    let o = s1 + s2 + s3;
    reveal_strlit("description");
    reveal_strlit("modifies");
    reveal_strlit("stateless");
    assert("description"@.len() == 11);
    assert("modifies"@.len() == 8);
    assert("stateless"@.len() == 9);
    assert("description"@ != "modifies"@);
    assert("description"@ != "stateless"@);
    assert("modifies"@ != "stateless"@);
    lemma_obj_get_opt_fld("description"@, str_opt(v.description), "description"@);
    lemma_obj_get_fld("modifies"@, JsonV::Bool(v.modifies), "description"@);
    lemma_obj_get_fld("stateless"@, JsonV::Bool(v.stateless), "description"@);
    lemma_obj_get_concat(s1, s2, "description"@);
    lemma_obj_get_concat(s1 + s2, s3, "description"@);
    assert(spec_opt_str(o, "description"@) == Ok::<Option<Seq<char>>, FormatErrorV>(v.description));
    lemma_obj_get_opt_fld("description"@, str_opt(v.description), "modifies"@);
    lemma_obj_get_fld("modifies"@, JsonV::Bool(v.modifies), "modifies"@);
    lemma_obj_get_fld("stateless"@, JsonV::Bool(v.stateless), "modifies"@);
    lemma_obj_get_concat(s1, s2, "modifies"@);
    lemma_obj_get_concat(s1 + s2, s3, "modifies"@);
    assert(spec_bool_default(o, "modifies"@) == Ok::<bool, FormatErrorV>(v.modifies));
    lemma_obj_get_opt_fld("description"@, str_opt(v.description), "stateless"@);
    lemma_obj_get_fld("modifies"@, JsonV::Bool(v.modifies), "stateless"@);
    lemma_obj_get_fld("stateless"@, JsonV::Bool(v.stateless), "stateless"@);
    lemma_obj_get_concat(s1, s2, "stateless"@);
    lemma_obj_get_concat(s1 + s2, s3, "stateless"@);
    assert(spec_bool_default(o, "stateless"@) == Ok::<bool, FormatErrorV>(v.stateless));
    assert(spec_action_from(spec_action_json(v), k)->Ok_0 =~= v);
}

/// Reading back a written credential.
#[verifier::rlimit(100)]
proof fn lemma_credential_roundtrip(v: CredentialV, k: Seq<char>)
    ensures
        spec_credential_from(spec_credential_json(v), k) == Ok::<CredentialV, FormatErrorV>(v),
{
    let s1 = opt_fld("description"@, str_opt(v.description));
    let s2 = opt_fld("env"@, str_opt(v.env));
    let s3 = opt_fld("path"@, str_opt(v.path));
    let s4 = opt_fld("required"@, bool_opt(v.required));
    let o = s1 + s2 + s3 + s4;
    reveal_strlit("description");
    reveal_strlit("env");
    reveal_strlit("path");
    reveal_strlit("required");
    assert("description"@.len() == 11);
    assert("env"@.len() == 3);
    assert("path"@.len() == 4);
    assert("required"@.len() == 8);
    assert("description"@ != "env"@);
    assert("description"@ != "path"@);
    assert("description"@ != "required"@);
    assert("env"@ != "path"@);
    assert("env"@ != "required"@);
    assert("path"@ != "required"@);
    lemma_obj_get_opt_fld("description"@, str_opt(v.description), "description"@);
    lemma_obj_get_opt_fld("env"@, str_opt(v.env), "description"@);
    lemma_obj_get_opt_fld("path"@, str_opt(v.path), "description"@);
    lemma_obj_get_opt_fld("required"@, bool_opt(v.required), "description"@);
    lemma_obj_get_concat(s1, s2, "description"@);
    lemma_obj_get_concat(s1 + s2, s3, "description"@);
    lemma_obj_get_concat(s1 + s2 + s3, s4, "description"@);
    assert(spec_opt_str(o, "description"@) == Ok::<Option<Seq<char>>, FormatErrorV>(v.description));
    lemma_obj_get_opt_fld("description"@, str_opt(v.description), "env"@);
    lemma_obj_get_opt_fld("env"@, str_opt(v.env), "env"@);
    lemma_obj_get_opt_fld("path"@, str_opt(v.path), "env"@);
    lemma_obj_get_opt_fld("required"@, bool_opt(v.required), "env"@);
    lemma_obj_get_concat(s1, s2, "env"@);
    lemma_obj_get_concat(s1 + s2, s3, "env"@);
    lemma_obj_get_concat(s1 + s2 + s3, s4, "env"@);
    assert(spec_opt_str(o, "env"@) == Ok::<Option<Seq<char>>, FormatErrorV>(v.env));
    lemma_obj_get_opt_fld("description"@, str_opt(v.description), "path"@);
    lemma_obj_get_opt_fld("env"@, str_opt(v.env), "path"@);
    lemma_obj_get_opt_fld("path"@, str_opt(v.path), "path"@);
    lemma_obj_get_opt_fld("required"@, bool_opt(v.required), "path"@);
    lemma_obj_get_concat(s1, s2, "path"@);
    lemma_obj_get_concat(s1 + s2, s3, "path"@);
    lemma_obj_get_concat(s1 + s2 + s3, s4, "path"@);
    assert(spec_opt_str(o, "path"@) == Ok::<Option<Seq<char>>, FormatErrorV>(v.path));
    lemma_obj_get_opt_fld("description"@, str_opt(v.description), "required"@);
    lemma_obj_get_opt_fld("env"@, str_opt(v.env), "required"@);
    lemma_obj_get_opt_fld("path"@, str_opt(v.path), "required"@);
    lemma_obj_get_opt_fld("required"@, bool_opt(v.required), "required"@);
    lemma_obj_get_concat(s1, s2, "required"@);
    lemma_obj_get_concat(s1 + s2, s3, "required"@);
    lemma_obj_get_concat(s1 + s2 + s3, s4, "required"@);
    assert(spec_opt_bool(o, "required"@) == Ok::<Option<bool>, FormatErrorV>(v.required));
    assert(spec_credential_from(spec_credential_json(v), k)->Ok_0 =~= v);
}

/// Reading back a written maintainer.
#[verifier::rlimit(100)]
proof fn lemma_maintainer_roundtrip(v: MaintainerV, k: Seq<char>)
    ensures
        spec_maintainer_from(spec_maintainer_json(v), k) == Ok::<MaintainerV, FormatErrorV>(v),
{
    let s1 = opt_fld("email"@, str_opt(v.email));
    let s2 = fld("name"@, JsonV::Str(v.name));
    let s3 = opt_fld("url"@, str_opt(v.url));
    let o = s1 + s2 + s3;
    reveal_strlit("email");
    reveal_strlit("name");
    reveal_strlit("url");
    assert("email"@.len() == 5);
    assert("name"@.len() == 4);
    assert("url"@.len() == 3);
    assert("email"@ != "name"@);
    assert("email"@ != "url"@);
    assert("name"@ != "url"@);
    lemma_obj_get_opt_fld("email"@, str_opt(v.email), "email"@);
    lemma_obj_get_fld("name"@, JsonV::Str(v.name), "email"@);
    lemma_obj_get_opt_fld("url"@, str_opt(v.url), "email"@);
    lemma_obj_get_concat(s1, s2, "email"@);
    lemma_obj_get_concat(s1 + s2, s3, "email"@);
    assert(spec_opt_str(o, "email"@) == Ok::<Option<Seq<char>>, FormatErrorV>(v.email));
    lemma_obj_get_opt_fld("email"@, str_opt(v.email), "name"@);
    lemma_obj_get_fld("name"@, JsonV::Str(v.name), "name"@);
    lemma_obj_get_opt_fld("url"@, str_opt(v.url), "name"@);
    lemma_obj_get_concat(s1, s2, "name"@);
    lemma_obj_get_concat(s1 + s2, s3, "name"@);
    assert(spec_req_str(o, "name"@) == Ok::<Seq<char>, FormatErrorV>(v.name));
    lemma_obj_get_opt_fld("email"@, str_opt(v.email), "url"@);
    lemma_obj_get_fld("name"@, JsonV::Str(v.name), "url"@);
    lemma_obj_get_opt_fld("url"@, str_opt(v.url), "url"@);
    lemma_obj_get_concat(s1, s2, "url"@);
    lemma_obj_get_concat(s1 + s2, s3, "url"@);
    assert(spec_opt_str(o, "url"@) == Ok::<Option<Seq<char>>, FormatErrorV>(v.url));
    assert(spec_maintainer_from(spec_maintainer_json(v), k)->Ok_0 =~= v);
}

/// Reading back a written output.
#[verifier::rlimit(100)]
proof fn lemma_output_roundtrip(v: OutputV, k: Seq<char>)
    ensures
        spec_output_from(spec_output_json(v), k) == Ok::<OutputV, FormatErrorV>(v),
{
    let s1 = opt_fld("applyTo"@, str_arr_opt(v.apply_to));
    let s2 = fld("definition"@, JsonV::Str(v.definition));
    let s3 = opt_fld("description"@, str_opt(v.description));
    let s4 = opt_fld("path"@, str_opt(v.path));
    let o = s1 + s2 + s3 + s4;
    reveal_strlit("applyTo");
    reveal_strlit("definition");
    reveal_strlit("description");
    reveal_strlit("path");
    assert("applyTo"@.len() == 7);
    assert("definition"@.len() == 10);
    assert("description"@.len() == 11);
    assert("path"@.len() == 4);
    assert("applyTo"@ != "definition"@);
    assert("applyTo"@ != "description"@);
    assert("applyTo"@ != "path"@);
    assert("definition"@ != "description"@);
    assert("definition"@ != "path"@);
    assert("description"@ != "path"@);
    lemma_obj_get_opt_fld("applyTo"@, str_arr_opt(v.apply_to), "applyTo"@);
    lemma_obj_get_fld("definition"@, JsonV::Str(v.definition), "applyTo"@);
    lemma_obj_get_opt_fld("description"@, str_opt(v.description), "applyTo"@);
    lemma_obj_get_opt_fld("path"@, str_opt(v.path), "applyTo"@);
    lemma_obj_get_concat(s1, s2, "applyTo"@);
    lemma_obj_get_concat(s1 + s2, s3, "applyTo"@);
    lemma_obj_get_concat(s1 + s2 + s3, s4, "applyTo"@);
    assert(spec_opt_str_list(o, "applyTo"@) == Ok::<Option<Seq<Seq<char>>>, FormatErrorV>(v.apply_to)) by {
        match v.apply_to {
            Some(ss) => {
                lemma_str_arr_roundtrip(ss, "applyTo"@, 0);
                assert(ss.subrange(0, ss.len() as int) =~= ss);
            },
            None => {},
        }
    }
    lemma_obj_get_opt_fld("applyTo"@, str_arr_opt(v.apply_to), "definition"@);
    lemma_obj_get_fld("definition"@, JsonV::Str(v.definition), "definition"@);
    lemma_obj_get_opt_fld("description"@, str_opt(v.description), "definition"@);
    lemma_obj_get_opt_fld("path"@, str_opt(v.path), "definition"@);
    lemma_obj_get_concat(s1, s2, "definition"@);
    lemma_obj_get_concat(s1 + s2, s3, "definition"@);
    lemma_obj_get_concat(s1 + s2 + s3, s4, "definition"@);
    assert(spec_req_str(o, "definition"@) == Ok::<Seq<char>, FormatErrorV>(v.definition));
    lemma_obj_get_opt_fld("applyTo"@, str_arr_opt(v.apply_to), "description"@);
    lemma_obj_get_fld("definition"@, JsonV::Str(v.definition), "description"@);
    lemma_obj_get_opt_fld("description"@, str_opt(v.description), "description"@);
    lemma_obj_get_opt_fld("path"@, str_opt(v.path), "description"@);
    lemma_obj_get_concat(s1, s2, "description"@);
    lemma_obj_get_concat(s1 + s2, s3, "description"@);
    lemma_obj_get_concat(s1 + s2 + s3, s4, "description"@);
    assert(spec_opt_str(o, "description"@) == Ok::<Option<Seq<char>>, FormatErrorV>(v.description));
    lemma_obj_get_opt_fld("applyTo"@, str_arr_opt(v.apply_to), "path"@);
    lemma_obj_get_fld("definition"@, JsonV::Str(v.definition), "path"@);
    lemma_obj_get_opt_fld("description"@, str_opt(v.description), "path"@);
    lemma_obj_get_opt_fld("path"@, str_opt(v.path), "path"@);
    lemma_obj_get_concat(s1, s2, "path"@);
    lemma_obj_get_concat(s1 + s2, s3, "path"@);
    lemma_obj_get_concat(s1 + s2 + s3, s4, "path"@);
    assert(spec_opt_str(o, "path"@) == Ok::<Option<Seq<char>>, FormatErrorV>(v.path));
    assert(spec_output_from(spec_output_json(v), k)->Ok_0 =~= v);
}

/// Reading back a written parameter.
#[verifier::rlimit(100)]
proof fn lemma_parameter_roundtrip(v: ParameterV, k: Seq<char>)
    ensures
        spec_parameter_from(spec_parameter_json(v), k) == Ok::<ParameterV, FormatErrorV>(v),
{
    let s1 = opt_fld("applyTo"@, str_arr_opt(v.apply_to));
    let s2 = opt_fld("definition"@, str_opt(v.definition));
    let s3 = opt_fld("description"@, str_opt(v.description));
    let s4 = fld("destination"@, spec_destination_json(v.destination));
    let s5 = opt_fld("required"@, bool_opt(v.required));
    let o = s1 + s2 + s3 + s4 + s5;
    reveal_strlit("applyTo");
    reveal_strlit("definition");
    reveal_strlit("description");
    reveal_strlit("destination");
    reveal_strlit("required");
    assert("applyTo"@.len() == 7);
    assert("definition"@.len() == 10);
    assert("description"@.len() == 11);
    assert("destination"@.len() == 11);
    assert("required"@.len() == 8);
    assert("description"@[3] == 'c');
    assert("destination"@[3] == 't');
    assert("applyTo"@ != "definition"@);
    assert("applyTo"@ != "description"@);
    assert("applyTo"@ != "destination"@);
    assert("applyTo"@ != "required"@);
    assert("definition"@ != "description"@);
    assert("definition"@ != "destination"@);
    assert("definition"@ != "required"@);
    assert("description"@ != "destination"@);
    assert("description"@ != "required"@);
    assert("destination"@ != "required"@);
    lemma_obj_get_opt_fld("applyTo"@, str_arr_opt(v.apply_to), "applyTo"@);
    lemma_obj_get_opt_fld("definition"@, str_opt(v.definition), "applyTo"@);
    lemma_obj_get_opt_fld("description"@, str_opt(v.description), "applyTo"@);
    lemma_obj_get_fld("destination"@, spec_destination_json(v.destination), "applyTo"@);
    lemma_obj_get_opt_fld("required"@, bool_opt(v.required), "applyTo"@);
    lemma_obj_get_concat(s1, s2, "applyTo"@);
    lemma_obj_get_concat(s1 + s2, s3, "applyTo"@);
    lemma_obj_get_concat(s1 + s2 + s3, s4, "applyTo"@);
    lemma_obj_get_concat(s1 + s2 + s3 + s4, s5, "applyTo"@);
    assert(spec_opt_str_list(o, "applyTo"@) == Ok::<Option<Seq<Seq<char>>>, FormatErrorV>(v.apply_to)) by {
        match v.apply_to {
            Some(ss) => {
                lemma_str_arr_roundtrip(ss, "applyTo"@, 0);
                assert(ss.subrange(0, ss.len() as int) =~= ss);
            },
            None => {},
        }
    }
    lemma_obj_get_opt_fld("applyTo"@, str_arr_opt(v.apply_to), "definition"@);
    lemma_obj_get_opt_fld("definition"@, str_opt(v.definition), "definition"@);
    lemma_obj_get_opt_fld("description"@, str_opt(v.description), "definition"@);
    lemma_obj_get_fld("destination"@, spec_destination_json(v.destination), "definition"@);
    lemma_obj_get_opt_fld("required"@, bool_opt(v.required), "definition"@);
    lemma_obj_get_concat(s1, s2, "definition"@);
    lemma_obj_get_concat(s1 + s2, s3, "definition"@);
    lemma_obj_get_concat(s1 + s2 + s3, s4, "definition"@);
    lemma_obj_get_concat(s1 + s2 + s3 + s4, s5, "definition"@);
    assert(spec_opt_str(o, "definition"@) == Ok::<Option<Seq<char>>, FormatErrorV>(v.definition));
    lemma_obj_get_opt_fld("applyTo"@, str_arr_opt(v.apply_to), "description"@);
    lemma_obj_get_opt_fld("definition"@, str_opt(v.definition), "description"@);
    lemma_obj_get_opt_fld("description"@, str_opt(v.description), "description"@);
    lemma_obj_get_fld("destination"@, spec_destination_json(v.destination), "description"@);
    lemma_obj_get_opt_fld("required"@, bool_opt(v.required), "description"@);
    lemma_obj_get_concat(s1, s2, "description"@);
    lemma_obj_get_concat(s1 + s2, s3, "description"@);
    lemma_obj_get_concat(s1 + s2 + s3, s4, "description"@);
    lemma_obj_get_concat(s1 + s2 + s3 + s4, s5, "description"@);
    assert(spec_opt_str(o, "description"@) == Ok::<Option<Seq<char>>, FormatErrorV>(v.description));
    lemma_obj_get_opt_fld("applyTo"@, str_arr_opt(v.apply_to), "destination"@);
    lemma_obj_get_opt_fld("definition"@, str_opt(v.definition), "destination"@);
    lemma_obj_get_opt_fld("description"@, str_opt(v.description), "destination"@);
    lemma_obj_get_fld("destination"@, spec_destination_json(v.destination), "destination"@);
    lemma_obj_get_opt_fld("required"@, bool_opt(v.required), "destination"@);
    lemma_obj_get_concat(s1, s2, "destination"@);
    lemma_obj_get_concat(s1 + s2, s3, "destination"@);
    lemma_obj_get_concat(s1 + s2 + s3, s4, "destination"@);
    lemma_obj_get_concat(s1 + s2 + s3 + s4, s5, "destination"@);
    assert(obj_get(o, "destination"@) == Some(spec_destination_json(v.destination)));
    lemma_destination_roundtrip(v.destination, "destination"@);
    lemma_obj_get_opt_fld("applyTo"@, str_arr_opt(v.apply_to), "required"@);
    lemma_obj_get_opt_fld("definition"@, str_opt(v.definition), "required"@);
    lemma_obj_get_opt_fld("description"@, str_opt(v.description), "required"@);
    lemma_obj_get_fld("destination"@, spec_destination_json(v.destination), "required"@);
    lemma_obj_get_opt_fld("required"@, bool_opt(v.required), "required"@);
    lemma_obj_get_concat(s1, s2, "required"@);
    lemma_obj_get_concat(s1 + s2, s3, "required"@);
    lemma_obj_get_concat(s1 + s2 + s3, s4, "required"@);
    lemma_obj_get_concat(s1 + s2 + s3 + s4, s5, "required"@);
    assert(spec_opt_bool(o, "required"@) == Ok::<Option<bool>, FormatErrorV>(v.required));
    assert(spec_parameter_from(spec_parameter_json(v), k)->Ok_0 =~= v);
}

/// Reading back a written image.
#[verifier::rlimit(100)]
proof fn lemma_image_roundtrip(v: ImageV, k: Seq<char>)
    requires
        image_wf(v),
    ensures
        spec_image_from(spec_image_json(v), k) == Ok::<ImageV, FormatErrorV>(v),
{
    let s1 = opt_fld("contentDigest"@, str_opt(v.content_digest));
    let s2 = opt_fld("description"@, str_opt(v.description));
    let s3 = fld("image"@, JsonV::Str(v.image));
    let s4 = opt_fld("imageType"@, str_opt(v.image_type));
    let s5 = opt_fld("labels"@, labels_opt(v.labels));
    let s6 = opt_fld("mediaType"@, str_opt(v.media_type));
    let s7 = opt_fld("platform"@, platform_opt(v.platform));
    let s8 = opt_fld("size"@, num_opt(v.size));
    let o = s1 + s2 + s3 + s4 + s5 + s6 + s7 + s8;
    reveal_strlit("contentDigest");
    reveal_strlit("description");
    reveal_strlit("image");
    reveal_strlit("imageType");
    reveal_strlit("labels");
    reveal_strlit("mediaType");
    reveal_strlit("platform");
    reveal_strlit("size");
    assert("contentDigest"@.len() == 13);
    assert("description"@.len() == 11);
    assert("image"@.len() == 5);
    assert("imageType"@.len() == 9);
    assert("labels"@.len() == 6);
    assert("mediaType"@.len() == 9);
    assert("platform"@.len() == 8);
    assert("size"@.len() == 4);
    assert("imageType"@[0] == 'i');
    assert("mediaType"@[0] == 'm');
    assert("contentDigest"@ != "description"@);
    assert("contentDigest"@ != "image"@);
    assert("contentDigest"@ != "imageType"@);
    assert("contentDigest"@ != "labels"@);
    assert("contentDigest"@ != "mediaType"@);
    assert("contentDigest"@ != "platform"@);
    assert("contentDigest"@ != "size"@);
    assert("description"@ != "image"@);
    assert("description"@ != "imageType"@);
    assert("description"@ != "labels"@);
    assert("description"@ != "mediaType"@);
    assert("description"@ != "platform"@);
    assert("description"@ != "size"@);
    assert("image"@ != "imageType"@);
    assert("image"@ != "labels"@);
    assert("image"@ != "mediaType"@);
    assert("image"@ != "platform"@);
    assert("image"@ != "size"@);
    assert("imageType"@ != "labels"@);
    assert("imageType"@ != "mediaType"@);
    assert("imageType"@ != "platform"@);
    assert("imageType"@ != "size"@);
    assert("labels"@ != "mediaType"@);
    assert("labels"@ != "platform"@);
    assert("labels"@ != "size"@);
    assert("mediaType"@ != "platform"@);
    assert("mediaType"@ != "size"@);
    assert("platform"@ != "size"@);
    lemma_obj_get_opt_fld("contentDigest"@, str_opt(v.content_digest), "contentDigest"@);
    lemma_obj_get_opt_fld("description"@, str_opt(v.description), "contentDigest"@);
    lemma_obj_get_fld("image"@, JsonV::Str(v.image), "contentDigest"@);
    lemma_obj_get_opt_fld("imageType"@, str_opt(v.image_type), "contentDigest"@);
    lemma_obj_get_opt_fld("labels"@, labels_opt(v.labels), "contentDigest"@);
    lemma_obj_get_opt_fld("mediaType"@, str_opt(v.media_type), "contentDigest"@);
    lemma_obj_get_opt_fld("platform"@, platform_opt(v.platform), "contentDigest"@);
    lemma_obj_get_opt_fld("size"@, num_opt(v.size), "contentDigest"@);
    lemma_obj_get_concat(s1, s2, "contentDigest"@);
    lemma_obj_get_concat(s1 + s2, s3, "contentDigest"@);
    lemma_obj_get_concat(s1 + s2 + s3, s4, "contentDigest"@);
    lemma_obj_get_concat(s1 + s2 + s3 + s4, s5, "contentDigest"@);
    lemma_obj_get_concat(s1 + s2 + s3 + s4 + s5, s6, "contentDigest"@);
    lemma_obj_get_concat(s1 + s2 + s3 + s4 + s5 + s6, s7, "contentDigest"@);
    lemma_obj_get_concat(s1 + s2 + s3 + s4 + s5 + s6 + s7, s8, "contentDigest"@);
    assert(spec_opt_str(o, "contentDigest"@) == Ok::<Option<Seq<char>>, FormatErrorV>(v.content_digest));
    lemma_obj_get_opt_fld("contentDigest"@, str_opt(v.content_digest), "description"@);
    lemma_obj_get_opt_fld("description"@, str_opt(v.description), "description"@);
    lemma_obj_get_fld("image"@, JsonV::Str(v.image), "description"@);
    lemma_obj_get_opt_fld("imageType"@, str_opt(v.image_type), "description"@);
    lemma_obj_get_opt_fld("labels"@, labels_opt(v.labels), "description"@);
    lemma_obj_get_opt_fld("mediaType"@, str_opt(v.media_type), "description"@);
    lemma_obj_get_opt_fld("platform"@, platform_opt(v.platform), "description"@);
    lemma_obj_get_opt_fld("size"@, num_opt(v.size), "description"@);
    lemma_obj_get_concat(s1, s2, "description"@);
    lemma_obj_get_concat(s1 + s2, s3, "description"@);
    lemma_obj_get_concat(s1 + s2 + s3, s4, "description"@);
    lemma_obj_get_concat(s1 + s2 + s3 + s4, s5, "description"@);
    lemma_obj_get_concat(s1 + s2 + s3 + s4 + s5, s6, "description"@);
    lemma_obj_get_concat(s1 + s2 + s3 + s4 + s5 + s6, s7, "description"@);
    lemma_obj_get_concat(s1 + s2 + s3 + s4 + s5 + s6 + s7, s8, "description"@);
    assert(spec_opt_str(o, "description"@) == Ok::<Option<Seq<char>>, FormatErrorV>(v.description));
    lemma_obj_get_opt_fld("contentDigest"@, str_opt(v.content_digest), "image"@);
    lemma_obj_get_opt_fld("description"@, str_opt(v.description), "image"@);
    lemma_obj_get_fld("image"@, JsonV::Str(v.image), "image"@);
    lemma_obj_get_opt_fld("imageType"@, str_opt(v.image_type), "image"@);
    lemma_obj_get_opt_fld("labels"@, labels_opt(v.labels), "image"@);
    lemma_obj_get_opt_fld("mediaType"@, str_opt(v.media_type), "image"@);
    lemma_obj_get_opt_fld("platform"@, platform_opt(v.platform), "image"@);
    lemma_obj_get_opt_fld("size"@, num_opt(v.size), "image"@);
    lemma_obj_get_concat(s1, s2, "image"@);
    lemma_obj_get_concat(s1 + s2, s3, "image"@);
    lemma_obj_get_concat(s1 + s2 + s3, s4, "image"@);
    lemma_obj_get_concat(s1 + s2 + s3 + s4, s5, "image"@);
    lemma_obj_get_concat(s1 + s2 + s3 + s4 + s5, s6, "image"@);
    lemma_obj_get_concat(s1 + s2 + s3 + s4 + s5 + s6, s7, "image"@);
    lemma_obj_get_concat(s1 + s2 + s3 + s4 + s5 + s6 + s7, s8, "image"@);
    assert(spec_req_str(o, "image"@) == Ok::<Seq<char>, FormatErrorV>(v.image));
    lemma_obj_get_opt_fld("contentDigest"@, str_opt(v.content_digest), "imageType"@);
    lemma_obj_get_opt_fld("description"@, str_opt(v.description), "imageType"@);
    lemma_obj_get_fld("image"@, JsonV::Str(v.image), "imageType"@);
    lemma_obj_get_opt_fld("imageType"@, str_opt(v.image_type), "imageType"@);
    lemma_obj_get_opt_fld("labels"@, labels_opt(v.labels), "imageType"@);
    lemma_obj_get_opt_fld("mediaType"@, str_opt(v.media_type), "imageType"@);
    lemma_obj_get_opt_fld("platform"@, platform_opt(v.platform), "imageType"@);
    lemma_obj_get_opt_fld("size"@, num_opt(v.size), "imageType"@);
    lemma_obj_get_concat(s1, s2, "imageType"@);
    lemma_obj_get_concat(s1 + s2, s3, "imageType"@);
    lemma_obj_get_concat(s1 + s2 + s3, s4, "imageType"@);
    lemma_obj_get_concat(s1 + s2 + s3 + s4, s5, "imageType"@);
    lemma_obj_get_concat(s1 + s2 + s3 + s4 + s5, s6, "imageType"@);
    lemma_obj_get_concat(s1 + s2 + s3 + s4 + s5 + s6, s7, "imageType"@);
    lemma_obj_get_concat(s1 + s2 + s3 + s4 + s5 + s6 + s7, s8, "imageType"@);
    assert(spec_opt_str(o, "imageType"@) == Ok::<Option<Seq<char>>, FormatErrorV>(v.image_type));
    lemma_obj_get_opt_fld("contentDigest"@, str_opt(v.content_digest), "labels"@);
    lemma_obj_get_opt_fld("description"@, str_opt(v.description), "labels"@);
    lemma_obj_get_fld("image"@, JsonV::Str(v.image), "labels"@);
    lemma_obj_get_opt_fld("imageType"@, str_opt(v.image_type), "labels"@);
    lemma_obj_get_opt_fld("labels"@, labels_opt(v.labels), "labels"@);
    lemma_obj_get_opt_fld("mediaType"@, str_opt(v.media_type), "labels"@);
    lemma_obj_get_opt_fld("platform"@, platform_opt(v.platform), "labels"@);
    lemma_obj_get_opt_fld("size"@, num_opt(v.size), "labels"@);
    lemma_obj_get_concat(s1, s2, "labels"@);
    lemma_obj_get_concat(s1 + s2, s3, "labels"@);
    lemma_obj_get_concat(s1 + s2 + s3, s4, "labels"@);
    lemma_obj_get_concat(s1 + s2 + s3 + s4, s5, "labels"@);
    lemma_obj_get_concat(s1 + s2 + s3 + s4 + s5, s6, "labels"@);
    lemma_obj_get_concat(s1 + s2 + s3 + s4 + s5 + s6, s7, "labels"@);
    lemma_obj_get_concat(s1 + s2 + s3 + s4 + s5 + s6 + s7, s8, "labels"@);
    assert(spec_opt_str_map(o, "labels"@) == Ok::<Option<Seq<(Seq<char>, Seq<char>)>>, FormatErrorV>(v.labels)) by {
        match v.labels {
            Some(lm) => {
                lemma_str_map_roundtrip(lm, "labels"@, 0);
                assert(lm.subrange(0, lm.len() as int) =~= lm);
            },
            None => {},
        }
    }
    lemma_obj_get_opt_fld("contentDigest"@, str_opt(v.content_digest), "mediaType"@);
    lemma_obj_get_opt_fld("description"@, str_opt(v.description), "mediaType"@);
    lemma_obj_get_fld("image"@, JsonV::Str(v.image), "mediaType"@);
    lemma_obj_get_opt_fld("imageType"@, str_opt(v.image_type), "mediaType"@);
    lemma_obj_get_opt_fld("labels"@, labels_opt(v.labels), "mediaType"@);
    lemma_obj_get_opt_fld("mediaType"@, str_opt(v.media_type), "mediaType"@);
    lemma_obj_get_opt_fld("platform"@, platform_opt(v.platform), "mediaType"@);
    lemma_obj_get_opt_fld("size"@, num_opt(v.size), "mediaType"@);
    lemma_obj_get_concat(s1, s2, "mediaType"@);
    lemma_obj_get_concat(s1 + s2, s3, "mediaType"@);
    lemma_obj_get_concat(s1 + s2 + s3, s4, "mediaType"@);
    lemma_obj_get_concat(s1 + s2 + s3 + s4, s5, "mediaType"@);
    lemma_obj_get_concat(s1 + s2 + s3 + s4 + s5, s6, "mediaType"@);
    lemma_obj_get_concat(s1 + s2 + s3 + s4 + s5 + s6, s7, "mediaType"@);
    lemma_obj_get_concat(s1 + s2 + s3 + s4 + s5 + s6 + s7, s8, "mediaType"@);
    assert(spec_opt_str(o, "mediaType"@) == Ok::<Option<Seq<char>>, FormatErrorV>(v.media_type));
    lemma_obj_get_opt_fld("contentDigest"@, str_opt(v.content_digest), "platform"@);
    lemma_obj_get_opt_fld("description"@, str_opt(v.description), "platform"@);
    lemma_obj_get_fld("image"@, JsonV::Str(v.image), "platform"@);
    lemma_obj_get_opt_fld("imageType"@, str_opt(v.image_type), "platform"@);
    lemma_obj_get_opt_fld("labels"@, labels_opt(v.labels), "platform"@);
    lemma_obj_get_opt_fld("mediaType"@, str_opt(v.media_type), "platform"@);
    lemma_obj_get_opt_fld("platform"@, platform_opt(v.platform), "platform"@);
    lemma_obj_get_opt_fld("size"@, num_opt(v.size), "platform"@);
    lemma_obj_get_concat(s1, s2, "platform"@);
    lemma_obj_get_concat(s1 + s2, s3, "platform"@);
    lemma_obj_get_concat(s1 + s2 + s3, s4, "platform"@);
    lemma_obj_get_concat(s1 + s2 + s3 + s4, s5, "platform"@);
    lemma_obj_get_concat(s1 + s2 + s3 + s4 + s5, s6, "platform"@);
    lemma_obj_get_concat(s1 + s2 + s3 + s4 + s5 + s6, s7, "platform"@);
    lemma_obj_get_concat(s1 + s2 + s3 + s4 + s5 + s6 + s7, s8, "platform"@);
    assert(spec_opt_platform(o, "platform"@) == Ok::<Option<PlatformV>, FormatErrorV>(v.platform)) by {
        match v.platform {
            Some(p) => {
                lemma_platform_roundtrip(p, "platform"@);
            },
            None => {},
        }
    }
    lemma_obj_get_opt_fld("contentDigest"@, str_opt(v.content_digest), "size"@);
    lemma_obj_get_opt_fld("description"@, str_opt(v.description), "size"@);
    lemma_obj_get_fld("image"@, JsonV::Str(v.image), "size"@);
    lemma_obj_get_opt_fld("imageType"@, str_opt(v.image_type), "size"@);
    lemma_obj_get_opt_fld("labels"@, labels_opt(v.labels), "size"@);
    lemma_obj_get_opt_fld("mediaType"@, str_opt(v.media_type), "size"@);
    lemma_obj_get_opt_fld("platform"@, platform_opt(v.platform), "size"@);
    lemma_obj_get_opt_fld("size"@, num_opt(v.size), "size"@);
    lemma_obj_get_concat(s1, s2, "size"@);
    lemma_obj_get_concat(s1 + s2, s3, "size"@);
    lemma_obj_get_concat(s1 + s2 + s3, s4, "size"@);
    lemma_obj_get_concat(s1 + s2 + s3 + s4, s5, "size"@);
    lemma_obj_get_concat(s1 + s2 + s3 + s4 + s5, s6, "size"@);
    lemma_obj_get_concat(s1 + s2 + s3 + s4 + s5 + s6, s7, "size"@);
    lemma_obj_get_concat(s1 + s2 + s3 + s4 + s5 + s6 + s7, s8, "size"@);
    assert(spec_opt_i64(o, "size"@) == Ok::<Option<int>, FormatErrorV>(v.size)) by {
        match v.size {
            Some(nv) => {
                lemma_dec_roundtrip(nv);
            },
            None => {},
        }
    }
    assert(spec_image_from(spec_image_json(v), k)->Ok_0 =~= v);
}

/// Reading back a written invocation image.
#[verifier::rlimit(100)]
proof fn lemma_invocation_image_roundtrip(v: InvocationImageV, k: Seq<char>)
    requires
        invocation_image_wf(v),
    ensures
        spec_invocation_image_from(spec_invocation_image_json(v), k) == Ok::<InvocationImageV, FormatErrorV>(v),
{
    let s1 = opt_fld("contentDigest"@, str_opt(v.content_digest));
    let s2 = fld("image"@, JsonV::Str(v.image));
    let s3 = opt_fld("imageType"@, str_opt(v.image_type));
    let s4 = opt_fld("labels"@, labels_opt(v.labels));
    let s5 = opt_fld("mediaType"@, str_opt(v.media_type));
    let s6 = opt_fld("size"@, num_opt(v.size));
    let o = s1 + s2 + s3 + s4 + s5 + s6;
    reveal_strlit("contentDigest");
    reveal_strlit("image");
    reveal_strlit("imageType");
    reveal_strlit("labels");
    reveal_strlit("mediaType");
    reveal_strlit("size");
    assert("contentDigest"@.len() == 13);
    assert("image"@.len() == 5);
    assert("imageType"@.len() == 9);
    assert("labels"@.len() == 6);
    assert("mediaType"@.len() == 9);
    assert("size"@.len() == 4);
    assert("imageType"@[0] == 'i');
    assert("mediaType"@[0] == 'm');
    assert("contentDigest"@ != "image"@);
    assert("contentDigest"@ != "imageType"@);
    assert("contentDigest"@ != "labels"@);
    assert("contentDigest"@ != "mediaType"@);
    assert("contentDigest"@ != "size"@);
    assert("image"@ != "imageType"@);
    assert("image"@ != "labels"@);
    assert("image"@ != "mediaType"@);
    assert("image"@ != "size"@);
    assert("imageType"@ != "labels"@);
    assert("imageType"@ != "mediaType"@);
    assert("imageType"@ != "size"@);
    assert("labels"@ != "mediaType"@);
    assert("labels"@ != "size"@);
    assert("mediaType"@ != "size"@);
    lemma_obj_get_opt_fld("contentDigest"@, str_opt(v.content_digest), "contentDigest"@);
    lemma_obj_get_fld("image"@, JsonV::Str(v.image), "contentDigest"@);
    lemma_obj_get_opt_fld("imageType"@, str_opt(v.image_type), "contentDigest"@);
    lemma_obj_get_opt_fld("labels"@, labels_opt(v.labels), "contentDigest"@);
    lemma_obj_get_opt_fld("mediaType"@, str_opt(v.media_type), "contentDigest"@);
    lemma_obj_get_opt_fld("size"@, num_opt(v.size), "contentDigest"@);
    lemma_obj_get_concat(s1, s2, "contentDigest"@);
    lemma_obj_get_concat(s1 + s2, s3, "contentDigest"@);
    lemma_obj_get_concat(s1 + s2 + s3, s4, "contentDigest"@);
    lemma_obj_get_concat(s1 + s2 + s3 + s4, s5, "contentDigest"@);
    lemma_obj_get_concat(s1 + s2 + s3 + s4 + s5, s6, "contentDigest"@);
    assert(spec_opt_str(o, "contentDigest"@) == Ok::<Option<Seq<char>>, FormatErrorV>(v.content_digest));
    lemma_obj_get_opt_fld("contentDigest"@, str_opt(v.content_digest), "image"@);
    lemma_obj_get_fld("image"@, JsonV::Str(v.image), "image"@);
    lemma_obj_get_opt_fld("imageType"@, str_opt(v.image_type), "image"@);
    lemma_obj_get_opt_fld("labels"@, labels_opt(v.labels), "image"@);
    lemma_obj_get_opt_fld("mediaType"@, str_opt(v.media_type), "image"@);
    lemma_obj_get_opt_fld("size"@, num_opt(v.size), "image"@);
    lemma_obj_get_concat(s1, s2, "image"@);
    lemma_obj_get_concat(s1 + s2, s3, "image"@);
    lemma_obj_get_concat(s1 + s2 + s3, s4, "image"@);
    lemma_obj_get_concat(s1 + s2 + s3 + s4, s5, "image"@);
    lemma_obj_get_concat(s1 + s2 + s3 + s4 + s5, s6, "image"@);
    assert(spec_req_str(o, "image"@) == Ok::<Seq<char>, FormatErrorV>(v.image));
    lemma_obj_get_opt_fld("contentDigest"@, str_opt(v.content_digest), "imageType"@);
    lemma_obj_get_fld("image"@, JsonV::Str(v.image), "imageType"@);
    lemma_obj_get_opt_fld("imageType"@, str_opt(v.image_type), "imageType"@);
    lemma_obj_get_opt_fld("labels"@, labels_opt(v.labels), "imageType"@);
    lemma_obj_get_opt_fld("mediaType"@, str_opt(v.media_type), "imageType"@);
    lemma_obj_get_opt_fld("size"@, num_opt(v.size), "imageType"@);
    lemma_obj_get_concat(s1, s2, "imageType"@);
    lemma_obj_get_concat(s1 + s2, s3, "imageType"@);
    lemma_obj_get_concat(s1 + s2 + s3, s4, "imageType"@);
    lemma_obj_get_concat(s1 + s2 + s3 + s4, s5, "imageType"@);
    lemma_obj_get_concat(s1 + s2 + s3 + s4 + s5, s6, "imageType"@);
    assert(spec_opt_str(o, "imageType"@) == Ok::<Option<Seq<char>>, FormatErrorV>(v.image_type));
    lemma_obj_get_opt_fld("contentDigest"@, str_opt(v.content_digest), "labels"@);
    lemma_obj_get_fld("image"@, JsonV::Str(v.image), "labels"@);
    lemma_obj_get_opt_fld("imageType"@, str_opt(v.image_type), "labels"@);
    lemma_obj_get_opt_fld("labels"@, labels_opt(v.labels), "labels"@);
    lemma_obj_get_opt_fld("mediaType"@, str_opt(v.media_type), "labels"@);
    lemma_obj_get_opt_fld("size"@, num_opt(v.size), "labels"@);
    lemma_obj_get_concat(s1, s2, "labels"@);
    lemma_obj_get_concat(s1 + s2, s3, "labels"@);
    lemma_obj_get_concat(s1 + s2 + s3, s4, "labels"@);
    lemma_obj_get_concat(s1 + s2 + s3 + s4, s5, "labels"@);
    lemma_obj_get_concat(s1 + s2 + s3 + s4 + s5, s6, "labels"@);
    assert(spec_opt_str_map(o, "labels"@) == Ok::<Option<Seq<(Seq<char>, Seq<char>)>>, FormatErrorV>(v.labels)) by {
        match v.labels {
            Some(lm) => {
                lemma_str_map_roundtrip(lm, "labels"@, 0);
                assert(lm.subrange(0, lm.len() as int) =~= lm);
            },
            None => {},
        }
    }
    lemma_obj_get_opt_fld("contentDigest"@, str_opt(v.content_digest), "mediaType"@);
    lemma_obj_get_fld("image"@, JsonV::Str(v.image), "mediaType"@);
    lemma_obj_get_opt_fld("imageType"@, str_opt(v.image_type), "mediaType"@);
    lemma_obj_get_opt_fld("labels"@, labels_opt(v.labels), "mediaType"@);
    lemma_obj_get_opt_fld("mediaType"@, str_opt(v.media_type), "mediaType"@);
    lemma_obj_get_opt_fld("size"@, num_opt(v.size), "mediaType"@);
    lemma_obj_get_concat(s1, s2, "mediaType"@);
    lemma_obj_get_concat(s1 + s2, s3, "mediaType"@);
    lemma_obj_get_concat(s1 + s2 + s3, s4, "mediaType"@);
    lemma_obj_get_concat(s1 + s2 + s3 + s4, s5, "mediaType"@);
    lemma_obj_get_concat(s1 + s2 + s3 + s4 + s5, s6, "mediaType"@);
    assert(spec_opt_str(o, "mediaType"@) == Ok::<Option<Seq<char>>, FormatErrorV>(v.media_type));
    lemma_obj_get_opt_fld("contentDigest"@, str_opt(v.content_digest), "size"@);
    lemma_obj_get_fld("image"@, JsonV::Str(v.image), "size"@);
    lemma_obj_get_opt_fld("imageType"@, str_opt(v.image_type), "size"@);
    lemma_obj_get_opt_fld("labels"@, labels_opt(v.labels), "size"@);
    lemma_obj_get_opt_fld("mediaType"@, str_opt(v.media_type), "size"@);
    lemma_obj_get_opt_fld("size"@, num_opt(v.size), "size"@);
    lemma_obj_get_concat(s1, s2, "size"@);
    lemma_obj_get_concat(s1 + s2, s3, "size"@);
    lemma_obj_get_concat(s1 + s2 + s3, s4, "size"@);
    lemma_obj_get_concat(s1 + s2 + s3 + s4, s5, "size"@);
    lemma_obj_get_concat(s1 + s2 + s3 + s4 + s5, s6, "size"@);
    assert(spec_opt_i64(o, "size"@) == Ok::<Option<int>, FormatErrorV>(v.size)) by {
        match v.size {
            Some(nv) => {
                lemma_dec_roundtrip(nv);
            },
            None => {},
        }
    }
    assert(spec_invocation_image_from(spec_invocation_image_json(v), k)->Ok_0 =~= v);
}

/// What the bundle object holds under `actions`.
#[verifier::rlimit(100)]
proof fn lemma_bundle_get_actions(b: BundleV)
    ensures
        obj_get(spec_bundle_fields(b), "actions"@) == action_map_opt(b.actions),
{
    let s1 = opt_fld("actions"@, action_map_opt(b.actions));
    let s2 = opt_fld("credentials"@, credential_map_opt(b.credentials));
    let s3 = opt_fld("custom"@, obj_opt(b.custom));
    let s4 = opt_fld("definitions"@, obj_opt(b.definitions));
    let s5 = opt_fld("description"@, str_opt(b.description));
    let s6 = opt_fld("images"@, image_map_opt(b.images));
    let s7 = fld("invocationImages"@, JsonV::Arr(spec_invocation_images_json(b.invocation_images)));
    let s8 = opt_fld("keywords"@, str_arr_opt(b.keywords));
    let s9 = opt_fld("license"@, str_opt(b.license));
    let s10 = opt_fld("maintainers"@, maintainers_opt(b.maintainers));
    let s11 = fld("name"@, JsonV::Str(b.name));
    let s12 = opt_fld("outputs"@, output_map_opt(b.outputs));
    let s13 = opt_fld("parameters"@, parameter_map_opt(b.parameters));
    let s14 = fld("schemaVersion"@, JsonV::Str(b.schema_version));
    let s15 = fld("version"@, JsonV::Str(spec_version_chars(b.version)));
    let o = s1 + s2 + s3 + s4 + s5 + s6 + s7 + s8 + s9 + s10 + s11 + s12 + s13 + s14 + s15;
    reveal_strlit("actions");
    reveal_strlit("credentials");
    reveal_strlit("custom");
    reveal_strlit("definitions");
    reveal_strlit("description");
    reveal_strlit("images");
    reveal_strlit("invocationImages");
    reveal_strlit("keywords");
    reveal_strlit("license");
    reveal_strlit("maintainers");
    reveal_strlit("name");
    reveal_strlit("outputs");
    reveal_strlit("parameters");
    reveal_strlit("schemaVersion");
    reveal_strlit("version");
    assert("actions"@.len() == 7);
    assert("credentials"@.len() == 11);
    assert("custom"@.len() == 6);
    assert("definitions"@.len() == 11);
    assert("description"@.len() == 11);
    assert("images"@.len() == 6);
    assert("invocationImages"@.len() == 16);
    assert("keywords"@.len() == 8);
    assert("license"@.len() == 7);
    assert("maintainers"@.len() == 11);
    assert("name"@.len() == 4);
    assert("outputs"@.len() == 7);
    assert("parameters"@.len() == 10);
    assert("schemaVersion"@.len() == 13);
    assert("version"@.len() == 7);
    assert("actions"@[0] == 'a');
    assert("license"@[0] == 'l');
    assert("actions"@[0] == 'a');
    assert("outputs"@[0] == 'o');
    assert("actions"@[0] == 'a');
    assert("version"@[0] == 'v');
    assert("credentials"@[0] == 'c');
    assert("definitions"@[0] == 'd');
    assert("credentials"@[0] == 'c');
    assert("description"@[0] == 'd');
    assert("credentials"@[0] == 'c');
    assert("maintainers"@[0] == 'm');
    assert("custom"@[0] == 'c');
    assert("images"@[0] == 'i');
    assert("definitions"@[2] == 'f');
    assert("description"@[2] == 's');
    assert("definitions"@[0] == 'd');
    assert("maintainers"@[0] == 'm');
    assert("description"@[0] == 'd');
    assert("maintainers"@[0] == 'm');
    assert("license"@[0] == 'l');
    assert("outputs"@[0] == 'o');
    assert("license"@[0] == 'l');
    assert("version"@[0] == 'v');
    assert("outputs"@[0] == 'o');
    assert("version"@[0] == 'v');
    assert("credentials"@ != "actions"@);
    assert("custom"@ != "actions"@);
    assert("definitions"@ != "actions"@);
    assert("description"@ != "actions"@);
    assert("images"@ != "actions"@);
    assert("invocationImages"@ != "actions"@);
    assert("keywords"@ != "actions"@);
    assert("license"@ != "actions"@);
    assert("maintainers"@ != "actions"@);
    assert("name"@ != "actions"@);
    assert("outputs"@ != "actions"@);
    assert("parameters"@ != "actions"@);
    assert("schemaVersion"@ != "actions"@);
    assert("version"@ != "actions"@);
    lemma_obj_get_opt_fld("actions"@, action_map_opt(b.actions), "actions"@);
    lemma_obj_get_opt_fld("credentials"@, credential_map_opt(b.credentials), "actions"@);
    lemma_obj_get_opt_fld("custom"@, obj_opt(b.custom), "actions"@);
    lemma_obj_get_opt_fld("definitions"@, obj_opt(b.definitions), "actions"@);
    lemma_obj_get_opt_fld("description"@, str_opt(b.description), "actions"@);
    lemma_obj_get_opt_fld("images"@, image_map_opt(b.images), "actions"@);
    lemma_obj_get_fld("invocationImages"@, JsonV::Arr(spec_invocation_images_json(b.invocation_images)), "actions"@);
    lemma_obj_get_opt_fld("keywords"@, str_arr_opt(b.keywords), "actions"@);
    lemma_obj_get_opt_fld("license"@, str_opt(b.license), "actions"@);
    lemma_obj_get_opt_fld("maintainers"@, maintainers_opt(b.maintainers), "actions"@);
    lemma_obj_get_fld("name"@, JsonV::Str(b.name), "actions"@);
    lemma_obj_get_opt_fld("outputs"@, output_map_opt(b.outputs), "actions"@);
    lemma_obj_get_opt_fld("parameters"@, parameter_map_opt(b.parameters), "actions"@);
    lemma_obj_get_fld("schemaVersion"@, JsonV::Str(b.schema_version), "actions"@);
    lemma_obj_get_fld("version"@, JsonV::Str(spec_version_chars(b.version)), "actions"@);
    lemma_obj_get_concat(s1, s2, "actions"@);
    lemma_obj_get_concat(s1 + s2, s3, "actions"@);
    lemma_obj_get_concat(s1 + s2 + s3, s4, "actions"@);
    lemma_obj_get_concat(s1 + s2 + s3 + s4, s5, "actions"@);
    lemma_obj_get_concat(s1 + s2 + s3 + s4 + s5, s6, "actions"@);
    lemma_obj_get_concat(s1 + s2 + s3 + s4 + s5 + s6, s7, "actions"@);
    lemma_obj_get_concat(s1 + s2 + s3 + s4 + s5 + s6 + s7, s8, "actions"@);
    lemma_obj_get_concat(s1 + s2 + s3 + s4 + s5 + s6 + s7 + s8, s9, "actions"@);
    lemma_obj_get_concat(s1 + s2 + s3 + s4 + s5 + s6 + s7 + s8 + s9, s10, "actions"@);
    lemma_obj_get_concat(s1 + s2 + s3 + s4 + s5 + s6 + s7 + s8 + s9 + s10, s11, "actions"@);
    lemma_obj_get_concat(s1 + s2 + s3 + s4 + s5 + s6 + s7 + s8 + s9 + s10 + s11, s12, "actions"@);
    lemma_obj_get_concat(s1 + s2 + s3 + s4 + s5 + s6 + s7 + s8 + s9 + s10 + s11 + s12, s13, "actions"@);
    lemma_obj_get_concat(s1 + s2 + s3 + s4 + s5 + s6 + s7 + s8 + s9 + s10 + s11 + s12 + s13, s14, "actions"@);
    lemma_obj_get_concat(s1 + s2 + s3 + s4 + s5 + s6 + s7 + s8 + s9 + s10 + s11 + s12 + s13 + s14, s15, "actions"@);
    assert(o == spec_bundle_fields(b));
}

/// What the bundle object holds under `credentials`.
#[verifier::rlimit(100)]
proof fn lemma_bundle_get_credentials(b: BundleV)
    ensures
        obj_get(spec_bundle_fields(b), "credentials"@) == credential_map_opt(b.credentials),
{
    let s1 = opt_fld("actions"@, action_map_opt(b.actions));
    let s2 = opt_fld("credentials"@, credential_map_opt(b.credentials));
    let s3 = opt_fld("custom"@, obj_opt(b.custom));
    let s4 = opt_fld("definitions"@, obj_opt(b.definitions));
    let s5 = opt_fld("description"@, str_opt(b.description));
    let s6 = opt_fld("images"@, image_map_opt(b.images));
    let s7 = fld("invocationImages"@, JsonV::Arr(spec_invocation_images_json(b.invocation_images)));
    let s8 = opt_fld("keywords"@, str_arr_opt(b.keywords));
    let s9 = opt_fld("license"@, str_opt(b.license));
    let s10 = opt_fld("maintainers"@, maintainers_opt(b.maintainers));
    let s11 = fld("name"@, JsonV::Str(b.name));
    let s12 = opt_fld("outputs"@, output_map_opt(b.outputs));
    let s13 = opt_fld("parameters"@, parameter_map_opt(b.parameters));
    let s14 = fld("schemaVersion"@, JsonV::Str(b.schema_version));
    let s15 = fld("version"@, JsonV::Str(spec_version_chars(b.version)));
    let o = s1 + s2 + s3 + s4 + s5 + s6 + s7 + s8 + s9 + s10 + s11 + s12 + s13 + s14 + s15;
    reveal_strlit("actions");
    reveal_strlit("credentials");
    reveal_strlit("custom");
    reveal_strlit("definitions");
    reveal_strlit("description");
    reveal_strlit("images");
    reveal_strlit("invocationImages");
    reveal_strlit("keywords");
    reveal_strlit("license");
    reveal_strlit("maintainers");
    reveal_strlit("name");
    reveal_strlit("outputs");
    reveal_strlit("parameters");
    reveal_strlit("schemaVersion");
    reveal_strlit("version");
    assert("actions"@.len() == 7);
    assert("credentials"@.len() == 11);
    assert("custom"@.len() == 6);
    assert("definitions"@.len() == 11);
    assert("description"@.len() == 11);
    assert("images"@.len() == 6);
    assert("invocationImages"@.len() == 16);
    assert("keywords"@.len() == 8);
    assert("license"@.len() == 7);
    assert("maintainers"@.len() == 11);
    assert("name"@.len() == 4);
    assert("outputs"@.len() == 7);
    assert("parameters"@.len() == 10);
    assert("schemaVersion"@.len() == 13);
    assert("version"@.len() == 7);
    assert("actions"@[0] == 'a');
    assert("license"@[0] == 'l');
    assert("actions"@[0] == 'a');
    assert("outputs"@[0] == 'o');
    assert("actions"@[0] == 'a');
    assert("version"@[0] == 'v');
    assert("credentials"@[0] == 'c');
    assert("definitions"@[0] == 'd');
    assert("credentials"@[0] == 'c');
    assert("description"@[0] == 'd');
    assert("credentials"@[0] == 'c');
    assert("maintainers"@[0] == 'm');
    assert("custom"@[0] == 'c');
    assert("images"@[0] == 'i');
    assert("definitions"@[2] == 'f');
    assert("description"@[2] == 's');
    assert("definitions"@[0] == 'd');
    assert("maintainers"@[0] == 'm');
    assert("description"@[0] == 'd');
    assert("maintainers"@[0] == 'm');
    assert("license"@[0] == 'l');
    assert("outputs"@[0] == 'o');
    assert("license"@[0] == 'l');
    assert("version"@[0] == 'v');
    assert("outputs"@[0] == 'o');
    assert("version"@[0] == 'v');
    assert("actions"@ != "credentials"@);
    assert("custom"@ != "credentials"@);
    assert("definitions"@ != "credentials"@);
    assert("description"@ != "credentials"@);
    assert("images"@ != "credentials"@);
    assert("invocationImages"@ != "credentials"@);
    assert("keywords"@ != "credentials"@);
    assert("license"@ != "credentials"@);
    assert("maintainers"@ != "credentials"@);
    assert("name"@ != "credentials"@);
    assert("outputs"@ != "credentials"@);
    assert("parameters"@ != "credentials"@);
    assert("schemaVersion"@ != "credentials"@);
    assert("version"@ != "credentials"@);
    lemma_obj_get_opt_fld("actions"@, action_map_opt(b.actions), "credentials"@);
    lemma_obj_get_opt_fld("credentials"@, credential_map_opt(b.credentials), "credentials"@);
    lemma_obj_get_opt_fld("custom"@, obj_opt(b.custom), "credentials"@);
    lemma_obj_get_opt_fld("definitions"@, obj_opt(b.definitions), "credentials"@);
    lemma_obj_get_opt_fld("description"@, str_opt(b.description), "credentials"@);
    lemma_obj_get_opt_fld("images"@, image_map_opt(b.images), "credentials"@);
    lemma_obj_get_fld("invocationImages"@, JsonV::Arr(spec_invocation_images_json(b.invocation_images)), "credentials"@);
    lemma_obj_get_opt_fld("keywords"@, str_arr_opt(b.keywords), "credentials"@);
    lemma_obj_get_opt_fld("license"@, str_opt(b.license), "credentials"@);
    lemma_obj_get_opt_fld("maintainers"@, maintainers_opt(b.maintainers), "credentials"@);
    lemma_obj_get_fld("name"@, JsonV::Str(b.name), "credentials"@);
    lemma_obj_get_opt_fld("outputs"@, output_map_opt(b.outputs), "credentials"@);
    lemma_obj_get_opt_fld("parameters"@, parameter_map_opt(b.parameters), "credentials"@);
    lemma_obj_get_fld("schemaVersion"@, JsonV::Str(b.schema_version), "credentials"@);
    lemma_obj_get_fld("version"@, JsonV::Str(spec_version_chars(b.version)), "credentials"@);
    lemma_obj_get_concat(s1, s2, "credentials"@);
    lemma_obj_get_concat(s1 + s2, s3, "credentials"@);
    lemma_obj_get_concat(s1 + s2 + s3, s4, "credentials"@);
    lemma_obj_get_concat(s1 + s2 + s3 + s4, s5, "credentials"@);
    lemma_obj_get_concat(s1 + s2 + s3 + s4 + s5, s6, "credentials"@);
    lemma_obj_get_concat(s1 + s2 + s3 + s4 + s5 + s6, s7, "credentials"@);
    lemma_obj_get_concat(s1 + s2 + s3 + s4 + s5 + s6 + s7, s8, "credentials"@);
    lemma_obj_get_concat(s1 + s2 + s3 + s4 + s5 + s6 + s7 + s8, s9, "credentials"@);
    lemma_obj_get_concat(s1 + s2 + s3 + s4 + s5 + s6 + s7 + s8 + s9, s10, "credentials"@);
    lemma_obj_get_concat(s1 + s2 + s3 + s4 + s5 + s6 + s7 + s8 + s9 + s10, s11, "credentials"@);
    lemma_obj_get_concat(s1 + s2 + s3 + s4 + s5 + s6 + s7 + s8 + s9 + s10 + s11, s12, "credentials"@);
    lemma_obj_get_concat(s1 + s2 + s3 + s4 + s5 + s6 + s7 + s8 + s9 + s10 + s11 + s12, s13, "credentials"@);
    lemma_obj_get_concat(s1 + s2 + s3 + s4 + s5 + s6 + s7 + s8 + s9 + s10 + s11 + s12 + s13, s14, "credentials"@);
    lemma_obj_get_concat(s1 + s2 + s3 + s4 + s5 + s6 + s7 + s8 + s9 + s10 + s11 + s12 + s13 + s14, s15, "credentials"@);
    assert(o == spec_bundle_fields(b));
}

/// What the bundle object holds under `custom`.
#[verifier::rlimit(100)]
proof fn lemma_bundle_get_custom(b: BundleV)
    ensures
        obj_get(spec_bundle_fields(b), "custom"@) == obj_opt(b.custom),
{
    let s1 = opt_fld("actions"@, action_map_opt(b.actions));
    let s2 = opt_fld("credentials"@, credential_map_opt(b.credentials));
    let s3 = opt_fld("custom"@, obj_opt(b.custom));
    let s4 = opt_fld("definitions"@, obj_opt(b.definitions));
    let s5 = opt_fld("description"@, str_opt(b.description));
    let s6 = opt_fld("images"@, image_map_opt(b.images));
    let s7 = fld("invocationImages"@, JsonV::Arr(spec_invocation_images_json(b.invocation_images)));
    let s8 = opt_fld("keywords"@, str_arr_opt(b.keywords));
    let s9 = opt_fld("license"@, str_opt(b.license));
    let s10 = opt_fld("maintainers"@, maintainers_opt(b.maintainers));
    let s11 = fld("name"@, JsonV::Str(b.name));
    let s12 = opt_fld("outputs"@, output_map_opt(b.outputs));
    let s13 = opt_fld("parameters"@, parameter_map_opt(b.parameters));
    let s14 = fld("schemaVersion"@, JsonV::Str(b.schema_version));
    let s15 = fld("version"@, JsonV::Str(spec_version_chars(b.version)));
    let o = s1 + s2 + s3 + s4 + s5 + s6 + s7 + s8 + s9 + s10 + s11 + s12 + s13 + s14 + s15;
    reveal_strlit("actions");
    reveal_strlit("credentials");
    reveal_strlit("custom");
    reveal_strlit("definitions");
    reveal_strlit("description");
    reveal_strlit("images");
    reveal_strlit("invocationImages");
    reveal_strlit("keywords");
    reveal_strlit("license");
    reveal_strlit("maintainers");
    reveal_strlit("name");
    reveal_strlit("outputs");
    reveal_strlit("parameters");
    reveal_strlit("schemaVersion");
    reveal_strlit("version");
    assert("actions"@.len() == 7);
    assert("credentials"@.len() == 11);
    assert("custom"@.len() == 6);
    assert("definitions"@.len() == 11);
    assert("description"@.len() == 11);
    assert("images"@.len() == 6);
    assert("invocationImages"@.len() == 16);
    assert("keywords"@.len() == 8);
    assert("license"@.len() == 7);
    assert("maintainers"@.len() == 11);
    assert("name"@.len() == 4);
    assert("outputs"@.len() == 7);
    assert("parameters"@.len() == 10);
    assert("schemaVersion"@.len() == 13);
    assert("version"@.len() == 7);
    assert("actions"@[0] == 'a');
    assert("license"@[0] == 'l');
    assert("actions"@[0] == 'a');
    assert("outputs"@[0] == 'o');
    assert("actions"@[0] == 'a');
    assert("version"@[0] == 'v');
    assert("credentials"@[0] == 'c');
    assert("definitions"@[0] == 'd');
    assert("credentials"@[0] == 'c');
    assert("description"@[0] == 'd');
    assert("credentials"@[0] == 'c');
    assert("maintainers"@[0] == 'm');
    assert("custom"@[0] == 'c');
    assert("images"@[0] == 'i');
    assert("definitions"@[2] == 'f');
    assert("description"@[2] == 's');
    assert("definitions"@[0] == 'd');
    assert("maintainers"@[0] == 'm');
    assert("description"@[0] == 'd');
    assert("maintainers"@[0] == 'm');
    assert("license"@[0] == 'l');
    assert("outputs"@[0] == 'o');
    assert("license"@[0] == 'l');
    assert("version"@[0] == 'v');
    assert("outputs"@[0] == 'o');
    assert("version"@[0] == 'v');
    assert("actions"@ != "custom"@);
    assert("credentials"@ != "custom"@);
    assert("definitions"@ != "custom"@);
    assert("description"@ != "custom"@);
    assert("images"@ != "custom"@);
    assert("invocationImages"@ != "custom"@);
    assert("keywords"@ != "custom"@);
    assert("license"@ != "custom"@);
    assert("maintainers"@ != "custom"@);
    assert("name"@ != "custom"@);
    assert("outputs"@ != "custom"@);
    assert("parameters"@ != "custom"@);
    assert("schemaVersion"@ != "custom"@);
    assert("version"@ != "custom"@);
    lemma_obj_get_opt_fld("actions"@, action_map_opt(b.actions), "custom"@);
    lemma_obj_get_opt_fld("credentials"@, credential_map_opt(b.credentials), "custom"@);
    lemma_obj_get_opt_fld("custom"@, obj_opt(b.custom), "custom"@);
    lemma_obj_get_opt_fld("definitions"@, obj_opt(b.definitions), "custom"@);
    lemma_obj_get_opt_fld("description"@, str_opt(b.description), "custom"@);
    lemma_obj_get_opt_fld("images"@, image_map_opt(b.images), "custom"@);
    lemma_obj_get_fld("invocationImages"@, JsonV::Arr(spec_invocation_images_json(b.invocation_images)), "custom"@);
    lemma_obj_get_opt_fld("keywords"@, str_arr_opt(b.keywords), "custom"@);
    lemma_obj_get_opt_fld("license"@, str_opt(b.license), "custom"@);
    lemma_obj_get_opt_fld("maintainers"@, maintainers_opt(b.maintainers), "custom"@);
    lemma_obj_get_fld("name"@, JsonV::Str(b.name), "custom"@);
    lemma_obj_get_opt_fld("outputs"@, output_map_opt(b.outputs), "custom"@);
    lemma_obj_get_opt_fld("parameters"@, parameter_map_opt(b.parameters), "custom"@);
    lemma_obj_get_fld("schemaVersion"@, JsonV::Str(b.schema_version), "custom"@);
    lemma_obj_get_fld("version"@, JsonV::Str(spec_version_chars(b.version)), "custom"@);
    lemma_obj_get_concat(s1, s2, "custom"@);
    lemma_obj_get_concat(s1 + s2, s3, "custom"@);
    lemma_obj_get_concat(s1 + s2 + s3, s4, "custom"@);
    lemma_obj_get_concat(s1 + s2 + s3 + s4, s5, "custom"@);
    lemma_obj_get_concat(s1 + s2 + s3 + s4 + s5, s6, "custom"@);
    lemma_obj_get_concat(s1 + s2 + s3 + s4 + s5 + s6, s7, "custom"@);
    lemma_obj_get_concat(s1 + s2 + s3 + s4 + s5 + s6 + s7, s8, "custom"@);
    lemma_obj_get_concat(s1 + s2 + s3 + s4 + s5 + s6 + s7 + s8, s9, "custom"@);
    lemma_obj_get_concat(s1 + s2 + s3 + s4 + s5 + s6 + s7 + s8 + s9, s10, "custom"@);
    lemma_obj_get_concat(s1 + s2 + s3 + s4 + s5 + s6 + s7 + s8 + s9 + s10, s11, "custom"@);
    lemma_obj_get_concat(s1 + s2 + s3 + s4 + s5 + s6 + s7 + s8 + s9 + s10 + s11, s12, "custom"@);
    lemma_obj_get_concat(s1 + s2 + s3 + s4 + s5 + s6 + s7 + s8 + s9 + s10 + s11 + s12, s13, "custom"@);
    lemma_obj_get_concat(s1 + s2 + s3 + s4 + s5 + s6 + s7 + s8 + s9 + s10 + s11 + s12 + s13, s14, "custom"@);
    lemma_obj_get_concat(s1 + s2 + s3 + s4 + s5 + s6 + s7 + s8 + s9 + s10 + s11 + s12 + s13 + s14, s15, "custom"@);
    assert(o == spec_bundle_fields(b));
}

/// What the bundle object holds under `definitions`.
#[verifier::rlimit(100)]
proof fn lemma_bundle_get_definitions(b: BundleV)
    ensures
        obj_get(spec_bundle_fields(b), "definitions"@) == obj_opt(b.definitions),
{
    let s1 = opt_fld("actions"@, action_map_opt(b.actions));
    let s2 = opt_fld("credentials"@, credential_map_opt(b.credentials));
    let s3 = opt_fld("custom"@, obj_opt(b.custom));
    let s4 = opt_fld("definitions"@, obj_opt(b.definitions));
    let s5 = opt_fld("description"@, str_opt(b.description));
    let s6 = opt_fld("images"@, image_map_opt(b.images));
    let s7 = fld("invocationImages"@, JsonV::Arr(spec_invocation_images_json(b.invocation_images)));
    let s8 = opt_fld("keywords"@, str_arr_opt(b.keywords));
    let s9 = opt_fld("license"@, str_opt(b.license));
    let s10 = opt_fld("maintainers"@, maintainers_opt(b.maintainers));
    let s11 = fld("name"@, JsonV::Str(b.name));
    let s12 = opt_fld("outputs"@, output_map_opt(b.outputs));
    let s13 = opt_fld("parameters"@, parameter_map_opt(b.parameters));
    let s14 = fld("schemaVersion"@, JsonV::Str(b.schema_version));
    let s15 = fld("version"@, JsonV::Str(spec_version_chars(b.version)));
    let o = s1 + s2 + s3 + s4 + s5 + s6 + s7 + s8 + s9 + s10 + s11 + s12 + s13 + s14 + s15;
    reveal_strlit("actions");
    reveal_strlit("credentials");
    reveal_strlit("custom");
    reveal_strlit("definitions");
    reveal_strlit("description");
    reveal_strlit("images");
    reveal_strlit("invocationImages");
    reveal_strlit("keywords");
    reveal_strlit("license");
    reveal_strlit("maintainers");
    reveal_strlit("name");
    reveal_strlit("outputs");
    reveal_strlit("parameters");
    reveal_strlit("schemaVersion");
    reveal_strlit("version");
    assert("actions"@.len() == 7);
    assert("credentials"@.len() == 11);
    assert("custom"@.len() == 6);
    assert("definitions"@.len() == 11);
    assert("description"@.len() == 11);
    assert("images"@.len() == 6);
    assert("invocationImages"@.len() == 16);
    assert("keywords"@.len() == 8);
    assert("license"@.len() == 7);
    assert("maintainers"@.len() == 11);
    assert("name"@.len() == 4);
    assert("outputs"@.len() == 7);
    assert("parameters"@.len() == 10);
    assert("schemaVersion"@.len() == 13);
    assert("version"@.len() == 7);
    assert("actions"@[0] == 'a');
    assert("license"@[0] == 'l');
    assert("actions"@[0] == 'a');
    assert("outputs"@[0] == 'o');
    assert("actions"@[0] == 'a');
    assert("version"@[0] == 'v');
    assert("credentials"@[0] == 'c');
    assert("definitions"@[0] == 'd');
    assert("credentials"@[0] == 'c');
    assert("description"@[0] == 'd');
    assert("credentials"@[0] == 'c');
    assert("maintainers"@[0] == 'm');
    assert("custom"@[0] == 'c');
    assert("images"@[0] == 'i');
    assert("definitions"@[2] == 'f');
    assert("description"@[2] == 's');
    assert("definitions"@[0] == 'd');
    assert("maintainers"@[0] == 'm');
    assert("description"@[0] == 'd');
    assert("maintainers"@[0] == 'm');
    assert("license"@[0] == 'l');
    assert("outputs"@[0] == 'o');
    assert("license"@[0] == 'l');
    assert("version"@[0] == 'v');
    assert("outputs"@[0] == 'o');
    assert("version"@[0] == 'v');
    assert("actions"@ != "definitions"@);
    assert("credentials"@ != "definitions"@);
    assert("custom"@ != "definitions"@);
    assert("description"@ != "definitions"@);
    assert("images"@ != "definitions"@);
    assert("invocationImages"@ != "definitions"@);
    assert("keywords"@ != "definitions"@);
    assert("license"@ != "definitions"@);
    assert("maintainers"@ != "definitions"@);
    assert("name"@ != "definitions"@);
    assert("outputs"@ != "definitions"@);
    assert("parameters"@ != "definitions"@);
    assert("schemaVersion"@ != "definitions"@);
    assert("version"@ != "definitions"@);
    lemma_obj_get_opt_fld("actions"@, action_map_opt(b.actions), "definitions"@);
    lemma_obj_get_opt_fld("credentials"@, credential_map_opt(b.credentials), "definitions"@);
    lemma_obj_get_opt_fld("custom"@, obj_opt(b.custom), "definitions"@);
    lemma_obj_get_opt_fld("definitions"@, obj_opt(b.definitions), "definitions"@);
    lemma_obj_get_opt_fld("description"@, str_opt(b.description), "definitions"@);
    lemma_obj_get_opt_fld("images"@, image_map_opt(b.images), "definitions"@);
    lemma_obj_get_fld("invocationImages"@, JsonV::Arr(spec_invocation_images_json(b.invocation_images)), "definitions"@);
    lemma_obj_get_opt_fld("keywords"@, str_arr_opt(b.keywords), "definitions"@);
    lemma_obj_get_opt_fld("license"@, str_opt(b.license), "definitions"@);
    lemma_obj_get_opt_fld("maintainers"@, maintainers_opt(b.maintainers), "definitions"@);
    lemma_obj_get_fld("name"@, JsonV::Str(b.name), "definitions"@);
    lemma_obj_get_opt_fld("outputs"@, output_map_opt(b.outputs), "definitions"@);
    lemma_obj_get_opt_fld("parameters"@, parameter_map_opt(b.parameters), "definitions"@);
    lemma_obj_get_fld("schemaVersion"@, JsonV::Str(b.schema_version), "definitions"@);
    lemma_obj_get_fld("version"@, JsonV::Str(spec_version_chars(b.version)), "definitions"@);
    lemma_obj_get_concat(s1, s2, "definitions"@);
    lemma_obj_get_concat(s1 + s2, s3, "definitions"@);
    lemma_obj_get_concat(s1 + s2 + s3, s4, "definitions"@);
    lemma_obj_get_concat(s1 + s2 + s3 + s4, s5, "definitions"@);
    lemma_obj_get_concat(s1 + s2 + s3 + s4 + s5, s6, "definitions"@);
    lemma_obj_get_concat(s1 + s2 + s3 + s4 + s5 + s6, s7, "definitions"@);
    lemma_obj_get_concat(s1 + s2 + s3 + s4 + s5 + s6 + s7, s8, "definitions"@);
    lemma_obj_get_concat(s1 + s2 + s3 + s4 + s5 + s6 + s7 + s8, s9, "definitions"@);
    lemma_obj_get_concat(s1 + s2 + s3 + s4 + s5 + s6 + s7 + s8 + s9, s10, "definitions"@);
    lemma_obj_get_concat(s1 + s2 + s3 + s4 + s5 + s6 + s7 + s8 + s9 + s10, s11, "definitions"@);
    lemma_obj_get_concat(s1 + s2 + s3 + s4 + s5 + s6 + s7 + s8 + s9 + s10 + s11, s12, "definitions"@);
    lemma_obj_get_concat(s1 + s2 + s3 + s4 + s5 + s6 + s7 + s8 + s9 + s10 + s11 + s12, s13, "definitions"@);
    lemma_obj_get_concat(s1 + s2 + s3 + s4 + s5 + s6 + s7 + s8 + s9 + s10 + s11 + s12 + s13, s14, "definitions"@);
    lemma_obj_get_concat(s1 + s2 + s3 + s4 + s5 + s6 + s7 + s8 + s9 + s10 + s11 + s12 + s13 + s14, s15, "definitions"@);
    assert(o == spec_bundle_fields(b));
}

/// What the bundle object holds under `description`.
#[verifier::rlimit(100)]
proof fn lemma_bundle_get_description(b: BundleV)
    ensures
        obj_get(spec_bundle_fields(b), "description"@) == str_opt(b.description),
{
    let s1 = opt_fld("actions"@, action_map_opt(b.actions));
    let s2 = opt_fld("credentials"@, credential_map_opt(b.credentials));
    let s3 = opt_fld("custom"@, obj_opt(b.custom));
    let s4 = opt_fld("definitions"@, obj_opt(b.definitions));
    let s5 = opt_fld("description"@, str_opt(b.description));
    let s6 = opt_fld("images"@, image_map_opt(b.images));
    let s7 = fld("invocationImages"@, JsonV::Arr(spec_invocation_images_json(b.invocation_images)));
    let s8 = opt_fld("keywords"@, str_arr_opt(b.keywords));
    let s9 = opt_fld("license"@, str_opt(b.license));
    let s10 = opt_fld("maintainers"@, maintainers_opt(b.maintainers));
    let s11 = fld("name"@, JsonV::Str(b.name));
    let s12 = opt_fld("outputs"@, output_map_opt(b.outputs));
    let s13 = opt_fld("parameters"@, parameter_map_opt(b.parameters));
    let s14 = fld("schemaVersion"@, JsonV::Str(b.schema_version));
    let s15 = fld("version"@, JsonV::Str(spec_version_chars(b.version)));
    let o = s1 + s2 + s3 + s4 + s5 + s6 + s7 + s8 + s9 + s10 + s11 + s12 + s13 + s14 + s15;
    reveal_strlit("actions");
    reveal_strlit("credentials");
    reveal_strlit("custom");
    reveal_strlit("definitions");
    reveal_strlit("description");
    reveal_strlit("images");
    reveal_strlit("invocationImages");
    reveal_strlit("keywords");
    reveal_strlit("license");
    reveal_strlit("maintainers");
    reveal_strlit("name");
    reveal_strlit("outputs");
    reveal_strlit("parameters");
    reveal_strlit("schemaVersion");
    reveal_strlit("version");
    assert("actions"@.len() == 7);
    assert("credentials"@.len() == 11);
    assert("custom"@.len() == 6);
    assert("definitions"@.len() == 11);
    assert("description"@.len() == 11);
    assert("images"@.len() == 6);
    assert("invocationImages"@.len() == 16);
    assert("keywords"@.len() == 8);
    assert("license"@.len() == 7);
    assert("maintainers"@.len() == 11);
    assert("name"@.len() == 4);
    assert("outputs"@.len() == 7);
    assert("parameters"@.len() == 10);
    assert("schemaVersion"@.len() == 13);
    assert("version"@.len() == 7);
    assert("actions"@[0] == 'a');
    assert("license"@[0] == 'l');
    assert("actions"@[0] == 'a');
    assert("outputs"@[0] == 'o');
    assert("actions"@[0] == 'a');
    assert("version"@[0] == 'v');
    assert("credentials"@[0] == 'c');
    assert("definitions"@[0] == 'd');
    assert("credentials"@[0] == 'c');
    assert("description"@[0] == 'd');
    assert("credentials"@[0] == 'c');
    assert("maintainers"@[0] == 'm');
    assert("custom"@[0] == 'c');
    assert("images"@[0] == 'i');
    assert("definitions"@[2] == 'f');
    assert("description"@[2] == 's');
    assert("definitions"@[0] == 'd');
    assert("maintainers"@[0] == 'm');
    assert("description"@[0] == 'd');
    assert("maintainers"@[0] == 'm');
    assert("license"@[0] == 'l');
    assert("outputs"@[0] == 'o');
    assert("license"@[0] == 'l');
    assert("version"@[0] == 'v');
    assert("outputs"@[0] == 'o');
    assert("version"@[0] == 'v');
    assert("actions"@ != "description"@);
    assert("credentials"@ != "description"@);
    assert("custom"@ != "description"@);
    assert("definitions"@ != "description"@);
    assert("images"@ != "description"@);
    assert("invocationImages"@ != "description"@);
    assert("keywords"@ != "description"@);
    assert("license"@ != "description"@);
    assert("maintainers"@ != "description"@);
    assert("name"@ != "description"@);
    assert("outputs"@ != "description"@);
    assert("parameters"@ != "description"@);
    assert("schemaVersion"@ != "description"@);
    assert("version"@ != "description"@);
    lemma_obj_get_opt_fld("actions"@, action_map_opt(b.actions), "description"@);
    lemma_obj_get_opt_fld("credentials"@, credential_map_opt(b.credentials), "description"@);
    lemma_obj_get_opt_fld("custom"@, obj_opt(b.custom), "description"@);
    lemma_obj_get_opt_fld("definitions"@, obj_opt(b.definitions), "description"@);
    lemma_obj_get_opt_fld("description"@, str_opt(b.description), "description"@);
    lemma_obj_get_opt_fld("images"@, image_map_opt(b.images), "description"@);
    lemma_obj_get_fld("invocationImages"@, JsonV::Arr(spec_invocation_images_json(b.invocation_images)), "description"@);
    lemma_obj_get_opt_fld("keywords"@, str_arr_opt(b.keywords), "description"@);
    lemma_obj_get_opt_fld("license"@, str_opt(b.license), "description"@);
    lemma_obj_get_opt_fld("maintainers"@, maintainers_opt(b.maintainers), "description"@);
    lemma_obj_get_fld("name"@, JsonV::Str(b.name), "description"@);
    lemma_obj_get_opt_fld("outputs"@, output_map_opt(b.outputs), "description"@);
    lemma_obj_get_opt_fld("parameters"@, parameter_map_opt(b.parameters), "description"@);
    lemma_obj_get_fld("schemaVersion"@, JsonV::Str(b.schema_version), "description"@);
    lemma_obj_get_fld("version"@, JsonV::Str(spec_version_chars(b.version)), "description"@);
    lemma_obj_get_concat(s1, s2, "description"@);
    lemma_obj_get_concat(s1 + s2, s3, "description"@);
    lemma_obj_get_concat(s1 + s2 + s3, s4, "description"@);
    lemma_obj_get_concat(s1 + s2 + s3 + s4, s5, "description"@);
    lemma_obj_get_concat(s1 + s2 + s3 + s4 + s5, s6, "description"@);
    lemma_obj_get_concat(s1 + s2 + s3 + s4 + s5 + s6, s7, "description"@);
    lemma_obj_get_concat(s1 + s2 + s3 + s4 + s5 + s6 + s7, s8, "description"@);
    lemma_obj_get_concat(s1 + s2 + s3 + s4 + s5 + s6 + s7 + s8, s9, "description"@);
    lemma_obj_get_concat(s1 + s2 + s3 + s4 + s5 + s6 + s7 + s8 + s9, s10, "description"@);
    lemma_obj_get_concat(s1 + s2 + s3 + s4 + s5 + s6 + s7 + s8 + s9 + s10, s11, "description"@);
    lemma_obj_get_concat(s1 + s2 + s3 + s4 + s5 + s6 + s7 + s8 + s9 + s10 + s11, s12, "description"@);
    lemma_obj_get_concat(s1 + s2 + s3 + s4 + s5 + s6 + s7 + s8 + s9 + s10 + s11 + s12, s13, "description"@);
    lemma_obj_get_concat(s1 + s2 + s3 + s4 + s5 + s6 + s7 + s8 + s9 + s10 + s11 + s12 + s13, s14, "description"@);
    lemma_obj_get_concat(s1 + s2 + s3 + s4 + s5 + s6 + s7 + s8 + s9 + s10 + s11 + s12 + s13 + s14, s15, "description"@);
    assert(o == spec_bundle_fields(b));
}

/// What the bundle object holds under `images`.
#[verifier::rlimit(100)]
proof fn lemma_bundle_get_images(b: BundleV)
    ensures
        obj_get(spec_bundle_fields(b), "images"@) == image_map_opt(b.images),
{
    let s1 = opt_fld("actions"@, action_map_opt(b.actions));
    let s2 = opt_fld("credentials"@, credential_map_opt(b.credentials));
    let s3 = opt_fld("custom"@, obj_opt(b.custom));
    let s4 = opt_fld("definitions"@, obj_opt(b.definitions));
    let s5 = opt_fld("description"@, str_opt(b.description));
    let s6 = opt_fld("images"@, image_map_opt(b.images));
    let s7 = fld("invocationImages"@, JsonV::Arr(spec_invocation_images_json(b.invocation_images)));
    let s8 = opt_fld("keywords"@, str_arr_opt(b.keywords));
    let s9 = opt_fld("license"@, str_opt(b.license));
    let s10 = opt_fld("maintainers"@, maintainers_opt(b.maintainers));
    let s11 = fld("name"@, JsonV::Str(b.name));
    let s12 = opt_fld("outputs"@, output_map_opt(b.outputs));
    let s13 = opt_fld("parameters"@, parameter_map_opt(b.parameters));
    let s14 = fld("schemaVersion"@, JsonV::Str(b.schema_version));
    let s15 = fld("version"@, JsonV::Str(spec_version_chars(b.version)));
    let o = s1 + s2 + s3 + s4 + s5 + s6 + s7 + s8 + s9 + s10 + s11 + s12 + s13 + s14 + s15;
    reveal_strlit("actions");
    reveal_strlit("credentials");
    reveal_strlit("custom");
    reveal_strlit("definitions");
    reveal_strlit("description");
    reveal_strlit("images");
    reveal_strlit("invocationImages");
    reveal_strlit("keywords");
    reveal_strlit("license");
    reveal_strlit("maintainers");
    reveal_strlit("name");
    reveal_strlit("outputs");
    reveal_strlit("parameters");
    reveal_strlit("schemaVersion");
    reveal_strlit("version");
    assert("actions"@.len() == 7);
    assert("credentials"@.len() == 11);
    assert("custom"@.len() == 6);
    assert("definitions"@.len() == 11);
    assert("description"@.len() == 11);
    assert("images"@.len() == 6);
    assert("invocationImages"@.len() == 16);
    assert("keywords"@.len() == 8);
    assert("license"@.len() == 7);
    assert("maintainers"@.len() == 11);
    assert("name"@.len() == 4);
    assert("outputs"@.len() == 7);
    assert("parameters"@.len() == 10);
    assert("schemaVersion"@.len() == 13);
    assert("version"@.len() == 7);
    assert("actions"@[0] == 'a');
    assert("license"@[0] == 'l');
    assert("actions"@[0] == 'a');
    assert("outputs"@[0] == 'o');
    assert("actions"@[0] == 'a');
    assert("version"@[0] == 'v');
    assert("credentials"@[0] == 'c');
    assert("definitions"@[0] == 'd');
    assert("credentials"@[0] == 'c');
    assert("description"@[0] == 'd');
    assert("credentials"@[0] == 'c');
    assert("maintainers"@[0] == 'm');
    assert("custom"@[0] == 'c');
    assert("images"@[0] == 'i');
    assert("definitions"@[2] == 'f');
    assert("description"@[2] == 's');
    assert("definitions"@[0] == 'd');
    assert("maintainers"@[0] == 'm');
    assert("description"@[0] == 'd');
    assert("maintainers"@[0] == 'm');
    assert("license"@[0] == 'l');
    assert("outputs"@[0] == 'o');
    assert("license"@[0] == 'l');
    assert("version"@[0] == 'v');
    assert("outputs"@[0] == 'o');
    assert("version"@[0] == 'v');
    assert("actions"@ != "images"@);
    assert("credentials"@ != "images"@);
    assert("custom"@ != "images"@);
    assert("definitions"@ != "images"@);
    assert("description"@ != "images"@);
    assert("invocationImages"@ != "images"@);
    assert("keywords"@ != "images"@);
    assert("license"@ != "images"@);
    assert("maintainers"@ != "images"@);
    assert("name"@ != "images"@);
    assert("outputs"@ != "images"@);
    assert("parameters"@ != "images"@);
    assert("schemaVersion"@ != "images"@);
    assert("version"@ != "images"@);
    lemma_obj_get_opt_fld("actions"@, action_map_opt(b.actions), "images"@);
    lemma_obj_get_opt_fld("credentials"@, credential_map_opt(b.credentials), "images"@);
    lemma_obj_get_opt_fld("custom"@, obj_opt(b.custom), "images"@);
    lemma_obj_get_opt_fld("definitions"@, obj_opt(b.definitions), "images"@);
    lemma_obj_get_opt_fld("description"@, str_opt(b.description), "images"@);
    lemma_obj_get_opt_fld("images"@, image_map_opt(b.images), "images"@);
    lemma_obj_get_fld("invocationImages"@, JsonV::Arr(spec_invocation_images_json(b.invocation_images)), "images"@);
    lemma_obj_get_opt_fld("keywords"@, str_arr_opt(b.keywords), "images"@);
    lemma_obj_get_opt_fld("license"@, str_opt(b.license), "images"@);
    lemma_obj_get_opt_fld("maintainers"@, maintainers_opt(b.maintainers), "images"@);
    lemma_obj_get_fld("name"@, JsonV::Str(b.name), "images"@);
    lemma_obj_get_opt_fld("outputs"@, output_map_opt(b.outputs), "images"@);
    lemma_obj_get_opt_fld("parameters"@, parameter_map_opt(b.parameters), "images"@);
    lemma_obj_get_fld("schemaVersion"@, JsonV::Str(b.schema_version), "images"@);
    lemma_obj_get_fld("version"@, JsonV::Str(spec_version_chars(b.version)), "images"@);
    lemma_obj_get_concat(s1, s2, "images"@);
    lemma_obj_get_concat(s1 + s2, s3, "images"@);
    lemma_obj_get_concat(s1 + s2 + s3, s4, "images"@);
    lemma_obj_get_concat(s1 + s2 + s3 + s4, s5, "images"@);
    lemma_obj_get_concat(s1 + s2 + s3 + s4 + s5, s6, "images"@);
    lemma_obj_get_concat(s1 + s2 + s3 + s4 + s5 + s6, s7, "images"@);
    lemma_obj_get_concat(s1 + s2 + s3 + s4 + s5 + s6 + s7, s8, "images"@);
    lemma_obj_get_concat(s1 + s2 + s3 + s4 + s5 + s6 + s7 + s8, s9, "images"@);
    lemma_obj_get_concat(s1 + s2 + s3 + s4 + s5 + s6 + s7 + s8 + s9, s10, "images"@);
    lemma_obj_get_concat(s1 + s2 + s3 + s4 + s5 + s6 + s7 + s8 + s9 + s10, s11, "images"@);
    lemma_obj_get_concat(s1 + s2 + s3 + s4 + s5 + s6 + s7 + s8 + s9 + s10 + s11, s12, "images"@);
    lemma_obj_get_concat(s1 + s2 + s3 + s4 + s5 + s6 + s7 + s8 + s9 + s10 + s11 + s12, s13, "images"@);
    lemma_obj_get_concat(s1 + s2 + s3 + s4 + s5 + s6 + s7 + s8 + s9 + s10 + s11 + s12 + s13, s14, "images"@);
    lemma_obj_get_concat(s1 + s2 + s3 + s4 + s5 + s6 + s7 + s8 + s9 + s10 + s11 + s12 + s13 + s14, s15, "images"@);
    assert(o == spec_bundle_fields(b));
}

/// What the bundle object holds under `invocationImages`.
#[verifier::rlimit(100)]
proof fn lemma_bundle_get_invocation_images(b: BundleV)
    ensures
        obj_get(spec_bundle_fields(b), "invocationImages"@) == Some(JsonV::Arr(spec_invocation_images_json(b.invocation_images))),
{
    let s1 = opt_fld("actions"@, action_map_opt(b.actions));
    let s2 = opt_fld("credentials"@, credential_map_opt(b.credentials));
    let s3 = opt_fld("custom"@, obj_opt(b.custom));
    let s4 = opt_fld("definitions"@, obj_opt(b.definitions));
    let s5 = opt_fld("description"@, str_opt(b.description));
    let s6 = opt_fld("images"@, image_map_opt(b.images));
    let s7 = fld("invocationImages"@, JsonV::Arr(spec_invocation_images_json(b.invocation_images)));
    let s8 = opt_fld("keywords"@, str_arr_opt(b.keywords));
    let s9 = opt_fld("license"@, str_opt(b.license));
    let s10 = opt_fld("maintainers"@, maintainers_opt(b.maintainers));
    let s11 = fld("name"@, JsonV::Str(b.name));
    let s12 = opt_fld("outputs"@, output_map_opt(b.outputs));
    let s13 = opt_fld("parameters"@, parameter_map_opt(b.parameters));
    let s14 = fld("schemaVersion"@, JsonV::Str(b.schema_version));
    let s15 = fld("version"@, JsonV::Str(spec_version_chars(b.version)));
    let o = s1 + s2 + s3 + s4 + s5 + s6 + s7 + s8 + s9 + s10 + s11 + s12 + s13 + s14 + s15;
    reveal_strlit("actions");
    reveal_strlit("credentials");
    reveal_strlit("custom");
    reveal_strlit("definitions");
    reveal_strlit("description");
    reveal_strlit("images");
    reveal_strlit("invocationImages");
    reveal_strlit("keywords");
    reveal_strlit("license");
    reveal_strlit("maintainers");
    reveal_strlit("name");
    reveal_strlit("outputs");
    reveal_strlit("parameters");
    reveal_strlit("schemaVersion");
    reveal_strlit("version");
    assert("actions"@.len() == 7);
    assert("credentials"@.len() == 11);
    assert("custom"@.len() == 6);
    assert("definitions"@.len() == 11);
    assert("description"@.len() == 11);
    assert("images"@.len() == 6);
    assert("invocationImages"@.len() == 16);
    assert("keywords"@.len() == 8);
    assert("license"@.len() == 7);
    assert("maintainers"@.len() == 11);
    assert("name"@.len() == 4);
    assert("outputs"@.len() == 7);
    assert("parameters"@.len() == 10);
    assert("schemaVersion"@.len() == 13);
    assert("version"@.len() == 7);
    assert("actions"@[0] == 'a');
    assert("license"@[0] == 'l');
    assert("actions"@[0] == 'a');
    assert("outputs"@[0] == 'o');
    assert("actions"@[0] == 'a');
    assert("version"@[0] == 'v');
    assert("credentials"@[0] == 'c');
    assert("definitions"@[0] == 'd');
    assert("credentials"@[0] == 'c');
    assert("description"@[0] == 'd');
    assert("credentials"@[0] == 'c');
    assert("maintainers"@[0] == 'm');
    assert("custom"@[0] == 'c');
    assert("images"@[0] == 'i');
    assert("definitions"@[2] == 'f');
    assert("description"@[2] == 's');
    assert("definitions"@[0] == 'd');
    assert("maintainers"@[0] == 'm');
    assert("description"@[0] == 'd');
    assert("maintainers"@[0] == 'm');
    assert("license"@[0] == 'l');
    assert("outputs"@[0] == 'o');
    assert("license"@[0] == 'l');
    assert("version"@[0] == 'v');
    assert("outputs"@[0] == 'o');
    assert("version"@[0] == 'v');
    assert("actions"@ != "invocationImages"@);
    assert("credentials"@ != "invocationImages"@);
    assert("custom"@ != "invocationImages"@);
    assert("definitions"@ != "invocationImages"@);
    assert("description"@ != "invocationImages"@);
    assert("images"@ != "invocationImages"@);
    assert("keywords"@ != "invocationImages"@);
    assert("license"@ != "invocationImages"@);
    assert("maintainers"@ != "invocationImages"@);
    assert("name"@ != "invocationImages"@);
    assert("outputs"@ != "invocationImages"@);
    assert("parameters"@ != "invocationImages"@);
    assert("schemaVersion"@ != "invocationImages"@);
    assert("version"@ != "invocationImages"@);
    lemma_obj_get_opt_fld("actions"@, action_map_opt(b.actions), "invocationImages"@);
    lemma_obj_get_opt_fld("credentials"@, credential_map_opt(b.credentials), "invocationImages"@);
    lemma_obj_get_opt_fld("custom"@, obj_opt(b.custom), "invocationImages"@);
    lemma_obj_get_opt_fld("definitions"@, obj_opt(b.definitions), "invocationImages"@);
    lemma_obj_get_opt_fld("description"@, str_opt(b.description), "invocationImages"@);
    lemma_obj_get_opt_fld("images"@, image_map_opt(b.images), "invocationImages"@);
    lemma_obj_get_fld("invocationImages"@, JsonV::Arr(spec_invocation_images_json(b.invocation_images)), "invocationImages"@);
    lemma_obj_get_opt_fld("keywords"@, str_arr_opt(b.keywords), "invocationImages"@);
    lemma_obj_get_opt_fld("license"@, str_opt(b.license), "invocationImages"@);
    lemma_obj_get_opt_fld("maintainers"@, maintainers_opt(b.maintainers), "invocationImages"@);
    lemma_obj_get_fld("name"@, JsonV::Str(b.name), "invocationImages"@);
    lemma_obj_get_opt_fld("outputs"@, output_map_opt(b.outputs), "invocationImages"@);
    lemma_obj_get_opt_fld("parameters"@, parameter_map_opt(b.parameters), "invocationImages"@);
    lemma_obj_get_fld("schemaVersion"@, JsonV::Str(b.schema_version), "invocationImages"@);
    lemma_obj_get_fld("version"@, JsonV::Str(spec_version_chars(b.version)), "invocationImages"@);
    lemma_obj_get_concat(s1, s2, "invocationImages"@);
    lemma_obj_get_concat(s1 + s2, s3, "invocationImages"@);
    lemma_obj_get_concat(s1 + s2 + s3, s4, "invocationImages"@);
    lemma_obj_get_concat(s1 + s2 + s3 + s4, s5, "invocationImages"@);
    lemma_obj_get_concat(s1 + s2 + s3 + s4 + s5, s6, "invocationImages"@);
    lemma_obj_get_concat(s1 + s2 + s3 + s4 + s5 + s6, s7, "invocationImages"@);
    lemma_obj_get_concat(s1 + s2 + s3 + s4 + s5 + s6 + s7, s8, "invocationImages"@);
    lemma_obj_get_concat(s1 + s2 + s3 + s4 + s5 + s6 + s7 + s8, s9, "invocationImages"@);
    lemma_obj_get_concat(s1 + s2 + s3 + s4 + s5 + s6 + s7 + s8 + s9, s10, "invocationImages"@);
    lemma_obj_get_concat(s1 + s2 + s3 + s4 + s5 + s6 + s7 + s8 + s9 + s10, s11, "invocationImages"@);
    lemma_obj_get_concat(s1 + s2 + s3 + s4 + s5 + s6 + s7 + s8 + s9 + s10 + s11, s12, "invocationImages"@);
    lemma_obj_get_concat(s1 + s2 + s3 + s4 + s5 + s6 + s7 + s8 + s9 + s10 + s11 + s12, s13, "invocationImages"@);
    lemma_obj_get_concat(s1 + s2 + s3 + s4 + s5 + s6 + s7 + s8 + s9 + s10 + s11 + s12 + s13, s14, "invocationImages"@);
    lemma_obj_get_concat(s1 + s2 + s3 + s4 + s5 + s6 + s7 + s8 + s9 + s10 + s11 + s12 + s13 + s14, s15, "invocationImages"@);
    assert(o == spec_bundle_fields(b));
}

/// What the bundle object holds under `keywords`.
#[verifier::rlimit(100)]
proof fn lemma_bundle_get_keywords(b: BundleV)
    ensures
        obj_get(spec_bundle_fields(b), "keywords"@) == str_arr_opt(b.keywords),
{
    let s1 = opt_fld("actions"@, action_map_opt(b.actions));
    let s2 = opt_fld("credentials"@, credential_map_opt(b.credentials));
    let s3 = opt_fld("custom"@, obj_opt(b.custom));
    let s4 = opt_fld("definitions"@, obj_opt(b.definitions));
    let s5 = opt_fld("description"@, str_opt(b.description));
    let s6 = opt_fld("images"@, image_map_opt(b.images));
    let s7 = fld("invocationImages"@, JsonV::Arr(spec_invocation_images_json(b.invocation_images)));
    let s8 = opt_fld("keywords"@, str_arr_opt(b.keywords));
    let s9 = opt_fld("license"@, str_opt(b.license));
    let s10 = opt_fld("maintainers"@, maintainers_opt(b.maintainers));
    let s11 = fld("name"@, JsonV::Str(b.name));
    let s12 = opt_fld("outputs"@, output_map_opt(b.outputs));
    let s13 = opt_fld("parameters"@, parameter_map_opt(b.parameters));
    let s14 = fld("schemaVersion"@, JsonV::Str(b.schema_version));
    let s15 = fld("version"@, JsonV::Str(spec_version_chars(b.version)));
    let o = s1 + s2 + s3 + s4 + s5 + s6 + s7 + s8 + s9 + s10 + s11 + s12 + s13 + s14 + s15;
    reveal_strlit("actions");
    reveal_strlit("credentials");
    reveal_strlit("custom");
    reveal_strlit("definitions");
    reveal_strlit("description");
    reveal_strlit("images");
    reveal_strlit("invocationImages");
    reveal_strlit("keywords");
    reveal_strlit("license");
    reveal_strlit("maintainers");
    reveal_strlit("name");
    reveal_strlit("outputs");
    reveal_strlit("parameters");
    reveal_strlit("schemaVersion");
    reveal_strlit("version");
    assert("actions"@.len() == 7);
    assert("credentials"@.len() == 11);
    assert("custom"@.len() == 6);
    assert("definitions"@.len() == 11);
    assert("description"@.len() == 11);
    assert("images"@.len() == 6);
    assert("invocationImages"@.len() == 16);
    assert("keywords"@.len() == 8);
    assert("license"@.len() == 7);
    assert("maintainers"@.len() == 11);
    assert("name"@.len() == 4);
    assert("outputs"@.len() == 7);
    assert("parameters"@.len() == 10);
    assert("schemaVersion"@.len() == 13);
    assert("version"@.len() == 7);
    assert("actions"@[0] == 'a');
    assert("license"@[0] == 'l');
    assert("actions"@[0] == 'a');
    assert("outputs"@[0] == 'o');
    assert("actions"@[0] == 'a');
    assert("version"@[0] == 'v');
    assert("credentials"@[0] == 'c');
    assert("definitions"@[0] == 'd');
    assert("credentials"@[0] == 'c');
    assert("description"@[0] == 'd');
    assert("credentials"@[0] == 'c');
    assert("maintainers"@[0] == 'm');
    assert("custom"@[0] == 'c');
    assert("images"@[0] == 'i');
    assert("definitions"@[2] == 'f');
    assert("description"@[2] == 's');
    assert("definitions"@[0] == 'd');
    assert("maintainers"@[0] == 'm');
    assert("description"@[0] == 'd');
    assert("maintainers"@[0] == 'm');
    assert("license"@[0] == 'l');
    assert("outputs"@[0] == 'o');
    assert("license"@[0] == 'l');
    assert("version"@[0] == 'v');
    assert("outputs"@[0] == 'o');
    assert("version"@[0] == 'v');
    assert("actions"@ != "keywords"@);
    assert("credentials"@ != "keywords"@);
    assert("custom"@ != "keywords"@);
    assert("definitions"@ != "keywords"@);
    assert("description"@ != "keywords"@);
    assert("images"@ != "keywords"@);
    assert("invocationImages"@ != "keywords"@);
    assert("license"@ != "keywords"@);
    assert("maintainers"@ != "keywords"@);
    assert("name"@ != "keywords"@);
    assert("outputs"@ != "keywords"@);
    assert("parameters"@ != "keywords"@);
    assert("schemaVersion"@ != "keywords"@);
    assert("version"@ != "keywords"@);
    lemma_obj_get_opt_fld("actions"@, action_map_opt(b.actions), "keywords"@);
    lemma_obj_get_opt_fld("credentials"@, credential_map_opt(b.credentials), "keywords"@);
    lemma_obj_get_opt_fld("custom"@, obj_opt(b.custom), "keywords"@);
    lemma_obj_get_opt_fld("definitions"@, obj_opt(b.definitions), "keywords"@);
    lemma_obj_get_opt_fld("description"@, str_opt(b.description), "keywords"@);
    lemma_obj_get_opt_fld("images"@, image_map_opt(b.images), "keywords"@);
    lemma_obj_get_fld("invocationImages"@, JsonV::Arr(spec_invocation_images_json(b.invocation_images)), "keywords"@);
    lemma_obj_get_opt_fld("keywords"@, str_arr_opt(b.keywords), "keywords"@);
    lemma_obj_get_opt_fld("license"@, str_opt(b.license), "keywords"@);
    lemma_obj_get_opt_fld("maintainers"@, maintainers_opt(b.maintainers), "keywords"@);
    lemma_obj_get_fld("name"@, JsonV::Str(b.name), "keywords"@);
    lemma_obj_get_opt_fld("outputs"@, output_map_opt(b.outputs), "keywords"@);
    lemma_obj_get_opt_fld("parameters"@, parameter_map_opt(b.parameters), "keywords"@);
    lemma_obj_get_fld("schemaVersion"@, JsonV::Str(b.schema_version), "keywords"@);
    lemma_obj_get_fld("version"@, JsonV::Str(spec_version_chars(b.version)), "keywords"@);
    lemma_obj_get_concat(s1, s2, "keywords"@);
    lemma_obj_get_concat(s1 + s2, s3, "keywords"@);
    lemma_obj_get_concat(s1 + s2 + s3, s4, "keywords"@);
    lemma_obj_get_concat(s1 + s2 + s3 + s4, s5, "keywords"@);
    lemma_obj_get_concat(s1 + s2 + s3 + s4 + s5, s6, "keywords"@);
    lemma_obj_get_concat(s1 + s2 + s3 + s4 + s5 + s6, s7, "keywords"@);
    lemma_obj_get_concat(s1 + s2 + s3 + s4 + s5 + s6 + s7, s8, "keywords"@);
    lemma_obj_get_concat(s1 + s2 + s3 + s4 + s5 + s6 + s7 + s8, s9, "keywords"@);
    lemma_obj_get_concat(s1 + s2 + s3 + s4 + s5 + s6 + s7 + s8 + s9, s10, "keywords"@);
    lemma_obj_get_concat(s1 + s2 + s3 + s4 + s5 + s6 + s7 + s8 + s9 + s10, s11, "keywords"@);
    lemma_obj_get_concat(s1 + s2 + s3 + s4 + s5 + s6 + s7 + s8 + s9 + s10 + s11, s12, "keywords"@);
    lemma_obj_get_concat(s1 + s2 + s3 + s4 + s5 + s6 + s7 + s8 + s9 + s10 + s11 + s12, s13, "keywords"@);
    lemma_obj_get_concat(s1 + s2 + s3 + s4 + s5 + s6 + s7 + s8 + s9 + s10 + s11 + s12 + s13, s14, "keywords"@);
    lemma_obj_get_concat(s1 + s2 + s3 + s4 + s5 + s6 + s7 + s8 + s9 + s10 + s11 + s12 + s13 + s14, s15, "keywords"@);
    assert(o == spec_bundle_fields(b));
}

/// What the bundle object holds under `license`.
#[verifier::rlimit(100)]
proof fn lemma_bundle_get_license(b: BundleV)
    ensures
        obj_get(spec_bundle_fields(b), "license"@) == str_opt(b.license),
{
    let s1 = opt_fld("actions"@, action_map_opt(b.actions));
    let s2 = opt_fld("credentials"@, credential_map_opt(b.credentials));
    let s3 = opt_fld("custom"@, obj_opt(b.custom));
    let s4 = opt_fld("definitions"@, obj_opt(b.definitions));
    let s5 = opt_fld("description"@, str_opt(b.description));
    let s6 = opt_fld("images"@, image_map_opt(b.images));
    let s7 = fld("invocationImages"@, JsonV::Arr(spec_invocation_images_json(b.invocation_images)));
    let s8 = opt_fld("keywords"@, str_arr_opt(b.keywords));
    let s9 = opt_fld("license"@, str_opt(b.license));
    let s10 = opt_fld("maintainers"@, maintainers_opt(b.maintainers));
    let s11 = fld("name"@, JsonV::Str(b.name));
    let s12 = opt_fld("outputs"@, output_map_opt(b.outputs));
    let s13 = opt_fld("parameters"@, parameter_map_opt(b.parameters));
    let s14 = fld("schemaVersion"@, JsonV::Str(b.schema_version));
    let s15 = fld("version"@, JsonV::Str(spec_version_chars(b.version)));
    let o = s1 + s2 + s3 + s4 + s5 + s6 + s7 + s8 + s9 + s10 + s11 + s12 + s13 + s14 + s15;
    reveal_strlit("actions");
    reveal_strlit("credentials");
    reveal_strlit("custom");
    reveal_strlit("definitions");
    reveal_strlit("description");
    reveal_strlit("images");
    reveal_strlit("invocationImages");
    reveal_strlit("keywords");
    reveal_strlit("license");
    reveal_strlit("maintainers");
    reveal_strlit("name");
    reveal_strlit("outputs");
    reveal_strlit("parameters");
    reveal_strlit("schemaVersion");
    reveal_strlit("version");
    assert("actions"@.len() == 7);
    assert("credentials"@.len() == 11);
    assert("custom"@.len() == 6);
    assert("definitions"@.len() == 11);
    assert("description"@.len() == 11);
    assert("images"@.len() == 6);
    assert("invocationImages"@.len() == 16);
    assert("keywords"@.len() == 8);
    assert("license"@.len() == 7);
    assert("maintainers"@.len() == 11);
    assert("name"@.len() == 4);
    assert("outputs"@.len() == 7);
    assert("parameters"@.len() == 10);
    assert("schemaVersion"@.len() == 13);
    assert("version"@.len() == 7);
    assert("actions"@[0] == 'a');
    assert("license"@[0] == 'l');
    assert("actions"@[0] == 'a');
    assert("outputs"@[0] == 'o');
    assert("actions"@[0] == 'a');
    assert("version"@[0] == 'v');
    assert("credentials"@[0] == 'c');
    assert("definitions"@[0] == 'd');
    assert("credentials"@[0] == 'c');
    assert("description"@[0] == 'd');
    assert("credentials"@[0] == 'c');
    assert("maintainers"@[0] == 'm');
    assert("custom"@[0] == 'c');
    assert("images"@[0] == 'i');
    assert("definitions"@[2] == 'f');
    assert("description"@[2] == 's');
    assert("definitions"@[0] == 'd');
    assert("maintainers"@[0] == 'm');
    assert("description"@[0] == 'd');
    assert("maintainers"@[0] == 'm');
    assert("license"@[0] == 'l');
    assert("outputs"@[0] == 'o');
    assert("license"@[0] == 'l');
    assert("version"@[0] == 'v');
    assert("outputs"@[0] == 'o');
    assert("version"@[0] == 'v');
    assert("actions"@ != "license"@);
    assert("credentials"@ != "license"@);
    assert("custom"@ != "license"@);
    assert("definitions"@ != "license"@);
    assert("description"@ != "license"@);
    assert("images"@ != "license"@);
    assert("invocationImages"@ != "license"@);
    assert("keywords"@ != "license"@);
    assert("maintainers"@ != "license"@);
    assert("name"@ != "license"@);
    assert("outputs"@ != "license"@);
    assert("parameters"@ != "license"@);
    assert("schemaVersion"@ != "license"@);
    assert("version"@ != "license"@);
    lemma_obj_get_opt_fld("actions"@, action_map_opt(b.actions), "license"@);
    lemma_obj_get_opt_fld("credentials"@, credential_map_opt(b.credentials), "license"@);
    lemma_obj_get_opt_fld("custom"@, obj_opt(b.custom), "license"@);
    lemma_obj_get_opt_fld("definitions"@, obj_opt(b.definitions), "license"@);
    lemma_obj_get_opt_fld("description"@, str_opt(b.description), "license"@);
    lemma_obj_get_opt_fld("images"@, image_map_opt(b.images), "license"@);
    lemma_obj_get_fld("invocationImages"@, JsonV::Arr(spec_invocation_images_json(b.invocation_images)), "license"@);
    lemma_obj_get_opt_fld("keywords"@, str_arr_opt(b.keywords), "license"@);
    lemma_obj_get_opt_fld("license"@, str_opt(b.license), "license"@);
    lemma_obj_get_opt_fld("maintainers"@, maintainers_opt(b.maintainers), "license"@);
    lemma_obj_get_fld("name"@, JsonV::Str(b.name), "license"@);
    lemma_obj_get_opt_fld("outputs"@, output_map_opt(b.outputs), "license"@);
    lemma_obj_get_opt_fld("parameters"@, parameter_map_opt(b.parameters), "license"@);
    lemma_obj_get_fld("schemaVersion"@, JsonV::Str(b.schema_version), "license"@);
    lemma_obj_get_fld("version"@, JsonV::Str(spec_version_chars(b.version)), "license"@);
    lemma_obj_get_concat(s1, s2, "license"@);
    lemma_obj_get_concat(s1 + s2, s3, "license"@);
    lemma_obj_get_concat(s1 + s2 + s3, s4, "license"@);
    lemma_obj_get_concat(s1 + s2 + s3 + s4, s5, "license"@);
    lemma_obj_get_concat(s1 + s2 + s3 + s4 + s5, s6, "license"@);
    lemma_obj_get_concat(s1 + s2 + s3 + s4 + s5 + s6, s7, "license"@);
    lemma_obj_get_concat(s1 + s2 + s3 + s4 + s5 + s6 + s7, s8, "license"@);
    lemma_obj_get_concat(s1 + s2 + s3 + s4 + s5 + s6 + s7 + s8, s9, "license"@);
    lemma_obj_get_concat(s1 + s2 + s3 + s4 + s5 + s6 + s7 + s8 + s9, s10, "license"@);
    lemma_obj_get_concat(s1 + s2 + s3 + s4 + s5 + s6 + s7 + s8 + s9 + s10, s11, "license"@);
    lemma_obj_get_concat(s1 + s2 + s3 + s4 + s5 + s6 + s7 + s8 + s9 + s10 + s11, s12, "license"@);
    lemma_obj_get_concat(s1 + s2 + s3 + s4 + s5 + s6 + s7 + s8 + s9 + s10 + s11 + s12, s13, "license"@);
    lemma_obj_get_concat(s1 + s2 + s3 + s4 + s5 + s6 + s7 + s8 + s9 + s10 + s11 + s12 + s13, s14, "license"@);
    lemma_obj_get_concat(s1 + s2 + s3 + s4 + s5 + s6 + s7 + s8 + s9 + s10 + s11 + s12 + s13 + s14, s15, "license"@);
    assert(o == spec_bundle_fields(b));
}

/// What the bundle object holds under `maintainers`.
#[verifier::rlimit(100)]
proof fn lemma_bundle_get_maintainers(b: BundleV)
    ensures
        obj_get(spec_bundle_fields(b), "maintainers"@) == maintainers_opt(b.maintainers),
{
    let s1 = opt_fld("actions"@, action_map_opt(b.actions));
    let s2 = opt_fld("credentials"@, credential_map_opt(b.credentials));
    let s3 = opt_fld("custom"@, obj_opt(b.custom));
    let s4 = opt_fld("definitions"@, obj_opt(b.definitions));
    let s5 = opt_fld("description"@, str_opt(b.description));
    let s6 = opt_fld("images"@, image_map_opt(b.images));
    let s7 = fld("invocationImages"@, JsonV::Arr(spec_invocation_images_json(b.invocation_images)));
    let s8 = opt_fld("keywords"@, str_arr_opt(b.keywords));
    let s9 = opt_fld("license"@, str_opt(b.license));
    let s10 = opt_fld("maintainers"@, maintainers_opt(b.maintainers));
    let s11 = fld("name"@, JsonV::Str(b.name));
    let s12 = opt_fld("outputs"@, output_map_opt(b.outputs));
    let s13 = opt_fld("parameters"@, parameter_map_opt(b.parameters));
    let s14 = fld("schemaVersion"@, JsonV::Str(b.schema_version));
    let s15 = fld("version"@, JsonV::Str(spec_version_chars(b.version)));
    let o = s1 + s2 + s3 + s4 + s5 + s6 + s7 + s8 + s9 + s10 + s11 + s12 + s13 + s14 + s15;
    reveal_strlit("actions");
    reveal_strlit("credentials");
    reveal_strlit("custom");
    reveal_strlit("definitions");
    reveal_strlit("description");
    reveal_strlit("images");
    reveal_strlit("invocationImages");
    reveal_strlit("keywords");
    reveal_strlit("license");
    reveal_strlit("maintainers");
    reveal_strlit("name");
    reveal_strlit("outputs");
    reveal_strlit("parameters");
    reveal_strlit("schemaVersion");
    reveal_strlit("version");
    assert("actions"@.len() == 7);
    assert("credentials"@.len() == 11);
    assert("custom"@.len() == 6);
    assert("definitions"@.len() == 11);
    assert("description"@.len() == 11);
    assert("images"@.len() == 6);
    assert("invocationImages"@.len() == 16);
    assert("keywords"@.len() == 8);
    assert("license"@.len() == 7);
    assert("maintainers"@.len() == 11);
    assert("name"@.len() == 4);
    assert("outputs"@.len() == 7);
    assert("parameters"@.len() == 10);
    assert("schemaVersion"@.len() == 13);
    assert("version"@.len() == 7);
    assert("actions"@[0] == 'a');
    assert("license"@[0] == 'l');
    assert("actions"@[0] == 'a');
    assert("outputs"@[0] == 'o');
    assert("actions"@[0] == 'a');
    assert("version"@[0] == 'v');
    assert("credentials"@[0] == 'c');
    assert("definitions"@[0] == 'd');
    assert("credentials"@[0] == 'c');
    assert("description"@[0] == 'd');
    assert("credentials"@[0] == 'c');
    assert("maintainers"@[0] == 'm');
    assert("custom"@[0] == 'c');
    assert("images"@[0] == 'i');
    assert("definitions"@[2] == 'f');
    assert("description"@[2] == 's');
    assert("definitions"@[0] == 'd');
    assert("maintainers"@[0] == 'm');
    assert("description"@[0] == 'd');
    assert("maintainers"@[0] == 'm');
    assert("license"@[0] == 'l');
    assert("outputs"@[0] == 'o');
    assert("license"@[0] == 'l');
    assert("version"@[0] == 'v');
    assert("outputs"@[0] == 'o');
    assert("version"@[0] == 'v');
    assert("actions"@ != "maintainers"@);
    assert("credentials"@ != "maintainers"@);
    assert("custom"@ != "maintainers"@);
    assert("definitions"@ != "maintainers"@);
    assert("description"@ != "maintainers"@);
    assert("images"@ != "maintainers"@);
    assert("invocationImages"@ != "maintainers"@);
    assert("keywords"@ != "maintainers"@);
    assert("license"@ != "maintainers"@);
    assert("name"@ != "maintainers"@);
    assert("outputs"@ != "maintainers"@);
    assert("parameters"@ != "maintainers"@);
    assert("schemaVersion"@ != "maintainers"@);
    assert("version"@ != "maintainers"@);
    lemma_obj_get_opt_fld("actions"@, action_map_opt(b.actions), "maintainers"@);
    lemma_obj_get_opt_fld("credentials"@, credential_map_opt(b.credentials), "maintainers"@);
    lemma_obj_get_opt_fld("custom"@, obj_opt(b.custom), "maintainers"@);
    lemma_obj_get_opt_fld("definitions"@, obj_opt(b.definitions), "maintainers"@);
    lemma_obj_get_opt_fld("description"@, str_opt(b.description), "maintainers"@);
    lemma_obj_get_opt_fld("images"@, image_map_opt(b.images), "maintainers"@);
    lemma_obj_get_fld("invocationImages"@, JsonV::Arr(spec_invocation_images_json(b.invocation_images)), "maintainers"@);
    lemma_obj_get_opt_fld("keywords"@, str_arr_opt(b.keywords), "maintainers"@);
    lemma_obj_get_opt_fld("license"@, str_opt(b.license), "maintainers"@);
    lemma_obj_get_opt_fld("maintainers"@, maintainers_opt(b.maintainers), "maintainers"@);
    lemma_obj_get_fld("name"@, JsonV::Str(b.name), "maintainers"@);
    lemma_obj_get_opt_fld("outputs"@, output_map_opt(b.outputs), "maintainers"@);
    lemma_obj_get_opt_fld("parameters"@, parameter_map_opt(b.parameters), "maintainers"@);
    lemma_obj_get_fld("schemaVersion"@, JsonV::Str(b.schema_version), "maintainers"@);
    lemma_obj_get_fld("version"@, JsonV::Str(spec_version_chars(b.version)), "maintainers"@);
    lemma_obj_get_concat(s1, s2, "maintainers"@);
    lemma_obj_get_concat(s1 + s2, s3, "maintainers"@);
    lemma_obj_get_concat(s1 + s2 + s3, s4, "maintainers"@);
    lemma_obj_get_concat(s1 + s2 + s3 + s4, s5, "maintainers"@);
    lemma_obj_get_concat(s1 + s2 + s3 + s4 + s5, s6, "maintainers"@);
    lemma_obj_get_concat(s1 + s2 + s3 + s4 + s5 + s6, s7, "maintainers"@);
    lemma_obj_get_concat(s1 + s2 + s3 + s4 + s5 + s6 + s7, s8, "maintainers"@);
    lemma_obj_get_concat(s1 + s2 + s3 + s4 + s5 + s6 + s7 + s8, s9, "maintainers"@);
    lemma_obj_get_concat(s1 + s2 + s3 + s4 + s5 + s6 + s7 + s8 + s9, s10, "maintainers"@);
    lemma_obj_get_concat(s1 + s2 + s3 + s4 + s5 + s6 + s7 + s8 + s9 + s10, s11, "maintainers"@);
    lemma_obj_get_concat(s1 + s2 + s3 + s4 + s5 + s6 + s7 + s8 + s9 + s10 + s11, s12, "maintainers"@);
    lemma_obj_get_concat(s1 + s2 + s3 + s4 + s5 + s6 + s7 + s8 + s9 + s10 + s11 + s12, s13, "maintainers"@);
    lemma_obj_get_concat(s1 + s2 + s3 + s4 + s5 + s6 + s7 + s8 + s9 + s10 + s11 + s12 + s13, s14, "maintainers"@);
    lemma_obj_get_concat(s1 + s2 + s3 + s4 + s5 + s6 + s7 + s8 + s9 + s10 + s11 + s12 + s13 + s14, s15, "maintainers"@);
    assert(o == spec_bundle_fields(b));
}

/// What the bundle object holds under `name`.
#[verifier::rlimit(100)]
proof fn lemma_bundle_get_name(b: BundleV)
    ensures
        obj_get(spec_bundle_fields(b), "name"@) == Some(JsonV::Str(b.name)),
{
    let s1 = opt_fld("actions"@, action_map_opt(b.actions));
    let s2 = opt_fld("credentials"@, credential_map_opt(b.credentials));
    let s3 = opt_fld("custom"@, obj_opt(b.custom));
    let s4 = opt_fld("definitions"@, obj_opt(b.definitions));
    let s5 = opt_fld("description"@, str_opt(b.description));
    let s6 = opt_fld("images"@, image_map_opt(b.images));
    let s7 = fld("invocationImages"@, JsonV::Arr(spec_invocation_images_json(b.invocation_images)));
    let s8 = opt_fld("keywords"@, str_arr_opt(b.keywords));
    let s9 = opt_fld("license"@, str_opt(b.license));
    let s10 = opt_fld("maintainers"@, maintainers_opt(b.maintainers));
    let s11 = fld("name"@, JsonV::Str(b.name));
    let s12 = opt_fld("outputs"@, output_map_opt(b.outputs));
    let s13 = opt_fld("parameters"@, parameter_map_opt(b.parameters));
    let s14 = fld("schemaVersion"@, JsonV::Str(b.schema_version));
    let s15 = fld("version"@, JsonV::Str(spec_version_chars(b.version)));
    let o = s1 + s2 + s3 + s4 + s5 + s6 + s7 + s8 + s9 + s10 + s11 + s12 + s13 + s14 + s15;
    reveal_strlit("actions");
    reveal_strlit("credentials");
    reveal_strlit("custom");
    reveal_strlit("definitions");
    reveal_strlit("description");
    reveal_strlit("images");
    reveal_strlit("invocationImages");
    reveal_strlit("keywords");
    reveal_strlit("license");
    reveal_strlit("maintainers");
    reveal_strlit("name");
    reveal_strlit("outputs");
    reveal_strlit("parameters");
    reveal_strlit("schemaVersion");
    reveal_strlit("version");
    assert("actions"@.len() == 7);
    assert("credentials"@.len() == 11);
    assert("custom"@.len() == 6);
    assert("definitions"@.len() == 11);
    assert("description"@.len() == 11);
    assert("images"@.len() == 6);
    assert("invocationImages"@.len() == 16);
    assert("keywords"@.len() == 8);
    assert("license"@.len() == 7);
    assert("maintainers"@.len() == 11);
    assert("name"@.len() == 4);
    assert("outputs"@.len() == 7);
    assert("parameters"@.len() == 10);
    assert("schemaVersion"@.len() == 13);
    assert("version"@.len() == 7);
    assert("actions"@[0] == 'a');
    assert("license"@[0] == 'l');
    assert("actions"@[0] == 'a');
    assert("outputs"@[0] == 'o');
    assert("actions"@[0] == 'a');
    assert("version"@[0] == 'v');
    assert("credentials"@[0] == 'c');
    assert("definitions"@[0] == 'd');
    assert("credentials"@[0] == 'c');
    assert("description"@[0] == 'd');
    assert("credentials"@[0] == 'c');
    assert("maintainers"@[0] == 'm');
    assert("custom"@[0] == 'c');
    assert("images"@[0] == 'i');
    assert("definitions"@[2] == 'f');
    assert("description"@[2] == 's');
    assert("definitions"@[0] == 'd');
    assert("maintainers"@[0] == 'm');
    assert("description"@[0] == 'd');
    assert("maintainers"@[0] == 'm');
    assert("license"@[0] == 'l');
    assert("outputs"@[0] == 'o');
    assert("license"@[0] == 'l');
    assert("version"@[0] == 'v');
    assert("outputs"@[0] == 'o');
    assert("version"@[0] == 'v');
    assert("actions"@ != "name"@);
    assert("credentials"@ != "name"@);
    assert("custom"@ != "name"@);
    assert("definitions"@ != "name"@);
    assert("description"@ != "name"@);
    assert("images"@ != "name"@);
    assert("invocationImages"@ != "name"@);
    assert("keywords"@ != "name"@);
    assert("license"@ != "name"@);
    assert("maintainers"@ != "name"@);
    assert("outputs"@ != "name"@);
    assert("parameters"@ != "name"@);
    assert("schemaVersion"@ != "name"@);
    assert("version"@ != "name"@);
    lemma_obj_get_opt_fld("actions"@, action_map_opt(b.actions), "name"@);
    lemma_obj_get_opt_fld("credentials"@, credential_map_opt(b.credentials), "name"@);
    lemma_obj_get_opt_fld("custom"@, obj_opt(b.custom), "name"@);
    lemma_obj_get_opt_fld("definitions"@, obj_opt(b.definitions), "name"@);
    lemma_obj_get_opt_fld("description"@, str_opt(b.description), "name"@);
    lemma_obj_get_opt_fld("images"@, image_map_opt(b.images), "name"@);
    lemma_obj_get_fld("invocationImages"@, JsonV::Arr(spec_invocation_images_json(b.invocation_images)), "name"@);
    lemma_obj_get_opt_fld("keywords"@, str_arr_opt(b.keywords), "name"@);
    lemma_obj_get_opt_fld("license"@, str_opt(b.license), "name"@);
    lemma_obj_get_opt_fld("maintainers"@, maintainers_opt(b.maintainers), "name"@);
    lemma_obj_get_fld("name"@, JsonV::Str(b.name), "name"@);
    lemma_obj_get_opt_fld("outputs"@, output_map_opt(b.outputs), "name"@);
    lemma_obj_get_opt_fld("parameters"@, parameter_map_opt(b.parameters), "name"@);
    lemma_obj_get_fld("schemaVersion"@, JsonV::Str(b.schema_version), "name"@);
    lemma_obj_get_fld("version"@, JsonV::Str(spec_version_chars(b.version)), "name"@);
    lemma_obj_get_concat(s1, s2, "name"@);
    lemma_obj_get_concat(s1 + s2, s3, "name"@);
    lemma_obj_get_concat(s1 + s2 + s3, s4, "name"@);
    lemma_obj_get_concat(s1 + s2 + s3 + s4, s5, "name"@);
    lemma_obj_get_concat(s1 + s2 + s3 + s4 + s5, s6, "name"@);
    lemma_obj_get_concat(s1 + s2 + s3 + s4 + s5 + s6, s7, "name"@);
    lemma_obj_get_concat(s1 + s2 + s3 + s4 + s5 + s6 + s7, s8, "name"@);
    lemma_obj_get_concat(s1 + s2 + s3 + s4 + s5 + s6 + s7 + s8, s9, "name"@);
    lemma_obj_get_concat(s1 + s2 + s3 + s4 + s5 + s6 + s7 + s8 + s9, s10, "name"@);
    lemma_obj_get_concat(s1 + s2 + s3 + s4 + s5 + s6 + s7 + s8 + s9 + s10, s11, "name"@);
    lemma_obj_get_concat(s1 + s2 + s3 + s4 + s5 + s6 + s7 + s8 + s9 + s10 + s11, s12, "name"@);
    lemma_obj_get_concat(s1 + s2 + s3 + s4 + s5 + s6 + s7 + s8 + s9 + s10 + s11 + s12, s13, "name"@);
    lemma_obj_get_concat(s1 + s2 + s3 + s4 + s5 + s6 + s7 + s8 + s9 + s10 + s11 + s12 + s13, s14, "name"@);
    lemma_obj_get_concat(s1 + s2 + s3 + s4 + s5 + s6 + s7 + s8 + s9 + s10 + s11 + s12 + s13 + s14, s15, "name"@);
    assert(o == spec_bundle_fields(b));
}

/// What the bundle object holds under `outputs`.
#[verifier::rlimit(100)]
proof fn lemma_bundle_get_outputs(b: BundleV)
    ensures
        obj_get(spec_bundle_fields(b), "outputs"@) == output_map_opt(b.outputs),
{
    let s1 = opt_fld("actions"@, action_map_opt(b.actions));
    let s2 = opt_fld("credentials"@, credential_map_opt(b.credentials));
    let s3 = opt_fld("custom"@, obj_opt(b.custom));
    let s4 = opt_fld("definitions"@, obj_opt(b.definitions));
    let s5 = opt_fld("description"@, str_opt(b.description));
    let s6 = opt_fld("images"@, image_map_opt(b.images));
    let s7 = fld("invocationImages"@, JsonV::Arr(spec_invocation_images_json(b.invocation_images)));
    let s8 = opt_fld("keywords"@, str_arr_opt(b.keywords));
    let s9 = opt_fld("license"@, str_opt(b.license));
    let s10 = opt_fld("maintainers"@, maintainers_opt(b.maintainers));
    let s11 = fld("name"@, JsonV::Str(b.name));
    let s12 = opt_fld("outputs"@, output_map_opt(b.outputs));
    let s13 = opt_fld("parameters"@, parameter_map_opt(b.parameters));
    let s14 = fld("schemaVersion"@, JsonV::Str(b.schema_version));
    let s15 = fld("version"@, JsonV::Str(spec_version_chars(b.version)));
    let o = s1 + s2 + s3 + s4 + s5 + s6 + s7 + s8 + s9 + s10 + s11 + s12 + s13 + s14 + s15;
    reveal_strlit("actions");
    reveal_strlit("credentials");
    reveal_strlit("custom");
    reveal_strlit("definitions");
    reveal_strlit("description");
    reveal_strlit("images");
    reveal_strlit("invocationImages");
    reveal_strlit("keywords");
    reveal_strlit("license");
    reveal_strlit("maintainers");
    reveal_strlit("name");
    reveal_strlit("outputs");
    reveal_strlit("parameters");
    reveal_strlit("schemaVersion");
    reveal_strlit("version");
    assert("actions"@.len() == 7);
    assert("credentials"@.len() == 11);
    assert("custom"@.len() == 6);
    assert("definitions"@.len() == 11);
    assert("description"@.len() == 11);
    assert("images"@.len() == 6);
    assert("invocationImages"@.len() == 16);
    assert("keywords"@.len() == 8);
    assert("license"@.len() == 7);
    assert("maintainers"@.len() == 11);
    assert("name"@.len() == 4);
    assert("outputs"@.len() == 7);
    assert("parameters"@.len() == 10);
    assert("schemaVersion"@.len() == 13);
    assert("version"@.len() == 7);
    assert("actions"@[0] == 'a');
    assert("license"@[0] == 'l');
    assert("actions"@[0] == 'a');
    assert("outputs"@[0] == 'o');
    assert("actions"@[0] == 'a');
    assert("version"@[0] == 'v');
    assert("credentials"@[0] == 'c');
    assert("definitions"@[0] == 'd');
    assert("credentials"@[0] == 'c');
    assert("description"@[0] == 'd');
    assert("credentials"@[0] == 'c');
    assert("maintainers"@[0] == 'm');
    assert("custom"@[0] == 'c');
    assert("images"@[0] == 'i');
    assert("definitions"@[2] == 'f');
    assert("description"@[2] == 's');
    assert("definitions"@[0] == 'd');
    assert("maintainers"@[0] == 'm');
    assert("description"@[0] == 'd');
    assert("maintainers"@[0] == 'm');
    assert("license"@[0] == 'l');
    assert("outputs"@[0] == 'o');
    assert("license"@[0] == 'l');
    assert("version"@[0] == 'v');
    assert("outputs"@[0] == 'o');
    assert("version"@[0] == 'v');
    assert("actions"@ != "outputs"@);
    assert("credentials"@ != "outputs"@);
    assert("custom"@ != "outputs"@);
    assert("definitions"@ != "outputs"@);
    assert("description"@ != "outputs"@);
    assert("images"@ != "outputs"@);
    assert("invocationImages"@ != "outputs"@);
    assert("keywords"@ != "outputs"@);
    assert("license"@ != "outputs"@);
    assert("maintainers"@ != "outputs"@);
    assert("name"@ != "outputs"@);
    assert("parameters"@ != "outputs"@);
    assert("schemaVersion"@ != "outputs"@);
    assert("version"@ != "outputs"@);
    lemma_obj_get_opt_fld("actions"@, action_map_opt(b.actions), "outputs"@);
    lemma_obj_get_opt_fld("credentials"@, credential_map_opt(b.credentials), "outputs"@);
    lemma_obj_get_opt_fld("custom"@, obj_opt(b.custom), "outputs"@);
    lemma_obj_get_opt_fld("definitions"@, obj_opt(b.definitions), "outputs"@);
    lemma_obj_get_opt_fld("description"@, str_opt(b.description), "outputs"@);
    lemma_obj_get_opt_fld("images"@, image_map_opt(b.images), "outputs"@);
    lemma_obj_get_fld("invocationImages"@, JsonV::Arr(spec_invocation_images_json(b.invocation_images)), "outputs"@);
    lemma_obj_get_opt_fld("keywords"@, str_arr_opt(b.keywords), "outputs"@);
    lemma_obj_get_opt_fld("license"@, str_opt(b.license), "outputs"@);
    lemma_obj_get_opt_fld("maintainers"@, maintainers_opt(b.maintainers), "outputs"@);
    lemma_obj_get_fld("name"@, JsonV::Str(b.name), "outputs"@);
    lemma_obj_get_opt_fld("outputs"@, output_map_opt(b.outputs), "outputs"@);
    lemma_obj_get_opt_fld("parameters"@, parameter_map_opt(b.parameters), "outputs"@);
    lemma_obj_get_fld("schemaVersion"@, JsonV::Str(b.schema_version), "outputs"@);
    lemma_obj_get_fld("version"@, JsonV::Str(spec_version_chars(b.version)), "outputs"@);
    lemma_obj_get_concat(s1, s2, "outputs"@);
    lemma_obj_get_concat(s1 + s2, s3, "outputs"@);
    lemma_obj_get_concat(s1 + s2 + s3, s4, "outputs"@);
    lemma_obj_get_concat(s1 + s2 + s3 + s4, s5, "outputs"@);
    lemma_obj_get_concat(s1 + s2 + s3 + s4 + s5, s6, "outputs"@);
    lemma_obj_get_concat(s1 + s2 + s3 + s4 + s5 + s6, s7, "outputs"@);
    lemma_obj_get_concat(s1 + s2 + s3 + s4 + s5 + s6 + s7, s8, "outputs"@);
    lemma_obj_get_concat(s1 + s2 + s3 + s4 + s5 + s6 + s7 + s8, s9, "outputs"@);
    lemma_obj_get_concat(s1 + s2 + s3 + s4 + s5 + s6 + s7 + s8 + s9, s10, "outputs"@);
    lemma_obj_get_concat(s1 + s2 + s3 + s4 + s5 + s6 + s7 + s8 + s9 + s10, s11, "outputs"@);
    lemma_obj_get_concat(s1 + s2 + s3 + s4 + s5 + s6 + s7 + s8 + s9 + s10 + s11, s12, "outputs"@);
    lemma_obj_get_concat(s1 + s2 + s3 + s4 + s5 + s6 + s7 + s8 + s9 + s10 + s11 + s12, s13, "outputs"@);
    lemma_obj_get_concat(s1 + s2 + s3 + s4 + s5 + s6 + s7 + s8 + s9 + s10 + s11 + s12 + s13, s14, "outputs"@);
    lemma_obj_get_concat(s1 + s2 + s3 + s4 + s5 + s6 + s7 + s8 + s9 + s10 + s11 + s12 + s13 + s14, s15, "outputs"@);
    assert(o == spec_bundle_fields(b));
}

/// What the bundle object holds under `parameters`.
#[verifier::rlimit(100)]
proof fn lemma_bundle_get_parameters(b: BundleV)
    ensures
        obj_get(spec_bundle_fields(b), "parameters"@) == parameter_map_opt(b.parameters),
{
    let s1 = opt_fld("actions"@, action_map_opt(b.actions));
    let s2 = opt_fld("credentials"@, credential_map_opt(b.credentials));
    let s3 = opt_fld("custom"@, obj_opt(b.custom));
    let s4 = opt_fld("definitions"@, obj_opt(b.definitions));
    let s5 = opt_fld("description"@, str_opt(b.description));
    let s6 = opt_fld("images"@, image_map_opt(b.images));
    let s7 = fld("invocationImages"@, JsonV::Arr(spec_invocation_images_json(b.invocation_images)));
    let s8 = opt_fld("keywords"@, str_arr_opt(b.keywords));
    let s9 = opt_fld("license"@, str_opt(b.license));
    let s10 = opt_fld("maintainers"@, maintainers_opt(b.maintainers));
    let s11 = fld("name"@, JsonV::Str(b.name));
    let s12 = opt_fld("outputs"@, output_map_opt(b.outputs));
    let s13 = opt_fld("parameters"@, parameter_map_opt(b.parameters));
    let s14 = fld("schemaVersion"@, JsonV::Str(b.schema_version));
    let s15 = fld("version"@, JsonV::Str(spec_version_chars(b.version)));
    let o = s1 + s2 + s3 + s4 + s5 + s6 + s7 + s8 + s9 + s10 + s11 + s12 + s13 + s14 + s15;
    reveal_strlit("actions");
    reveal_strlit("credentials");
    reveal_strlit("custom");
    reveal_strlit("definitions");
    reveal_strlit("description");
    reveal_strlit("images");
    reveal_strlit("invocationImages");
    reveal_strlit("keywords");
    reveal_strlit("license");
    reveal_strlit("maintainers");
    reveal_strlit("name");
    reveal_strlit("outputs");
    reveal_strlit("parameters");
    reveal_strlit("schemaVersion");
    reveal_strlit("version");
    assert("actions"@.len() == 7);
    assert("credentials"@.len() == 11);
    assert("custom"@.len() == 6);
    assert("definitions"@.len() == 11);
    assert("description"@.len() == 11);
    assert("images"@.len() == 6);
    assert("invocationImages"@.len() == 16);
    assert("keywords"@.len() == 8);
    assert("license"@.len() == 7);
    assert("maintainers"@.len() == 11);
    assert("name"@.len() == 4);
    assert("outputs"@.len() == 7);
    assert("parameters"@.len() == 10);
    assert("schemaVersion"@.len() == 13);
    assert("version"@.len() == 7);
    assert("actions"@[0] == 'a');
    assert("license"@[0] == 'l');
    assert("actions"@[0] == 'a');
    assert("outputs"@[0] == 'o');
    assert("actions"@[0] == 'a');
    assert("version"@[0] == 'v');
    assert("credentials"@[0] == 'c');
    assert("definitions"@[0] == 'd');
    assert("credentials"@[0] == 'c');
    assert("description"@[0] == 'd');
    assert("credentials"@[0] == 'c');
    assert("maintainers"@[0] == 'm');
    assert("custom"@[0] == 'c');
    assert("images"@[0] == 'i');
    assert("definitions"@[2] == 'f');
    assert("description"@[2] == 's');
    assert("definitions"@[0] == 'd');
    assert("maintainers"@[0] == 'm');
    assert("description"@[0] == 'd');
    assert("maintainers"@[0] == 'm');
    assert("license"@[0] == 'l');
    assert("outputs"@[0] == 'o');
    assert("license"@[0] == 'l');
    assert("version"@[0] == 'v');
    assert("outputs"@[0] == 'o');
    assert("version"@[0] == 'v');
    assert("actions"@ != "parameters"@);
    assert("credentials"@ != "parameters"@);
    assert("custom"@ != "parameters"@);
    assert("definitions"@ != "parameters"@);
    assert("description"@ != "parameters"@);
    assert("images"@ != "parameters"@);
    assert("invocationImages"@ != "parameters"@);
    assert("keywords"@ != "parameters"@);
    assert("license"@ != "parameters"@);
    assert("maintainers"@ != "parameters"@);
    assert("name"@ != "parameters"@);
    assert("outputs"@ != "parameters"@);
    assert("schemaVersion"@ != "parameters"@);
    assert("version"@ != "parameters"@);
    lemma_obj_get_opt_fld("actions"@, action_map_opt(b.actions), "parameters"@);
    lemma_obj_get_opt_fld("credentials"@, credential_map_opt(b.credentials), "parameters"@);
    lemma_obj_get_opt_fld("custom"@, obj_opt(b.custom), "parameters"@);
    lemma_obj_get_opt_fld("definitions"@, obj_opt(b.definitions), "parameters"@);
    lemma_obj_get_opt_fld("description"@, str_opt(b.description), "parameters"@);
    lemma_obj_get_opt_fld("images"@, image_map_opt(b.images), "parameters"@);
    lemma_obj_get_fld("invocationImages"@, JsonV::Arr(spec_invocation_images_json(b.invocation_images)), "parameters"@);
    lemma_obj_get_opt_fld("keywords"@, str_arr_opt(b.keywords), "parameters"@);
    lemma_obj_get_opt_fld("license"@, str_opt(b.license), "parameters"@);
    lemma_obj_get_opt_fld("maintainers"@, maintainers_opt(b.maintainers), "parameters"@);
    lemma_obj_get_fld("name"@, JsonV::Str(b.name), "parameters"@);
    lemma_obj_get_opt_fld("outputs"@, output_map_opt(b.outputs), "parameters"@);
    lemma_obj_get_opt_fld("parameters"@, parameter_map_opt(b.parameters), "parameters"@);
    lemma_obj_get_fld("schemaVersion"@, JsonV::Str(b.schema_version), "parameters"@);
    lemma_obj_get_fld("version"@, JsonV::Str(spec_version_chars(b.version)), "parameters"@);
    lemma_obj_get_concat(s1, s2, "parameters"@);
    lemma_obj_get_concat(s1 + s2, s3, "parameters"@);
    lemma_obj_get_concat(s1 + s2 + s3, s4, "parameters"@);
    lemma_obj_get_concat(s1 + s2 + s3 + s4, s5, "parameters"@);
    lemma_obj_get_concat(s1 + s2 + s3 + s4 + s5, s6, "parameters"@);
    lemma_obj_get_concat(s1 + s2 + s3 + s4 + s5 + s6, s7, "parameters"@);
    lemma_obj_get_concat(s1 + s2 + s3 + s4 + s5 + s6 + s7, s8, "parameters"@);
    lemma_obj_get_concat(s1 + s2 + s3 + s4 + s5 + s6 + s7 + s8, s9, "parameters"@);
    lemma_obj_get_concat(s1 + s2 + s3 + s4 + s5 + s6 + s7 + s8 + s9, s10, "parameters"@);
    lemma_obj_get_concat(s1 + s2 + s3 + s4 + s5 + s6 + s7 + s8 + s9 + s10, s11, "parameters"@);
    lemma_obj_get_concat(s1 + s2 + s3 + s4 + s5 + s6 + s7 + s8 + s9 + s10 + s11, s12, "parameters"@);
    lemma_obj_get_concat(s1 + s2 + s3 + s4 + s5 + s6 + s7 + s8 + s9 + s10 + s11 + s12, s13, "parameters"@);
    lemma_obj_get_concat(s1 + s2 + s3 + s4 + s5 + s6 + s7 + s8 + s9 + s10 + s11 + s12 + s13, s14, "parameters"@);
    lemma_obj_get_concat(s1 + s2 + s3 + s4 + s5 + s6 + s7 + s8 + s9 + s10 + s11 + s12 + s13 + s14, s15, "parameters"@);
    assert(o == spec_bundle_fields(b));
}

/// What the bundle object holds under `schemaVersion`.
#[verifier::rlimit(100)]
proof fn lemma_bundle_get_schema_version(b: BundleV)
    ensures
        obj_get(spec_bundle_fields(b), "schemaVersion"@) == Some(JsonV::Str(b.schema_version)),
{
    let s1 = opt_fld("actions"@, action_map_opt(b.actions));
    let s2 = opt_fld("credentials"@, credential_map_opt(b.credentials));
    let s3 = opt_fld("custom"@, obj_opt(b.custom));
    let s4 = opt_fld("definitions"@, obj_opt(b.definitions));
    let s5 = opt_fld("description"@, str_opt(b.description));
    let s6 = opt_fld("images"@, image_map_opt(b.images));
    let s7 = fld("invocationImages"@, JsonV::Arr(spec_invocation_images_json(b.invocation_images)));
    let s8 = opt_fld("keywords"@, str_arr_opt(b.keywords));
    let s9 = opt_fld("license"@, str_opt(b.license));
    let s10 = opt_fld("maintainers"@, maintainers_opt(b.maintainers));
    let s11 = fld("name"@, JsonV::Str(b.name));
    let s12 = opt_fld("outputs"@, output_map_opt(b.outputs));
    let s13 = opt_fld("parameters"@, parameter_map_opt(b.parameters));
    let s14 = fld("schemaVersion"@, JsonV::Str(b.schema_version));
    let s15 = fld("version"@, JsonV::Str(spec_version_chars(b.version)));
    let o = s1 + s2 + s3 + s4 + s5 + s6 + s7 + s8 + s9 + s10 + s11 + s12 + s13 + s14 + s15;
    reveal_strlit("actions");
    reveal_strlit("credentials");
    reveal_strlit("custom");
    reveal_strlit("definitions");
    reveal_strlit("description");
    reveal_strlit("images");
    reveal_strlit("invocationImages");
    reveal_strlit("keywords");
    reveal_strlit("license");
    reveal_strlit("maintainers");
    reveal_strlit("name");
    reveal_strlit("outputs");
    reveal_strlit("parameters");
    reveal_strlit("schemaVersion");
    reveal_strlit("version");
    assert("actions"@.len() == 7);
    assert("credentials"@.len() == 11);
    assert("custom"@.len() == 6);
    assert("definitions"@.len() == 11);
    assert("description"@.len() == 11);
    assert("images"@.len() == 6);
    assert("invocationImages"@.len() == 16);
    assert("keywords"@.len() == 8);
    assert("license"@.len() == 7);
    assert("maintainers"@.len() == 11);
    assert("name"@.len() == 4);
    assert("outputs"@.len() == 7);
    assert("parameters"@.len() == 10);
    assert("schemaVersion"@.len() == 13);
    assert("version"@.len() == 7);
    assert("actions"@[0] == 'a');
    assert("license"@[0] == 'l');
    assert("actions"@[0] == 'a');
    assert("outputs"@[0] == 'o');
    assert("actions"@[0] == 'a');
    assert("version"@[0] == 'v');
    assert("credentials"@[0] == 'c');
    assert("definitions"@[0] == 'd');
    assert("credentials"@[0] == 'c');
    assert("description"@[0] == 'd');
    assert("credentials"@[0] == 'c');
    assert("maintainers"@[0] == 'm');
    assert("custom"@[0] == 'c');
    assert("images"@[0] == 'i');
    assert("definitions"@[2] == 'f');
    assert("description"@[2] == 's');
    assert("definitions"@[0] == 'd');
    assert("maintainers"@[0] == 'm');
    assert("description"@[0] == 'd');
    assert("maintainers"@[0] == 'm');
    assert("license"@[0] == 'l');
    assert("outputs"@[0] == 'o');
    assert("license"@[0] == 'l');
    assert("version"@[0] == 'v');
    assert("outputs"@[0] == 'o');
    assert("version"@[0] == 'v');
    assert("actions"@ != "schemaVersion"@);
    assert("credentials"@ != "schemaVersion"@);
    assert("custom"@ != "schemaVersion"@);
    assert("definitions"@ != "schemaVersion"@);
    assert("description"@ != "schemaVersion"@);
    assert("images"@ != "schemaVersion"@);
    assert("invocationImages"@ != "schemaVersion"@);
    assert("keywords"@ != "schemaVersion"@);
    assert("license"@ != "schemaVersion"@);
    assert("maintainers"@ != "schemaVersion"@);
    assert("name"@ != "schemaVersion"@);
    assert("outputs"@ != "schemaVersion"@);
    assert("parameters"@ != "schemaVersion"@);
    assert("version"@ != "schemaVersion"@);
    lemma_obj_get_opt_fld("actions"@, action_map_opt(b.actions), "schemaVersion"@);
    lemma_obj_get_opt_fld("credentials"@, credential_map_opt(b.credentials), "schemaVersion"@);
    lemma_obj_get_opt_fld("custom"@, obj_opt(b.custom), "schemaVersion"@);
    lemma_obj_get_opt_fld("definitions"@, obj_opt(b.definitions), "schemaVersion"@);
    lemma_obj_get_opt_fld("description"@, str_opt(b.description), "schemaVersion"@);
    lemma_obj_get_opt_fld("images"@, image_map_opt(b.images), "schemaVersion"@);
    lemma_obj_get_fld("invocationImages"@, JsonV::Arr(spec_invocation_images_json(b.invocation_images)), "schemaVersion"@);
    lemma_obj_get_opt_fld("keywords"@, str_arr_opt(b.keywords), "schemaVersion"@);
    lemma_obj_get_opt_fld("license"@, str_opt(b.license), "schemaVersion"@);
    lemma_obj_get_opt_fld("maintainers"@, maintainers_opt(b.maintainers), "schemaVersion"@);
    lemma_obj_get_fld("name"@, JsonV::Str(b.name), "schemaVersion"@);
    lemma_obj_get_opt_fld("outputs"@, output_map_opt(b.outputs), "schemaVersion"@);
    lemma_obj_get_opt_fld("parameters"@, parameter_map_opt(b.parameters), "schemaVersion"@);
    lemma_obj_get_fld("schemaVersion"@, JsonV::Str(b.schema_version), "schemaVersion"@);
    lemma_obj_get_fld("version"@, JsonV::Str(spec_version_chars(b.version)), "schemaVersion"@);
    lemma_obj_get_concat(s1, s2, "schemaVersion"@);
    lemma_obj_get_concat(s1 + s2, s3, "schemaVersion"@);
    lemma_obj_get_concat(s1 + s2 + s3, s4, "schemaVersion"@);
    lemma_obj_get_concat(s1 + s2 + s3 + s4, s5, "schemaVersion"@);
    lemma_obj_get_concat(s1 + s2 + s3 + s4 + s5, s6, "schemaVersion"@);
    lemma_obj_get_concat(s1 + s2 + s3 + s4 + s5 + s6, s7, "schemaVersion"@);
    lemma_obj_get_concat(s1 + s2 + s3 + s4 + s5 + s6 + s7, s8, "schemaVersion"@);
    lemma_obj_get_concat(s1 + s2 + s3 + s4 + s5 + s6 + s7 + s8, s9, "schemaVersion"@);
    lemma_obj_get_concat(s1 + s2 + s3 + s4 + s5 + s6 + s7 + s8 + s9, s10, "schemaVersion"@);
    lemma_obj_get_concat(s1 + s2 + s3 + s4 + s5 + s6 + s7 + s8 + s9 + s10, s11, "schemaVersion"@);
    lemma_obj_get_concat(s1 + s2 + s3 + s4 + s5 + s6 + s7 + s8 + s9 + s10 + s11, s12, "schemaVersion"@);
    lemma_obj_get_concat(s1 + s2 + s3 + s4 + s5 + s6 + s7 + s8 + s9 + s10 + s11 + s12, s13, "schemaVersion"@);
    lemma_obj_get_concat(s1 + s2 + s3 + s4 + s5 + s6 + s7 + s8 + s9 + s10 + s11 + s12 + s13, s14, "schemaVersion"@);
    lemma_obj_get_concat(s1 + s2 + s3 + s4 + s5 + s6 + s7 + s8 + s9 + s10 + s11 + s12 + s13 + s14, s15, "schemaVersion"@);
    assert(o == spec_bundle_fields(b));
}

/// What the bundle object holds under `version`.
#[verifier::rlimit(100)]
proof fn lemma_bundle_get_version(b: BundleV)
    ensures
        obj_get(spec_bundle_fields(b), "version"@) == Some(JsonV::Str(spec_version_chars(b.version))),
{
    let s1 = opt_fld("actions"@, action_map_opt(b.actions));
    let s2 = opt_fld("credentials"@, credential_map_opt(b.credentials));
    let s3 = opt_fld("custom"@, obj_opt(b.custom));
    let s4 = opt_fld("definitions"@, obj_opt(b.definitions));
    let s5 = opt_fld("description"@, str_opt(b.description));
    let s6 = opt_fld("images"@, image_map_opt(b.images));
    let s7 = fld("invocationImages"@, JsonV::Arr(spec_invocation_images_json(b.invocation_images)));
    let s8 = opt_fld("keywords"@, str_arr_opt(b.keywords));
    let s9 = opt_fld("license"@, str_opt(b.license));
    let s10 = opt_fld("maintainers"@, maintainers_opt(b.maintainers));
    let s11 = fld("name"@, JsonV::Str(b.name));
    let s12 = opt_fld("outputs"@, output_map_opt(b.outputs));
    let s13 = opt_fld("parameters"@, parameter_map_opt(b.parameters));
    let s14 = fld("schemaVersion"@, JsonV::Str(b.schema_version));
    let s15 = fld("version"@, JsonV::Str(spec_version_chars(b.version)));
    let o = s1 + s2 + s3 + s4 + s5 + s6 + s7 + s8 + s9 + s10 + s11 + s12 + s13 + s14 + s15;
    reveal_strlit("actions");
    reveal_strlit("credentials");
    reveal_strlit("custom");
    reveal_strlit("definitions");
    reveal_strlit("description");
    reveal_strlit("images");
    reveal_strlit("invocationImages");
    reveal_strlit("keywords");
    reveal_strlit("license");
    reveal_strlit("maintainers");
    reveal_strlit("name");
    reveal_strlit("outputs");
    reveal_strlit("parameters");
    reveal_strlit("schemaVersion");
    reveal_strlit("version");
    assert("actions"@.len() == 7);
    assert("credentials"@.len() == 11);
    assert("custom"@.len() == 6);
    assert("definitions"@.len() == 11);
    assert("description"@.len() == 11);
    assert("images"@.len() == 6);
    assert("invocationImages"@.len() == 16);
    assert("keywords"@.len() == 8);
    assert("license"@.len() == 7);
    assert("maintainers"@.len() == 11);
    assert("name"@.len() == 4);
    assert("outputs"@.len() == 7);
    assert("parameters"@.len() == 10);
    assert("schemaVersion"@.len() == 13);
    assert("version"@.len() == 7);
    assert("actions"@[0] == 'a');
    assert("license"@[0] == 'l');
    assert("actions"@[0] == 'a');
    assert("outputs"@[0] == 'o');
    assert("actions"@[0] == 'a');
    assert("version"@[0] == 'v');
    assert("credentials"@[0] == 'c');
    assert("definitions"@[0] == 'd');
    assert("credentials"@[0] == 'c');
    assert("description"@[0] == 'd');
    assert("credentials"@[0] == 'c');
    assert("maintainers"@[0] == 'm');
    assert("custom"@[0] == 'c');
    assert("images"@[0] == 'i');
    assert("definitions"@[2] == 'f');
    assert("description"@[2] == 's');
    assert("definitions"@[0] == 'd');
    assert("maintainers"@[0] == 'm');
    assert("description"@[0] == 'd');
    assert("maintainers"@[0] == 'm');
    assert("license"@[0] == 'l');
    assert("outputs"@[0] == 'o');
    assert("license"@[0] == 'l');
    assert("version"@[0] == 'v');
    assert("outputs"@[0] == 'o');
    assert("version"@[0] == 'v');
    assert("actions"@ != "version"@);
    assert("credentials"@ != "version"@);
    assert("custom"@ != "version"@);
    assert("definitions"@ != "version"@);
    assert("description"@ != "version"@);
    assert("images"@ != "version"@);
    assert("invocationImages"@ != "version"@);
    assert("keywords"@ != "version"@);
    assert("license"@ != "version"@);
    assert("maintainers"@ != "version"@);
    assert("name"@ != "version"@);
    assert("outputs"@ != "version"@);
    assert("parameters"@ != "version"@);
    assert("schemaVersion"@ != "version"@);
    lemma_obj_get_opt_fld("actions"@, action_map_opt(b.actions), "version"@);
    lemma_obj_get_opt_fld("credentials"@, credential_map_opt(b.credentials), "version"@);
    lemma_obj_get_opt_fld("custom"@, obj_opt(b.custom), "version"@);
    lemma_obj_get_opt_fld("definitions"@, obj_opt(b.definitions), "version"@);
    lemma_obj_get_opt_fld("description"@, str_opt(b.description), "version"@);
    lemma_obj_get_opt_fld("images"@, image_map_opt(b.images), "version"@);
    lemma_obj_get_fld("invocationImages"@, JsonV::Arr(spec_invocation_images_json(b.invocation_images)), "version"@);
    lemma_obj_get_opt_fld("keywords"@, str_arr_opt(b.keywords), "version"@);
    lemma_obj_get_opt_fld("license"@, str_opt(b.license), "version"@);
    lemma_obj_get_opt_fld("maintainers"@, maintainers_opt(b.maintainers), "version"@);
    lemma_obj_get_fld("name"@, JsonV::Str(b.name), "version"@);
    lemma_obj_get_opt_fld("outputs"@, output_map_opt(b.outputs), "version"@);
    lemma_obj_get_opt_fld("parameters"@, parameter_map_opt(b.parameters), "version"@);
    lemma_obj_get_fld("schemaVersion"@, JsonV::Str(b.schema_version), "version"@);
    lemma_obj_get_fld("version"@, JsonV::Str(spec_version_chars(b.version)), "version"@);
    lemma_obj_get_concat(s1, s2, "version"@);
    lemma_obj_get_concat(s1 + s2, s3, "version"@);
    lemma_obj_get_concat(s1 + s2 + s3, s4, "version"@);
    lemma_obj_get_concat(s1 + s2 + s3 + s4, s5, "version"@);
    lemma_obj_get_concat(s1 + s2 + s3 + s4 + s5, s6, "version"@);
    lemma_obj_get_concat(s1 + s2 + s3 + s4 + s5 + s6, s7, "version"@);
    lemma_obj_get_concat(s1 + s2 + s3 + s4 + s5 + s6 + s7, s8, "version"@);
    lemma_obj_get_concat(s1 + s2 + s3 + s4 + s5 + s6 + s7 + s8, s9, "version"@);
    lemma_obj_get_concat(s1 + s2 + s3 + s4 + s5 + s6 + s7 + s8 + s9, s10, "version"@);
    lemma_obj_get_concat(s1 + s2 + s3 + s4 + s5 + s6 + s7 + s8 + s9 + s10, s11, "version"@);
    lemma_obj_get_concat(s1 + s2 + s3 + s4 + s5 + s6 + s7 + s8 + s9 + s10 + s11, s12, "version"@);
    lemma_obj_get_concat(s1 + s2 + s3 + s4 + s5 + s6 + s7 + s8 + s9 + s10 + s11 + s12, s13, "version"@);
    lemma_obj_get_concat(s1 + s2 + s3 + s4 + s5 + s6 + s7 + s8 + s9 + s10 + s11 + s12 + s13, s14, "version"@);
    lemma_obj_get_concat(s1 + s2 + s3 + s4 + s5 + s6 + s7 + s8 + s9 + s10 + s11 + s12 + s13 + s14, s15, "version"@);
    assert(o == spec_bundle_fields(b));
}

proof fn lemma_action_map_roundtrip(m: Seq<(Seq<char>, ActionV)>, k: Seq<char>)
    ensures
        spec_action_map(spec_action_map_json(m), k) == Ok::<Seq<(Seq<char>, ActionV)>, FormatErrorV>(m),
{
    let g = |x: ActionV| spec_action_json(x);
    let f = |v: JsonV| spec_action_from(v, k);
    assert forall|q: int| 0 <= q < m.len() implies f(g((#[trigger] m[q]).1)) == Ok::<
        ActionV,
        FormatErrorV,
    >(m[q].1) by {
        lemma_action_roundtrip(m[q].1, k);
    }
    assert(spec_action_map_json(m) =~= Seq::new(m.len(), |q: int| (m[q].0, g(m[q].1))));
    lemma_entity_map_roundtrip(m, g, f, 0);
    assert(m.subrange(0, m.len() as int) =~= m);
    assert(f =~= (|v: JsonV| spec_action_from(v, k)));
}

proof fn lemma_credential_map_roundtrip(m: Seq<(Seq<char>, CredentialV)>, k: Seq<char>)
    ensures
        spec_credential_map(spec_credential_map_json(m), k) == Ok::<
            Seq<(Seq<char>, CredentialV)>,
            FormatErrorV,
        >(m),
{
    let g = |x: CredentialV| spec_credential_json(x);
    let f = |v: JsonV| spec_credential_from(v, k);
    assert forall|q: int| 0 <= q < m.len() implies f(g((#[trigger] m[q]).1)) == Ok::<
        CredentialV,
        FormatErrorV,
    >(m[q].1) by {
        lemma_credential_roundtrip(m[q].1, k);
    }
    assert(spec_credential_map_json(m) =~= Seq::new(m.len(), |q: int| (m[q].0, g(m[q].1))));
    lemma_entity_map_roundtrip(m, g, f, 0);
    assert(m.subrange(0, m.len() as int) =~= m);
    assert(f =~= (|v: JsonV| spec_credential_from(v, k)));
}

proof fn lemma_image_map_roundtrip(m: Seq<(Seq<char>, ImageV)>, k: Seq<char>)
    requires
        forall|q: int| 0 <= q < m.len() ==> image_wf((#[trigger] m[q]).1),
    ensures
        spec_image_map(spec_image_map_json(m), k) == Ok::<Seq<(Seq<char>, ImageV)>, FormatErrorV>(
            m,
        ),
{
    let g = |x: ImageV| spec_image_json(x);
    let f = |v: JsonV| spec_image_from(v, k);
    assert forall|q: int| 0 <= q < m.len() implies f(g((#[trigger] m[q]).1)) == Ok::<
        ImageV,
        FormatErrorV,
    >(m[q].1) by {
        lemma_image_roundtrip(m[q].1, k);
    }
    assert(spec_image_map_json(m) =~= Seq::new(m.len(), |q: int| (m[q].0, g(m[q].1))));
    lemma_entity_map_roundtrip(m, g, f, 0);
    assert(m.subrange(0, m.len() as int) =~= m);
    assert(f =~= (|v: JsonV| spec_image_from(v, k)));
}

proof fn lemma_output_map_roundtrip(m: Seq<(Seq<char>, OutputV)>, k: Seq<char>)
    ensures
        spec_output_map(spec_output_map_json(m), k) == Ok::<Seq<(Seq<char>, OutputV)>, FormatErrorV>(
            m,
        ),
{
    let g = |x: OutputV| spec_output_json(x);
    let f = |v: JsonV| spec_output_from(v, k);
    assert forall|q: int| 0 <= q < m.len() implies f(g((#[trigger] m[q]).1)) == Ok::<
        OutputV,
        FormatErrorV,
    >(m[q].1) by {
        lemma_output_roundtrip(m[q].1, k);
    }
    assert(spec_output_map_json(m) =~= Seq::new(m.len(), |q: int| (m[q].0, g(m[q].1))));
    lemma_entity_map_roundtrip(m, g, f, 0);
    assert(m.subrange(0, m.len() as int) =~= m);
    assert(f =~= (|v: JsonV| spec_output_from(v, k)));
}

proof fn lemma_parameter_map_roundtrip(m: Seq<(Seq<char>, ParameterV)>, k: Seq<char>)
    ensures
        spec_parameter_map(spec_parameter_map_json(m), k) == Ok::<
            Seq<(Seq<char>, ParameterV)>,
            FormatErrorV,
        >(m),
{
    let g = |x: ParameterV| spec_parameter_json(x);
    let f = |v: JsonV| spec_parameter_from(v, k);
    assert forall|q: int| 0 <= q < m.len() implies f(g((#[trigger] m[q]).1)) == Ok::<
        ParameterV,
        FormatErrorV,
    >(m[q].1) by {
        lemma_parameter_roundtrip(m[q].1, k);
    }
    assert(spec_parameter_map_json(m) =~= Seq::new(m.len(), |q: int| (m[q].0, g(m[q].1))));
    lemma_entity_map_roundtrip(m, g, f, 0);
    assert(m.subrange(0, m.len() as int) =~= m);
    assert(f =~= (|v: JsonV| spec_parameter_from(v, k)));
}

proof fn lemma_maintainers_roundtrip(ms: Seq<MaintainerV>, k: Seq<char>)
    ensures
        spec_maintainer_list(spec_maintainers_json(ms), k) == Ok::<Seq<MaintainerV>, FormatErrorV>(
            ms,
        ),
{
    let g = |x: MaintainerV| spec_maintainer_json(x);
    let f = |v: JsonV| spec_maintainer_from(v, k);
    assert forall|q: int| 0 <= q < ms.len() implies f(g(#[trigger] ms[q])) == Ok::<
        MaintainerV,
        FormatErrorV,
    >(ms[q]) by {
        lemma_maintainer_roundtrip(ms[q], k);
    }
    assert(spec_maintainers_json(ms) =~= Seq::new(ms.len(), |q: int| g(ms[q])));
    lemma_entity_list_roundtrip(ms, g, f, 0);
    assert(ms.subrange(0, ms.len() as int) =~= ms);
    assert(f =~= (|v: JsonV| spec_maintainer_from(v, k)));
}

proof fn lemma_invocation_images_roundtrip(imgs: Seq<InvocationImageV>)
    requires
        forall|q: int| 0 <= q < imgs.len() ==> invocation_image_wf(#[trigger] imgs[q]),
    ensures
        spec_invocation_images(spec_invocation_images_json(imgs)) == Ok::<
            Seq<InvocationImageV>,
            FormatErrorV,
        >(imgs),
{
    let g = |x: InvocationImageV| spec_invocation_image_json(x);
    let f = |v: JsonV| spec_invocation_image_from(v, "invocationImages"@);
    assert forall|q: int| 0 <= q < imgs.len() implies f(g(#[trigger] imgs[q])) == Ok::<
        InvocationImageV,
        FormatErrorV,
    >(imgs[q]) by {
        lemma_invocation_image_roundtrip(imgs[q], "invocationImages"@);
    }
    assert(spec_invocation_images_json(imgs) =~= Seq::new(imgs.len(), |q: int| g(imgs[q])));
    lemma_entity_list_roundtrip(imgs, g, f, 0);
    assert(imgs.subrange(0, imgs.len() as int) =~= imgs);
    assert(f =~= (|v: JsonV| spec_invocation_image_from(v, "invocationImages"@)));
}

/// ROUND TRIP: reading back the written form of any well-formed bundle whose
/// version survives the version collaborator's round trip yields the bundle
/// itself, equal in every field, with absent and empty collections kept
/// apart.
#[verifier::rlimit(100)]
pub proof fn lemma_bundle_roundtrip(b: BundleV)
    requires
        bundle_wf(b),
        version_roundtrip_ok(b.version),
    ensures
        spec_bundle_from(spec_bundle_json(b)) == Ok::<BundleV, FormatErrorV>(b),
{
    let o = spec_bundle_fields(b);
    lemma_bundle_get_name(b);
    assert(spec_req_str(o, "name"@) == Ok::<Seq<char>, FormatErrorV>(b.name));
    lemma_bundle_get_version(b);
    assert(spec_version_field(o) == Ok::<VersionV, FormatErrorV>(b.version));
    lemma_bundle_get_schema_version(b);
    assert(spec_req_str(o, "schemaVersion"@) == Ok::<Seq<char>, FormatErrorV>(b.schema_version));
    lemma_bundle_get_invocation_images(b);
    assert(spec_invocation_images(spec_invocation_images_json(b.invocation_images)) == Ok::<
        Seq<InvocationImageV>,
        FormatErrorV,
    >(b.invocation_images)) by {
        lemma_invocation_images_roundtrip(b.invocation_images);
    }
    lemma_bundle_get_actions(b);
    assert(spec_opt_action_map(o, "actions"@) == Ok::<
        Option<Seq<(Seq<char>, ActionV)>>,
        FormatErrorV,
    >(b.actions)) by {
        match b.actions {
            Some(m) => {
                lemma_action_map_roundtrip(m, "actions"@);
            },
            None => {},
        }
    }
    lemma_bundle_get_credentials(b);
    assert(spec_opt_credential_map(o, "credentials"@) == Ok::<
        Option<Seq<(Seq<char>, CredentialV)>>,
        FormatErrorV,
    >(b.credentials)) by {
        match b.credentials {
            Some(m) => {
                lemma_credential_map_roundtrip(m, "credentials"@);
            },
            None => {},
        }
    }
    lemma_bundle_get_custom(b);
    assert(spec_opt_obj(o, "custom"@) == Ok::<Option<Seq<(Seq<char>, JsonV)>>, FormatErrorV>(
        b.custom,
    ));
    lemma_bundle_get_definitions(b);
    assert(spec_opt_obj(o, "definitions"@) == Ok::<Option<Seq<(Seq<char>, JsonV)>>, FormatErrorV>(
        b.definitions,
    ));
    lemma_bundle_get_description(b);
    assert(spec_opt_str(o, "description"@) == Ok::<Option<Seq<char>>, FormatErrorV>(b.description));
    lemma_bundle_get_images(b);
    assert(spec_opt_image_map(o, "images"@) == Ok::<
        Option<Seq<(Seq<char>, ImageV)>>,
        FormatErrorV,
    >(b.images)) by {
        match b.images {
            Some(m) => {
                lemma_image_map_roundtrip(m, "images"@);
            },
            None => {},
        }
    }
    lemma_bundle_get_keywords(b);
    assert(spec_opt_str_list(o, "keywords"@) == Ok::<Option<Seq<Seq<char>>>, FormatErrorV>(
        b.keywords,
    )) by {
        match b.keywords {
            Some(ss) => {
                lemma_str_arr_roundtrip(ss, "keywords"@, 0);
                assert(ss.subrange(0, ss.len() as int) =~= ss);
            },
            None => {},
        }
    }
    lemma_bundle_get_license(b);
    assert(spec_opt_str(o, "license"@) == Ok::<Option<Seq<char>>, FormatErrorV>(b.license));
    lemma_bundle_get_maintainers(b);
    assert(spec_opt_maintainers(o, "maintainers"@) == Ok::<Option<Seq<MaintainerV>>, FormatErrorV>(
        b.maintainers,
    )) by {
        match b.maintainers {
            Some(ms) => {
                lemma_maintainers_roundtrip(ms, "maintainers"@);
            },
            None => {},
        }
    }
    lemma_bundle_get_outputs(b);
    assert(spec_opt_output_map(o, "outputs"@) == Ok::<
        Option<Seq<(Seq<char>, OutputV)>>,
        FormatErrorV,
    >(b.outputs)) by {
        match b.outputs {
            Some(m) => {
                lemma_output_map_roundtrip(m, "outputs"@);
            },
            None => {},
        }
    }
    lemma_bundle_get_parameters(b);
    assert(spec_opt_parameter_map(o, "parameters"@) == Ok::<
        Option<Seq<(Seq<char>, ParameterV)>>,
        FormatErrorV,
    >(b.parameters)) by {
        match b.parameters {
            Some(m) => {
                lemma_parameter_map_roundtrip(m, "parameters"@);
            },
            None => {},
        }
    }
    assert(spec_bundle_from(spec_bundle_json(b))->Ok_0 =~= b);
}

/// ROUND TRIP, at the wire: text written for a well-formed bundle reads back
/// as that bundle.
pub proof fn lemma_bundle_text_roundtrip(b: BundleV, s: Seq<char>)
    requires
        bundle_wf(b),
        version_roundtrip_ok(b.version),
        crate::wire::spec_parse_json(s) == Some(spec_bundle_json(b)),
    ensures
        spec_parse_bundle(s) == Ok::<BundleV, FormatErrorV>(b),
{
    lemma_bundle_roundtrip(b);
}

/// DEFAULTING: a flag absent from the wire form is read as unset — `false`
/// for an action's `modifies` and `stateless`, absence for `required` — and
/// an explicit value is kept as given.
pub proof fn lemma_flag_defaulting(o: Seq<(Seq<char>, JsonV)>, k: Seq<char>)
    ensures
        spec_action_from(JsonV::Obj(o), k) matches Ok(a) ==> a.modifies == (obj_get(o, "modifies"@)
            == Some(JsonV::Bool(true))) && a.stateless == (obj_get(o, "stateless"@) == Some(
            JsonV::Bool(true),
        )),
        spec_parameter_from(JsonV::Obj(o), k) matches Ok(p) ==> p.required == spec_opt_bool(
            o,
            "required"@,
        )->Ok_0,
        spec_credential_from(JsonV::Obj(o), k) matches Ok(c) ==> c.required == spec_opt_bool(
            o,
            "required"@,
        )->Ok_0,
{
}

/// PASSTHROUGH: the opaque `custom` collection is read exactly as it stands
/// in the document, and written back unchanged.
pub proof fn lemma_custom_passthrough(v: JsonV, b: BundleV)
    requires
        spec_bundle_from(v) == Ok::<BundleV, FormatErrorV>(b),
    ensures
        b.custom == spec_opt_obj(v->Obj_0, "custom"@)->Ok_0,
        obj_get(spec_bundle_json(b)->Obj_0, "custom"@) == obj_opt(b.custom),
{
    lemma_bundle_get_custom(b);
}

} // verus!
