//! Writing a descriptor into a JSON tree.
//!
//! Fields stand in canonical (alphabetical wire-key) order; an absent
//! optional field is omitted.  The tree a well-formed bundle renders to is
//! itself well-formed, so the wire writer can always take it.

use vstd::prelude::*;
use crate::cnab::{bundle_wf, image_wf, invocation_image_wf, json_map_wf, map_keys_sorted,
    Action, ActionV, Bundle, BundleV, Credential, CredentialV,
    Destination, DestinationV, Image, ImageV, InvocationImage, InvocationImageV, Maintainer,
    MaintainerV, Output, OutputV, Parameter, ParameterV, Platform, PlatformV};
use crate::json::{jdepth, jdepth_obj, jview, jview_arr, jview_obj, jwf, jwf_arr, jwf_obj,
    keys_sorted, str_lt, wf_num, Json, JsonV, lemma_jdepth_arr_bound, lemma_jdepth_obj_bound,
    lemma_jwf_arr_all, lemma_jwf_obj_all, lemma_str_lt_trans};
use crate::num::{spec_i64_dec, lemma_i64_dec_canonical, lemma_i64_dec_is_num_lexeme};
use crate::version::spec_version_chars;

verus! {

broadcast use vstd::std_specs::vec::group_vec_axioms, vstd::seq::group_seq_axioms;

// ---------------------------------------------------------------------------
// Field segments
// ---------------------------------------------------------------------------

/// A field that is always written.
pub open spec fn fld(k: Seq<char>, v: JsonV) -> Seq<(Seq<char>, JsonV)> {
    seq![(k, v)]
}

/// A field that is written only where a value is present.
pub open spec fn opt_fld(k: Seq<char>, ov: Option<JsonV>) -> Seq<(Seq<char>, JsonV)> {
    match ov {
        Some(v) => seq![(k, v)],
        None => Seq::empty(),
    }
}

pub open spec fn str_opt(os: Option<Seq<char>>) -> Option<JsonV> {
    match os {
        Some(s) => Some(JsonV::Str(s)),
        None => None,
    }
}

pub open spec fn bool_opt(ob: Option<bool>) -> Option<JsonV> {
    match ob {
        Some(b) => Some(JsonV::Bool(b)),
        None => None,
    }
}

pub open spec fn num_opt(on: Option<int>) -> Option<JsonV> {
    match on {
        Some(n) => Some(JsonV::Num(spec_i64_dec(n))),
        None => None,
    }
}

pub open spec fn obj_opt(om: Option<Seq<(Seq<char>, JsonV)>>) -> Option<JsonV> {
    match om {
        Some(m) => Some(JsonV::Obj(m)),
        None => None,
    }
}

pub open spec fn arr_opt(oa: Option<Seq<JsonV>>) -> Option<JsonV> {
    match oa {
        Some(a) => Some(JsonV::Arr(a)),
        None => None,
    }
}

/// Strings as JSON strings, in order.
pub open spec fn spec_str_arr(ss: Seq<Seq<char>>) -> Seq<JsonV> {
    Seq::new(ss.len(), |i: int| JsonV::Str(ss[i]))
}

/// A string mapping as JSON object entries, keys kept in order.
pub open spec fn spec_str_map_json(m: Seq<(Seq<char>, Seq<char>)>) -> Seq<(Seq<char>, JsonV)> {
    Seq::new(m.len(), |i: int| (m[i].0, JsonV::Str(m[i].1)))
}

pub open spec fn labels_opt(om: Option<Seq<(Seq<char>, Seq<char>)>>) -> Option<JsonV> {
    match om {
        Some(m) => Some(JsonV::Obj(spec_str_map_json(m))),
        None => None,
    }
}

// ---------------------------------------------------------------------------
// Entities
// ---------------------------------------------------------------------------

pub open spec fn spec_destination_json(d: DestinationV) -> JsonV {
    JsonV::Obj(opt_fld("env"@, str_opt(d.env)) + opt_fld("path"@, str_opt(d.path)))
}

pub open spec fn spec_platform_json(p: PlatformV) -> JsonV {
    JsonV::Obj(opt_fld("arch"@, str_opt(p.arch)) + opt_fld("os"@, str_opt(p.os)))
}

pub open spec fn platform_opt(op: Option<PlatformV>) -> Option<JsonV> {
    match op {
        Some(p) => Some(spec_platform_json(p)),
        None => None,
    }
}

pub open spec fn spec_action_json(a: ActionV) -> JsonV {
    JsonV::Obj(
        opt_fld("description"@, str_opt(a.description)) + fld("modifies"@, JsonV::Bool(a.modifies))
            + fld("stateless"@, JsonV::Bool(a.stateless)),
    )
}

pub open spec fn spec_credential_json(c: CredentialV) -> JsonV {
    JsonV::Obj(
        opt_fld("description"@, str_opt(c.description)) + opt_fld("env"@, str_opt(c.env)) + opt_fld(
            "path"@,
            str_opt(c.path),
        ) + opt_fld("required"@, bool_opt(c.required)),
    )
}

pub open spec fn spec_maintainer_json(m: MaintainerV) -> JsonV {
    JsonV::Obj(
        opt_fld("email"@, str_opt(m.email)) + fld("name"@, JsonV::Str(m.name)) + opt_fld(
            "url"@,
            str_opt(m.url),
        ),
    )
}

pub open spec fn spec_image_json(v: ImageV) -> JsonV {
    JsonV::Obj(
        opt_fld("contentDigest"@, str_opt(v.content_digest)) + opt_fld(
            "description"@,
            str_opt(v.description),
        ) + fld("image"@, JsonV::Str(v.image)) + opt_fld("imageType"@, str_opt(v.image_type))
            + opt_fld("labels"@, labels_opt(v.labels)) + opt_fld(
            "mediaType"@,
            str_opt(v.media_type),
        ) + opt_fld("platform"@, platform_opt(v.platform)) + opt_fld("size"@, num_opt(v.size)),
    )
}

pub open spec fn spec_invocation_image_json(v: InvocationImageV) -> JsonV {
    JsonV::Obj(
        opt_fld("contentDigest"@, str_opt(v.content_digest)) + fld("image"@, JsonV::Str(v.image))
            + opt_fld("imageType"@, str_opt(v.image_type)) + opt_fld(
            "labels"@,
            labels_opt(v.labels),
        ) + opt_fld("mediaType"@, str_opt(v.media_type)) + opt_fld("size"@, num_opt(v.size)),
    )
}

pub open spec fn str_arr_opt(oss: Option<Seq<Seq<char>>>) -> Option<JsonV> {
    match oss {
        Some(ss) => Some(JsonV::Arr(spec_str_arr(ss))),
        None => None,
    }
}

pub open spec fn spec_parameter_json(p: ParameterV) -> JsonV {
    JsonV::Obj(
        opt_fld("applyTo"@, str_arr_opt(p.apply_to)) + opt_fld(
            "definition"@,
            str_opt(p.definition),
        ) + opt_fld("description"@, str_opt(p.description)) + fld(
            "destination"@,
            spec_destination_json(p.destination),
        ) + opt_fld("required"@, bool_opt(p.required)),
    )
}

pub open spec fn spec_output_json(o: OutputV) -> JsonV {
    JsonV::Obj(
        opt_fld("applyTo"@, str_arr_opt(o.apply_to)) + fld("definition"@, JsonV::Str(o.definition))
            + opt_fld("description"@, str_opt(o.description)) + opt_fld("path"@, str_opt(o.path)),
    )
}

// ---------------------------------------------------------------------------
// Collections
// ---------------------------------------------------------------------------

pub open spec fn spec_action_map_json(m: Seq<(Seq<char>, ActionV)>) -> Seq<(Seq<char>, JsonV)> {
    Seq::new(m.len(), |i: int| (m[i].0, spec_action_json(m[i].1)))
}

pub open spec fn spec_credential_map_json(m: Seq<(Seq<char>, CredentialV)>) -> Seq<
    (Seq<char>, JsonV),
> {
    Seq::new(m.len(), |i: int| (m[i].0, spec_credential_json(m[i].1)))
}

pub open spec fn spec_image_map_json(m: Seq<(Seq<char>, ImageV)>) -> Seq<(Seq<char>, JsonV)> {
    Seq::new(m.len(), |i: int| (m[i].0, spec_image_json(m[i].1)))
}

pub open spec fn spec_output_map_json(m: Seq<(Seq<char>, OutputV)>) -> Seq<(Seq<char>, JsonV)> {
    Seq::new(m.len(), |i: int| (m[i].0, spec_output_json(m[i].1)))
}

pub open spec fn spec_parameter_map_json(m: Seq<(Seq<char>, ParameterV)>) -> Seq<
    (Seq<char>, JsonV),
> {
    Seq::new(m.len(), |i: int| (m[i].0, spec_parameter_json(m[i].1)))
}

pub open spec fn spec_maintainers_json(ms: Seq<MaintainerV>) -> Seq<JsonV> {
    Seq::new(ms.len(), |i: int| spec_maintainer_json(ms[i]))
}

pub open spec fn spec_invocation_images_json(imgs: Seq<InvocationImageV>) -> Seq<JsonV> {
    Seq::new(imgs.len(), |i: int| spec_invocation_image_json(imgs[i]))
}

pub open spec fn action_map_opt(om: Option<Seq<(Seq<char>, ActionV)>>) -> Option<JsonV> {
    match om {
        Some(m) => Some(JsonV::Obj(spec_action_map_json(m))),
        None => None,
    }
}

pub open spec fn credential_map_opt(om: Option<Seq<(Seq<char>, CredentialV)>>) -> Option<JsonV> {
    match om {
        Some(m) => Some(JsonV::Obj(spec_credential_map_json(m))),
        None => None,
    }
}

pub open spec fn image_map_opt(om: Option<Seq<(Seq<char>, ImageV)>>) -> Option<JsonV> {
    match om {
        Some(m) => Some(JsonV::Obj(spec_image_map_json(m))),
        None => None,
    }
}

pub open spec fn output_map_opt(om: Option<Seq<(Seq<char>, OutputV)>>) -> Option<JsonV> {
    match om {
        Some(m) => Some(JsonV::Obj(spec_output_map_json(m))),
        None => None,
    }
}

pub open spec fn parameter_map_opt(om: Option<Seq<(Seq<char>, ParameterV)>>) -> Option<JsonV> {
    match om {
        Some(m) => Some(JsonV::Obj(spec_parameter_map_json(m))),
        None => None,
    }
}

pub open spec fn maintainers_opt(oms: Option<Seq<MaintainerV>>) -> Option<JsonV> {
    match oms {
        Some(ms) => Some(JsonV::Arr(spec_maintainers_json(ms))),
        None => None,
    }
}

// ---------------------------------------------------------------------------
// The bundle
// ---------------------------------------------------------------------------

/// The entries of the written bundle object, in canonical key order.
pub open spec fn spec_bundle_fields(b: BundleV) -> Seq<(Seq<char>, JsonV)> {
    opt_fld("actions"@, action_map_opt(b.actions)) + opt_fld(
        "credentials"@,
        credential_map_opt(b.credentials),
    ) + opt_fld("custom"@, obj_opt(b.custom)) + opt_fld("definitions"@, obj_opt(b.definitions))
        + opt_fld("description"@, str_opt(b.description)) + opt_fld(
        "images"@,
        image_map_opt(b.images),
    ) + fld("invocationImages"@, JsonV::Arr(spec_invocation_images_json(b.invocation_images)))
        + opt_fld("keywords"@, str_arr_opt(b.keywords)) + opt_fld("license"@, str_opt(b.license))
        + opt_fld("maintainers"@, maintainers_opt(b.maintainers)) + fld(
        "name"@,
        JsonV::Str(b.name),
    ) + opt_fld("outputs"@, output_map_opt(b.outputs)) + opt_fld(
        "parameters"@,
        parameter_map_opt(b.parameters),
    ) + fld("schemaVersion"@, JsonV::Str(b.schema_version)) + fld(
        "version"@,
        JsonV::Str(spec_version_chars(b.version)),
    )
}

/// The JSON tree a bundle is written as: the canonical wire form, fields in
/// alphabetical key order, absent optional fields omitted.
pub open spec fn spec_bundle_json(b: BundleV) -> JsonV {
    JsonV::Obj(spec_bundle_fields(b))
}

// ---------------------------------------------------------------------------
// Well-formedness of what is written
// ---------------------------------------------------------------------------

/// Every key of `o` stands strictly below `k`.
pub open spec fn keys_below(o: Seq<(Seq<char>, JsonV)>, k: Seq<char>) -> bool {
    forall|i: int| 0 <= i < o.len() ==> str_lt((#[trigger] o[i]).0, k)
}

/// Every value of `o` is well-formed and nests at most `d` deep.
pub open spec fn fields_ok(o: Seq<(Seq<char>, JsonV)>, d: int) -> bool {
    forall|i: int| 0 <= i < o.len() ==> jwf((#[trigger] o[i]).1) && jdepth(o[i].1) <= d
}

/// Appending a field (or nothing) keyed above all earlier fields keeps the
/// keys sorted.
proof fn lemma_seg_sorted_snoc(
    acc: Seq<(Seq<char>, JsonV)>,
    seg: Seq<(Seq<char>, JsonV)>,
    k: Seq<char>,
)
    requires
        seg.len() <= 1,
        forall|i: int| 0 <= i < seg.len() ==> (#[trigger] seg[i]).0 == k,
        keys_sorted(acc),
        keys_below(acc, k),
    ensures
        keys_sorted(acc + seg),
        forall|k2: Seq<char>| #[trigger] str_lt(k, k2) ==> keys_below(acc + seg, k2),
{
    let w = acc + seg;
    assert forall|i: int, j: int| 0 <= i < j < w.len() implies str_lt(
        (#[trigger] w[i]).0,
        (#[trigger] w[j]).0,
    ) by {
        if j < acc.len() {
            assert(w[i] == acc[i]);
            assert(w[j] == acc[j]);
        } else {
            assert(w[i] == acc[i]);
            assert(w[j] == seg[j - acc.len()]);
        }
    }
    assert forall|k2: Seq<char>| #[trigger] str_lt(k, k2) implies keys_below(w, k2) by {
        assert forall|i: int| 0 <= i < w.len() implies str_lt((#[trigger] w[i]).0, k2) by {
            if i < acc.len() {
                assert(w[i] == acc[i]);
                lemma_str_lt_trans(w[i].0, k, k2);
            } else {
                assert(w[i] == seg[i - acc.len()]);
            }
        }
    }
}

proof fn lemma_fields_ok_concat(a: Seq<(Seq<char>, JsonV)>, b: Seq<(Seq<char>, JsonV)>, d: int)
    requires
        fields_ok(a, d),
        fields_ok(b, d),
    ensures
        fields_ok(a + b, d),
{
    let w = a + b;
    assert forall|i: int| 0 <= i < w.len() implies jwf((#[trigger] w[i]).1) && jdepth(w[i].1)
        <= d by {
        if i < a.len() {
            assert(w[i] == a[i]);
        } else {
            assert(w[i] == b[i - a.len()]);
        }
    }
}

/// An object over sorted fields with well-formed, shallow values is itself
/// well-formed and one level deeper than its values.
proof fn lemma_obj_from_fields(fields: Seq<(Seq<char>, JsonV)>, d: int)
    requires
        keys_sorted(fields),
        fields_ok(fields, d),
        d >= 0,
    ensures
        jwf(JsonV::Obj(fields)),
        jdepth(JsonV::Obj(fields)) <= 1 + d,
{
    lemma_jwf_obj_all(fields);
    lemma_jdepth_obj_bound(fields, d);
}

proof fn lemma_destination_json_ok(d: DestinationV)
    ensures
        jwf(spec_destination_json(d)),
        jdepth(spec_destination_json(d)) <= 1,
{
    let s1 = opt_fld("env"@, str_opt(d.env));
    let s2 = opt_fld("path"@, str_opt(d.path));
    assert(str_lt("env"@, "path"@)) by {
        reveal_strlit("env");
        reveal_strlit("path");
        reveal_with_fuel(str_lt, 8);
    }
    assert(keys_below(s1, "path"@));
    lemma_seg_sorted_snoc(s1, s2, "path"@);
    assert(fields_ok(s1, 0));
    assert(fields_ok(s2, 0));
    lemma_fields_ok_concat(s1, s2, 0);
    lemma_obj_from_fields(s1 + s2, 0);
}

proof fn lemma_platform_json_ok(p: PlatformV)
    ensures
        jwf(spec_platform_json(p)),
        jdepth(spec_platform_json(p)) <= 1,
{
    let s1 = opt_fld("arch"@, str_opt(p.arch));
    let s2 = opt_fld("os"@, str_opt(p.os));
    assert(str_lt("arch"@, "os"@)) by {
        reveal_strlit("arch");
        reveal_strlit("os");
        reveal_with_fuel(str_lt, 8);
    }
    assert(keys_below(s1, "os"@));
    lemma_seg_sorted_snoc(s1, s2, "os"@);
    assert(fields_ok(s1, 0));
    assert(fields_ok(s2, 0));
    lemma_fields_ok_concat(s1, s2, 0);
    lemma_obj_from_fields(s1 + s2, 0);
}

proof fn lemma_action_json_ok(a: ActionV)
    ensures
        jwf(spec_action_json(a)),
        jdepth(spec_action_json(a)) <= 1,
{
    let s1 = opt_fld("description"@, str_opt(a.description));
    let s2 = fld("modifies"@, JsonV::Bool(a.modifies));
    let s3 = fld("stateless"@, JsonV::Bool(a.stateless));
    assert(str_lt("description"@, "modifies"@) && str_lt("modifies"@, "stateless"@)) by {
        reveal_strlit("description");
        reveal_strlit("modifies");
        reveal_strlit("stateless");
        reveal_with_fuel(str_lt, 8);
    }
    assert(keys_below(s1, "modifies"@));
    lemma_seg_sorted_snoc(s1, s2, "modifies"@);
    lemma_seg_sorted_snoc(s1 + s2, s3, "stateless"@);
    assert(fields_ok(s1, 0));
    assert(fields_ok(s2, 0));
    assert(fields_ok(s3, 0));
    lemma_fields_ok_concat(s1, s2, 0);
    lemma_fields_ok_concat(s1 + s2, s3, 0);
    lemma_obj_from_fields(s1 + s2 + s3, 0);
}

proof fn lemma_credential_json_ok(c: CredentialV)
    ensures
        jwf(spec_credential_json(c)),
        jdepth(spec_credential_json(c)) <= 1,
{
    let s1 = opt_fld("description"@, str_opt(c.description));
    let s2 = opt_fld("env"@, str_opt(c.env));
    let s3 = opt_fld("path"@, str_opt(c.path));
    let s4 = opt_fld("required"@, bool_opt(c.required));
    assert(str_lt("description"@, "env"@) && str_lt("env"@, "path"@) && str_lt(
        "path"@,
        "required"@,
    )) by {
        reveal_strlit("description");
        reveal_strlit("env");
        reveal_strlit("path");
        reveal_strlit("required");
        reveal_with_fuel(str_lt, 8);
    }
    assert(keys_below(s1, "env"@));
    lemma_seg_sorted_snoc(s1, s2, "env"@);
    lemma_seg_sorted_snoc(s1 + s2, s3, "path"@);
    lemma_seg_sorted_snoc(s1 + s2 + s3, s4, "required"@);
    assert(fields_ok(s1, 0));
    assert(fields_ok(s2, 0));
    assert(fields_ok(s3, 0));
    assert(fields_ok(s4, 0));
    lemma_fields_ok_concat(s1, s2, 0);
    lemma_fields_ok_concat(s1 + s2, s3, 0);
    lemma_fields_ok_concat(s1 + s2 + s3, s4, 0);
    lemma_obj_from_fields(s1 + s2 + s3 + s4, 0);
}

proof fn lemma_maintainer_json_ok(m: MaintainerV)
    ensures
        jwf(spec_maintainer_json(m)),
        jdepth(spec_maintainer_json(m)) <= 1,
{
    let s1 = opt_fld("email"@, str_opt(m.email));
    let s2 = fld("name"@, JsonV::Str(m.name));
    let s3 = opt_fld("url"@, str_opt(m.url));
    assert(str_lt("email"@, "name"@) && str_lt("name"@, "url"@)) by {
        reveal_strlit("email");
        reveal_strlit("name");
        reveal_strlit("url");
        reveal_with_fuel(str_lt, 8);
    }
    assert(keys_below(s1, "name"@));
    lemma_seg_sorted_snoc(s1, s2, "name"@);
    lemma_seg_sorted_snoc(s1 + s2, s3, "url"@);
    assert(fields_ok(s1, 0));
    assert(fields_ok(s2, 0));
    assert(fields_ok(s3, 0));
    lemma_fields_ok_concat(s1, s2, 0);
    lemma_fields_ok_concat(s1 + s2, s3, 0);
    lemma_obj_from_fields(s1 + s2 + s3, 0);
}

proof fn lemma_str_map_json_ok(m: Seq<(Seq<char>, Seq<char>)>)
    requires
        map_keys_sorted(m),
    ensures
        keys_sorted(spec_str_map_json(m)),
        fields_ok(spec_str_map_json(m), 0),
        jwf(JsonV::Obj(spec_str_map_json(m))),
        jdepth(JsonV::Obj(spec_str_map_json(m))) <= 1,
{
    let r = spec_str_map_json(m);
    assert forall|i: int, j: int| 0 <= i < j < r.len() implies str_lt(
        (#[trigger] r[i]).0,
        (#[trigger] r[j]).0,
    ) by {
        assert(r[i].0 == m[i].0);
        assert(r[j].0 == m[j].0);
    }
    assert(fields_ok(r, 0));
    lemma_obj_from_fields(r, 0);
}

proof fn lemma_str_arr_ok(ss: Seq<Seq<char>>)
    ensures
        jwf(JsonV::Arr(spec_str_arr(ss))),
        jdepth(JsonV::Arr(spec_str_arr(ss))) <= 1,
{
    let r = spec_str_arr(ss);
    assert forall|i: int| 0 <= i < r.len() implies jwf(#[trigger] r[i]) by {}
    lemma_jwf_arr_all(r);
    lemma_jdepth_arr_bound(r, 0);
}

#[verifier::rlimit(100)]
proof fn lemma_image_json_ok(v: ImageV)
    requires
        image_wf(v),
    ensures
        jwf(spec_image_json(v)),
        jdepth(spec_image_json(v)) <= 2,
{
    let s1 = opt_fld("contentDigest"@, str_opt(v.content_digest));
    let s2 = opt_fld("description"@, str_opt(v.description));
    let s3 = fld("image"@, JsonV::Str(v.image));
    let s4 = opt_fld("imageType"@, str_opt(v.image_type));
    let s5 = opt_fld("labels"@, labels_opt(v.labels));
    let s6 = opt_fld("mediaType"@, str_opt(v.media_type));
    let s7 = opt_fld("platform"@, platform_opt(v.platform));
    let s8 = opt_fld("size"@, num_opt(v.size));
    assert(str_lt("contentDigest"@, "description"@) && str_lt("description"@, "image"@) && str_lt(
        "image"@,
        "imageType"@,
    ) && str_lt("imageType"@, "labels"@) && str_lt("labels"@, "mediaType"@) && str_lt(
        "mediaType"@,
        "platform"@,
    ) && str_lt("platform"@, "size"@)) by {
        reveal_strlit("contentDigest");
        reveal_strlit("description");
        reveal_strlit("image");
        reveal_strlit("imageType");
        reveal_strlit("labels");
        reveal_strlit("mediaType");
        reveal_strlit("platform");
        reveal_strlit("size");
        reveal_with_fuel(str_lt, 8);
    }
    assert(keys_below(s1, "description"@));
    lemma_seg_sorted_snoc(s1, s2, "description"@);
    lemma_seg_sorted_snoc(s1 + s2, s3, "image"@);
    lemma_seg_sorted_snoc(s1 + s2 + s3, s4, "imageType"@);
    lemma_seg_sorted_snoc(s1 + s2 + s3 + s4, s5, "labels"@);
    lemma_seg_sorted_snoc(s1 + s2 + s3 + s4 + s5, s6, "mediaType"@);
    lemma_seg_sorted_snoc(s1 + s2 + s3 + s4 + s5 + s6, s7, "platform"@);
    lemma_seg_sorted_snoc(s1 + s2 + s3 + s4 + s5 + s6 + s7, s8, "size"@);
    assert(fields_ok(s1, 1));
    assert(fields_ok(s2, 1));
    assert(fields_ok(s3, 1));
    assert(fields_ok(s4, 1));
    assert(fields_ok(s5, 1)) by {
        match v.labels {
            Some(lm) => {
                lemma_str_map_json_ok(lm);
            },
            None => {},
        }
    }
    assert(fields_ok(s6, 1));
    assert(fields_ok(s7, 1)) by {
        match v.platform {
            Some(p) => {
                lemma_platform_json_ok(p);
            },
            None => {},
        }
    }
    assert(fields_ok(s8, 1)) by {
        match v.size {
            Some(n) => {
                lemma_i64_dec_is_num_lexeme(n);
                lemma_i64_dec_canonical(n);
            },
            None => {},
        }
    }
    lemma_fields_ok_concat(s1, s2, 1);
    lemma_fields_ok_concat(s1 + s2, s3, 1);
    lemma_fields_ok_concat(s1 + s2 + s3, s4, 1);
    lemma_fields_ok_concat(s1 + s2 + s3 + s4, s5, 1);
    lemma_fields_ok_concat(s1 + s2 + s3 + s4 + s5, s6, 1);
    lemma_fields_ok_concat(s1 + s2 + s3 + s4 + s5 + s6, s7, 1);
    lemma_fields_ok_concat(s1 + s2 + s3 + s4 + s5 + s6 + s7, s8, 1);
    lemma_obj_from_fields(s1 + s2 + s3 + s4 + s5 + s6 + s7 + s8, 1);
}

#[verifier::rlimit(100)]
proof fn lemma_invocation_image_json_ok(v: InvocationImageV)
    requires
        invocation_image_wf(v),
    ensures
        jwf(spec_invocation_image_json(v)),
        jdepth(spec_invocation_image_json(v)) <= 2,
{
    let s1 = opt_fld("contentDigest"@, str_opt(v.content_digest));
    let s2 = fld("image"@, JsonV::Str(v.image));
    let s3 = opt_fld("imageType"@, str_opt(v.image_type));
    let s4 = opt_fld("labels"@, labels_opt(v.labels));
    let s5 = opt_fld("mediaType"@, str_opt(v.media_type));
    let s6 = opt_fld("size"@, num_opt(v.size));
    assert(str_lt("contentDigest"@, "image"@) && str_lt("image"@, "imageType"@) && str_lt(
        "imageType"@,
        "labels"@,
    ) && str_lt("labels"@, "mediaType"@) && str_lt("mediaType"@, "size"@)) by {
        reveal_strlit("contentDigest");
        reveal_strlit("image");
        reveal_strlit("imageType");
        reveal_strlit("labels");
        reveal_strlit("mediaType");
        reveal_strlit("size");
        reveal_with_fuel(str_lt, 8);
    }
    assert(keys_below(s1, "image"@));
    lemma_seg_sorted_snoc(s1, s2, "image"@);
    lemma_seg_sorted_snoc(s1 + s2, s3, "imageType"@);
    lemma_seg_sorted_snoc(s1 + s2 + s3, s4, "labels"@);
    lemma_seg_sorted_snoc(s1 + s2 + s3 + s4, s5, "mediaType"@);
    lemma_seg_sorted_snoc(s1 + s2 + s3 + s4 + s5, s6, "size"@);
    assert(fields_ok(s1, 1));
    assert(fields_ok(s2, 1));
    assert(fields_ok(s3, 1));
    assert(fields_ok(s4, 1)) by {
        match v.labels {
            Some(lm) => {
                lemma_str_map_json_ok(lm);
            },
            None => {},
        }
    }
    assert(fields_ok(s5, 1));
    assert(fields_ok(s6, 1)) by {
        match v.size {
            Some(n) => {
                lemma_i64_dec_is_num_lexeme(n);
                lemma_i64_dec_canonical(n);
            },
            None => {},
        }
    }
    lemma_fields_ok_concat(s1, s2, 1);
    lemma_fields_ok_concat(s1 + s2, s3, 1);
    lemma_fields_ok_concat(s1 + s2 + s3, s4, 1);
    lemma_fields_ok_concat(s1 + s2 + s3 + s4, s5, 1);
    lemma_fields_ok_concat(s1 + s2 + s3 + s4 + s5, s6, 1);
    lemma_obj_from_fields(s1 + s2 + s3 + s4 + s5 + s6, 1);
}

proof fn lemma_parameter_json_ok(p: ParameterV)
    ensures
        jwf(spec_parameter_json(p)),
        jdepth(spec_parameter_json(p)) <= 2,
{
    let s1 = opt_fld("applyTo"@, str_arr_opt(p.apply_to));
    let s2 = opt_fld("definition"@, str_opt(p.definition));
    let s3 = opt_fld("description"@, str_opt(p.description));
    let s4 = fld("destination"@, spec_destination_json(p.destination));
    let s5 = opt_fld("required"@, bool_opt(p.required));
    assert(str_lt("applyTo"@, "definition"@) && str_lt("definition"@, "description"@) && str_lt(
        "description"@,
        "destination"@,
    ) && str_lt("destination"@, "required"@)) by {
        reveal_strlit("applyTo");
        reveal_strlit("definition");
        reveal_strlit("description");
        reveal_strlit("destination");
        reveal_strlit("required");
        reveal_with_fuel(str_lt, 8);
    }
    assert(keys_below(s1, "definition"@));
    lemma_seg_sorted_snoc(s1, s2, "definition"@);
    lemma_seg_sorted_snoc(s1 + s2, s3, "description"@);
    lemma_seg_sorted_snoc(s1 + s2 + s3, s4, "destination"@);
    lemma_seg_sorted_snoc(s1 + s2 + s3 + s4, s5, "required"@);
    assert(fields_ok(s1, 1)) by {
        match p.apply_to {
            Some(ss) => {
                lemma_str_arr_ok(ss);
            },
            None => {},
        }
    }
    assert(fields_ok(s2, 1));
    assert(fields_ok(s3, 1));
    assert(fields_ok(s4, 1)) by {
        lemma_destination_json_ok(p.destination);
    }
    assert(fields_ok(s5, 1));
    lemma_fields_ok_concat(s1, s2, 1);
    lemma_fields_ok_concat(s1 + s2, s3, 1);
    lemma_fields_ok_concat(s1 + s2 + s3, s4, 1);
    lemma_fields_ok_concat(s1 + s2 + s3 + s4, s5, 1);
    lemma_obj_from_fields(s1 + s2 + s3 + s4 + s5, 1);
}

proof fn lemma_output_json_ok(o: OutputV)
    ensures
        jwf(spec_output_json(o)),
        jdepth(spec_output_json(o)) <= 2,
{
    let s1 = opt_fld("applyTo"@, str_arr_opt(o.apply_to));
    let s2 = fld("definition"@, JsonV::Str(o.definition));
    let s3 = opt_fld("description"@, str_opt(o.description));
    let s4 = opt_fld("path"@, str_opt(o.path));
    assert(str_lt("applyTo"@, "definition"@) && str_lt("definition"@, "description"@) && str_lt(
        "description"@,
        "path"@,
    )) by {
        reveal_strlit("applyTo");
        reveal_strlit("definition");
        reveal_strlit("description");
        reveal_strlit("path");
        reveal_with_fuel(str_lt, 8);
    }
    assert(keys_below(s1, "definition"@));
    lemma_seg_sorted_snoc(s1, s2, "definition"@);
    lemma_seg_sorted_snoc(s1 + s2, s3, "description"@);
    lemma_seg_sorted_snoc(s1 + s2 + s3, s4, "path"@);
    assert(fields_ok(s1, 1)) by {
        match o.apply_to {
            Some(ss) => {
                lemma_str_arr_ok(ss);
            },
            None => {},
        }
    }
    assert(fields_ok(s2, 1));
    assert(fields_ok(s3, 1));
    assert(fields_ok(s4, 1));
    lemma_fields_ok_concat(s1, s2, 1);
    lemma_fields_ok_concat(s1 + s2, s3, 1);
    lemma_fields_ok_concat(s1 + s2 + s3, s4, 1);
    lemma_obj_from_fields(s1 + s2 + s3 + s4, 1);
}

proof fn lemma_action_map_json_ok(m: Seq<(Seq<char>, ActionV)>)
    requires
        map_keys_sorted(m),
    ensures
        keys_sorted(spec_action_map_json(m)),
        fields_ok(spec_action_map_json(m), 1),
{
    let r = spec_action_map_json(m);
    assert forall|i: int, j: int| 0 <= i < j < r.len() implies str_lt(
        (#[trigger] r[i]).0,
        (#[trigger] r[j]).0,
    ) by {
        assert(r[i].0 == m[i].0 && r[j].0 == m[j].0);
    }
    assert forall|i: int| 0 <= i < r.len() implies jwf((#[trigger] r[i]).1) && jdepth(r[i].1)
        <= 1 by {
        lemma_action_json_ok(m[i].1);
    }
}

proof fn lemma_credential_map_json_ok(m: Seq<(Seq<char>, CredentialV)>)
    requires
        map_keys_sorted(m),
    ensures
        keys_sorted(spec_credential_map_json(m)),
        fields_ok(spec_credential_map_json(m), 1),
{
    let r = spec_credential_map_json(m);
    assert forall|i: int, j: int| 0 <= i < j < r.len() implies str_lt(
        (#[trigger] r[i]).0,
        (#[trigger] r[j]).0,
    ) by {
        assert(r[i].0 == m[i].0 && r[j].0 == m[j].0);
    }
    assert forall|i: int| 0 <= i < r.len() implies jwf((#[trigger] r[i]).1) && jdepth(r[i].1)
        <= 1 by {
        lemma_credential_json_ok(m[i].1);
    }
}

proof fn lemma_image_map_json_ok(m: Seq<(Seq<char>, ImageV)>)
    requires
        map_keys_sorted(m),
        forall|i: int| 0 <= i < m.len() ==> image_wf((#[trigger] m[i]).1),
    ensures
        keys_sorted(spec_image_map_json(m)),
        fields_ok(spec_image_map_json(m), 2),
{
    let r = spec_image_map_json(m);
    assert forall|i: int, j: int| 0 <= i < j < r.len() implies str_lt(
        (#[trigger] r[i]).0,
        (#[trigger] r[j]).0,
    ) by {
        assert(r[i].0 == m[i].0 && r[j].0 == m[j].0);
    }
    assert forall|i: int| 0 <= i < r.len() implies jwf((#[trigger] r[i]).1) && jdepth(r[i].1)
        <= 2 by {
        assert(image_wf(m[i].1));
        lemma_image_json_ok(m[i].1);
    }
}

proof fn lemma_output_map_json_ok(m: Seq<(Seq<char>, OutputV)>)
    requires
        map_keys_sorted(m),
    ensures
        keys_sorted(spec_output_map_json(m)),
        fields_ok(spec_output_map_json(m), 2),
{
    let r = spec_output_map_json(m);
    assert forall|i: int, j: int| 0 <= i < j < r.len() implies str_lt(
        (#[trigger] r[i]).0,
        (#[trigger] r[j]).0,
    ) by {
        assert(r[i].0 == m[i].0 && r[j].0 == m[j].0);
    }
    assert forall|i: int| 0 <= i < r.len() implies jwf((#[trigger] r[i]).1) && jdepth(r[i].1)
        <= 2 by {
        lemma_output_json_ok(m[i].1);
    }
}

proof fn lemma_parameter_map_json_ok(m: Seq<(Seq<char>, ParameterV)>)
    requires
        map_keys_sorted(m),
    ensures
        keys_sorted(spec_parameter_map_json(m)),
        fields_ok(spec_parameter_map_json(m), 2),
{
    let r = spec_parameter_map_json(m);
    assert forall|i: int, j: int| 0 <= i < j < r.len() implies str_lt(
        (#[trigger] r[i]).0,
        (#[trigger] r[j]).0,
    ) by {
        assert(r[i].0 == m[i].0 && r[j].0 == m[j].0);
    }
    assert forall|i: int| 0 <= i < r.len() implies jwf((#[trigger] r[i]).1) && jdepth(r[i].1)
        <= 2 by {
        lemma_parameter_json_ok(m[i].1);
    }
}

proof fn lemma_maintainers_json_ok(ms: Seq<MaintainerV>)
    ensures
        jwf(JsonV::Arr(spec_maintainers_json(ms))),
        jdepth(JsonV::Arr(spec_maintainers_json(ms))) <= 2,
{
    let r = spec_maintainers_json(ms);
    assert forall|i: int| 0 <= i < r.len() implies jwf(#[trigger] r[i]) by {
        lemma_maintainer_json_ok(ms[i]);
    }
    assert forall|i: int| 0 <= i < r.len() implies jdepth(#[trigger] r[i]) <= 1 by {
        lemma_maintainer_json_ok(ms[i]);
    }
    lemma_jwf_arr_all(r);
    lemma_jdepth_arr_bound(r, 1);
}

proof fn lemma_invocation_images_json_ok(imgs: Seq<InvocationImageV>)
    requires
        forall|i: int| 0 <= i < imgs.len() ==> invocation_image_wf(#[trigger] imgs[i]),
    ensures
        jwf(JsonV::Arr(spec_invocation_images_json(imgs))),
        jdepth(JsonV::Arr(spec_invocation_images_json(imgs))) <= 3,
{
    let r = spec_invocation_images_json(imgs);
    assert forall|i: int| 0 <= i < r.len() implies jwf(#[trigger] r[i]) by {
        lemma_invocation_image_json_ok(imgs[i]);
    }
    assert forall|i: int| 0 <= i < r.len() implies jdepth(#[trigger] r[i]) <= 2 by {
        lemma_invocation_image_json_ok(imgs[i]);
    }
    lemma_jwf_arr_all(r);
    lemma_jdepth_arr_bound(r, 2);
}

/// The keys of the written bundle fields are sorted.
#[verifier::rlimit(100)]
proof fn lemma_bundle_fields_sorted(b: BundleV)
    ensures
        keys_sorted(spec_bundle_fields(b)),
{
    let s1 = opt_fld("actions"@, action_map_opt(b.actions));
    let s2 = opt_fld("credentials"@, credential_map_opt(b.credentials));
    let s3 = opt_fld("custom"@, obj_opt(b.custom));
    let s4 = opt_fld("definitions"@, obj_opt(b.definitions));
    let s5 = opt_fld("description"@, str_opt(b.description));
    let s6 = opt_fld("images"@, image_map_opt(b.images));
    let s7 = fld("invocationImages"@, JsonV::Arr(spec_invocation_images_json(b.invocation_images)));
    let s8 = opt_fld("keywords"@, str_arr_opt(b.keywords));
    let s9 = opt_fld("license"@, str_opt(b.license));
    let s10 = opt_fld("maintainers"@, maintainers_opt(b.maintainers));
    let s11 = fld("name"@, JsonV::Str(b.name));
    let s12 = opt_fld("outputs"@, output_map_opt(b.outputs));
    let s13 = opt_fld("parameters"@, parameter_map_opt(b.parameters));
    let s14 = fld("schemaVersion"@, JsonV::Str(b.schema_version));
    let s15 = fld("version"@, JsonV::Str(spec_version_chars(b.version)));
    lemma_bundle_keys_order();
    let a2 = s1 + s2;
    let a3 = a2 + s3;
    let a4 = a3 + s4;
    let a5 = a4 + s5;
    let a6 = a5 + s6;
    let a7 = a6 + s7;
    let a8 = a7 + s8;
    let a9 = a8 + s9;
    let a10 = a9 + s10;
    let a11 = a10 + s11;
    let a12 = a11 + s12;
    let a13 = a12 + s13;
    let a14 = a13 + s14;
    let a15 = a14 + s15;
    assert(keys_below(s1, "credentials"@));
    lemma_seg_sorted_snoc(s1, s2, "credentials"@);
    lemma_seg_sorted_snoc(a2, s3, "custom"@);
    lemma_seg_sorted_snoc(a3, s4, "definitions"@);
    lemma_seg_sorted_snoc(a4, s5, "description"@);
    lemma_seg_sorted_snoc(a5, s6, "images"@);
    lemma_seg_sorted_snoc(a6, s7, "invocationImages"@);
    lemma_seg_sorted_snoc(a7, s8, "keywords"@);
    lemma_seg_sorted_snoc(a8, s9, "license"@);
    lemma_seg_sorted_snoc(a9, s10, "maintainers"@);
    lemma_seg_sorted_snoc(a10, s11, "name"@);
    lemma_seg_sorted_snoc(a11, s12, "outputs"@);
    lemma_seg_sorted_snoc(a12, s13, "parameters"@);
    lemma_seg_sorted_snoc(a13, s14, "schemaVersion"@);
    lemma_seg_sorted_snoc(a14, s15, "version"@);
    assert(a15 == spec_bundle_fields(b));
}

/// The values of the written bundle fields are well-formed and shallow.
#[verifier::rlimit(100)]
proof fn lemma_bundle_fields_ok(b: BundleV)
    requires
        bundle_wf(b),
    ensures
        fields_ok(spec_bundle_fields(b), 126),
{
    let s1 = opt_fld("actions"@, action_map_opt(b.actions));
    let s2 = opt_fld("credentials"@, credential_map_opt(b.credentials));
    let s3 = opt_fld("custom"@, obj_opt(b.custom));
    let s4 = opt_fld("definitions"@, obj_opt(b.definitions));
    let s5 = opt_fld("description"@, str_opt(b.description));
    let s6 = opt_fld("images"@, image_map_opt(b.images));
    let s7 = fld("invocationImages"@, JsonV::Arr(spec_invocation_images_json(b.invocation_images)));
    let s8 = opt_fld("keywords"@, str_arr_opt(b.keywords));
    let s9 = opt_fld("license"@, str_opt(b.license));
    let s10 = opt_fld("maintainers"@, maintainers_opt(b.maintainers));
    let s11 = fld("name"@, JsonV::Str(b.name));
    let s12 = opt_fld("outputs"@, output_map_opt(b.outputs));
    let s13 = opt_fld("parameters"@, parameter_map_opt(b.parameters));
    let s14 = fld("schemaVersion"@, JsonV::Str(b.schema_version));
    let s15 = fld("version"@, JsonV::Str(spec_version_chars(b.version)));
    assert(fields_ok(s1, 126)) by {
        match b.actions {
            Some(m) => {
                lemma_action_map_json_ok(m);
                lemma_obj_from_fields(spec_action_map_json(m), 1);
            },
            None => {},
        }
    }
    assert(fields_ok(s2, 126)) by {
        match b.credentials {
            Some(m) => {
                lemma_credential_map_json_ok(m);
                lemma_obj_from_fields(spec_credential_map_json(m), 1);
            },
            None => {},
        }
    }
    assert(fields_ok(s3, 126)) by {
        match b.custom {
            Some(m) => {
                assert(json_map_wf(m));
                assert(keys_sorted(m));
                assert(fields_ok(m, 125));
                lemma_obj_from_fields(m, 125);
            },
            None => {},
        }
    }
    assert(fields_ok(s4, 126)) by {
        match b.definitions {
            Some(m) => {
                assert(json_map_wf(m));
                assert(keys_sorted(m));
                assert(fields_ok(m, 125));
                lemma_obj_from_fields(m, 125);
            },
            None => {},
        }
    }
    assert(fields_ok(s5, 126));
    assert(fields_ok(s6, 126)) by {
        match b.images {
            Some(m) => {
                lemma_image_map_json_ok(m);
                lemma_obj_from_fields(spec_image_map_json(m), 2);
            },
            None => {},
        }
    }
    assert(fields_ok(s7, 126)) by {
        lemma_invocation_images_json_ok(b.invocation_images);
    }
    assert(fields_ok(s8, 126)) by {
        match b.keywords {
            Some(ss) => {
                lemma_str_arr_ok(ss);
            },
            None => {},
        }
    }
    assert(fields_ok(s9, 126));
    assert(fields_ok(s10, 126)) by {
        match b.maintainers {
            Some(ms) => {
                lemma_maintainers_json_ok(ms);
            },
            None => {},
        }
    }
    assert(fields_ok(s11, 126));
    assert(fields_ok(s12, 126)) by {
        match b.outputs {
            Some(m) => {
                lemma_output_map_json_ok(m);
                lemma_obj_from_fields(spec_output_map_json(m), 2);
            },
            None => {},
        }
    }
    assert(fields_ok(s13, 126)) by {
        match b.parameters {
            Some(m) => {
                lemma_parameter_map_json_ok(m);
                lemma_obj_from_fields(spec_parameter_map_json(m), 2);
            },
            None => {},
        }
    }
    assert(fields_ok(s14, 126));
    assert(fields_ok(s15, 126));
    let a2 = s1 + s2;
    let a3 = a2 + s3;
    let a4 = a3 + s4;
    let a5 = a4 + s5;
    let a6 = a5 + s6;
    let a7 = a6 + s7;
    let a8 = a7 + s8;
    let a9 = a8 + s9;
    let a10 = a9 + s10;
    let a11 = a10 + s11;
    let a12 = a11 + s12;
    let a13 = a12 + s13;
    let a14 = a13 + s14;
    let a15 = a14 + s15;
    lemma_fields_ok_concat(s1, s2, 126);
    lemma_fields_ok_concat(a2, s3, 126);
    lemma_fields_ok_concat(a3, s4, 126);
    lemma_fields_ok_concat(a4, s5, 126);
    lemma_fields_ok_concat(a5, s6, 126);
    lemma_fields_ok_concat(a6, s7, 126);
    lemma_fields_ok_concat(a7, s8, 126);
    lemma_fields_ok_concat(a8, s9, 126);
    lemma_fields_ok_concat(a9, s10, 126);
    lemma_fields_ok_concat(a10, s11, 126);
    lemma_fields_ok_concat(a11, s12, 126);
    lemma_fields_ok_concat(a12, s13, 126);
    lemma_fields_ok_concat(a13, s14, 126);
    lemma_fields_ok_concat(a14, s15, 126);
    assert(a15 == spec_bundle_fields(b));
}

/// A well-formed bundle is written as a well-formed tree that nests within
/// the wire reader's bound, so it can always be re-read.
pub proof fn lemma_bundle_json_ok(b: BundleV)
    requires
        bundle_wf(b),
    ensures
        jwf(spec_bundle_json(b)),
        jdepth(spec_bundle_json(b)) <= 127,
{
    lemma_bundle_fields_sorted(b);
    lemma_bundle_fields_ok(b);
    lemma_obj_from_fields(spec_bundle_fields(b), 126);
}

/// The canonical order of the bundle's wire keys.
proof fn lemma_bundle_keys_order()
    ensures
        str_lt("actions"@, "credentials"@),
        str_lt("credentials"@, "custom"@),
        str_lt("custom"@, "definitions"@),
        str_lt("definitions"@, "description"@),
        str_lt("description"@, "images"@),
        str_lt("images"@, "invocationImages"@),
        str_lt("invocationImages"@, "keywords"@),
        str_lt("keywords"@, "license"@),
        str_lt("license"@, "maintainers"@),
        str_lt("maintainers"@, "name"@),
        str_lt("name"@, "outputs"@),
        str_lt("outputs"@, "parameters"@),
        str_lt("parameters"@, "schemaVersion"@),
        str_lt("schemaVersion"@, "version"@),
{
    reveal_strlit("actions");
    reveal_strlit("credentials");
    reveal_strlit("custom");
    reveal_strlit("definitions");
    reveal_strlit("description");
    reveal_strlit("images");
    reveal_strlit("invocationImages");
    reveal_strlit("keywords");
    reveal_strlit("license");
    reveal_strlit("maintainers");
    reveal_strlit("name");
    reveal_strlit("outputs");
    reveal_strlit("parameters");
    reveal_strlit("schemaVersion");
    reveal_strlit("version");
    reveal_with_fuel(str_lt, 8);
    assert(str_lt("definitions"@, "description"@)) by {
        reveal_with_fuel(str_lt, 8);
    }
    assert(str_lt("parameters"@, "schemaVersion"@)) by {
        reveal_with_fuel(str_lt, 8);
    }
}

// ---------------------------------------------------------------------------
// Executable rendering
// ---------------------------------------------------------------------------

/// Appends one field to an object under construction.
fn push_field(fields: &mut Vec<(String, Json)>, k: &str, v: Json)
    ensures
        jview_obj(final(fields)@) == jview_obj(old(fields)@) + fld(k@, jview(v)),
{
    let key = String::from_str(k);
    let ghost before = fields@;
    let ghost vv = jview(v);
    fields.push((key, v));
    proof {
        crate::json::lemma_jview_obj_push(before, key, v);
        assert(jview_obj(fields@) =~= jview_obj(before) + fld(k@, vv));
    }
}

pub fn destination_to_json(d: &Destination) -> (r: Json)
    ensures
        jview(r) == spec_destination_json(d.deep_view()),
{
    let ghost dv = d.deep_view();
    let mut fields: Vec<(String, Json)> = Vec::new();
    proof {
        assert(jview_obj(fields@) =~= Seq::<(Seq<char>, JsonV)>::empty());
    }
    match &d.env {
        Some(s) => {
            push_field(&mut fields, "env", Json::Str(s.clone()));
        },
        None => {},
    }
    proof {
        assert(jview_obj(fields@) =~= opt_fld("env"@, str_opt(dv.env)));
    }
    match &d.path {
        Some(s) => {
            push_field(&mut fields, "path", Json::Str(s.clone()));
        },
        None => {},
    }
    proof {
        assert(jview_obj(fields@) =~= opt_fld("env"@, str_opt(dv.env)) + opt_fld(
            "path"@,
            str_opt(dv.path),
        ));
    }
    Json::Obj(fields)
}

pub fn platform_to_json(p: &Platform) -> (r: Json)
    ensures
        jview(r) == spec_platform_json(p.deep_view()),
{
    let ghost pv = p.deep_view();
    let mut fields: Vec<(String, Json)> = Vec::new();
    proof {
        assert(jview_obj(fields@) =~= Seq::<(Seq<char>, JsonV)>::empty());
    }
    match &p.arch {
        Some(s) => {
            push_field(&mut fields, "arch", Json::Str(s.clone()));
        },
        None => {},
    }
    proof {
        assert(jview_obj(fields@) =~= opt_fld("arch"@, str_opt(pv.arch)));
    }
    match &p.os {
        Some(s) => {
            push_field(&mut fields, "os", Json::Str(s.clone()));
        },
        None => {},
    }
    proof {
        assert(jview_obj(fields@) =~= opt_fld("arch"@, str_opt(pv.arch)) + opt_fld(
            "os"@,
            str_opt(pv.os),
        ));
    }
    Json::Obj(fields)
}

pub fn action_to_json(a: &Action) -> (r: Json)
    ensures
        jview(r) == spec_action_json(a.deep_view()),
{
    let ghost av = a.deep_view();
    let mut fields: Vec<(String, Json)> = Vec::new();
    proof {
        assert(jview_obj(fields@) =~= Seq::<(Seq<char>, JsonV)>::empty());
    }
    match &a.description {
        Some(s) => {
            push_field(&mut fields, "description", Json::Str(s.clone()));
        },
        None => {},
    }
    proof {
        assert(jview_obj(fields@) =~= opt_fld("description"@, str_opt(av.description)));
    }
    push_field(&mut fields, "modifies", Json::Bool(a.modifies));
    push_field(&mut fields, "stateless", Json::Bool(a.stateless));
    proof {
        assert(jview_obj(fields@) =~= opt_fld("description"@, str_opt(av.description)) + fld(
            "modifies"@,
            JsonV::Bool(av.modifies),
        ) + fld("stateless"@, JsonV::Bool(av.stateless)));
    }
    Json::Obj(fields)
}

pub fn credential_to_json(c: &Credential) -> (r: Json)
    ensures
        jview(r) == spec_credential_json(c.deep_view()),
{
    let ghost cv = c.deep_view();
    let mut fields: Vec<(String, Json)> = Vec::new();
    proof {
        assert(jview_obj(fields@) =~= Seq::<(Seq<char>, JsonV)>::empty());
    }
    match &c.description {
        Some(s) => {
            push_field(&mut fields, "description", Json::Str(s.clone()));
        },
        None => {},
    }
    proof {
        assert(jview_obj(fields@) =~= opt_fld("description"@, str_opt(cv.description)));
    }
    match &c.env {
        Some(s) => {
            push_field(&mut fields, "env", Json::Str(s.clone()));
        },
        None => {},
    }
    proof {
        assert(jview_obj(fields@) =~= opt_fld("description"@, str_opt(cv.description)) + opt_fld(
            "env"@,
            str_opt(cv.env),
        ));
    }
    match &c.path {
        Some(s) => {
            push_field(&mut fields, "path", Json::Str(s.clone()));
        },
        None => {},
    }
    match &c.required {
        Some(b) => {
            push_field(&mut fields, "required", Json::Bool(*b));
        },
        None => {},
    }
    proof {
        assert(jview_obj(fields@) =~= opt_fld("description"@, str_opt(cv.description)) + opt_fld(
            "env"@,
            str_opt(cv.env),
        ) + opt_fld("path"@, str_opt(cv.path)) + opt_fld("required"@, bool_opt(cv.required)));
    }
    Json::Obj(fields)
}

pub fn maintainer_to_json(m: &Maintainer) -> (r: Json)
    ensures
        jview(r) == spec_maintainer_json(m.deep_view()),
{
    let ghost mv = m.deep_view();
    let mut fields: Vec<(String, Json)> = Vec::new();
    proof {
        assert(jview_obj(fields@) =~= Seq::<(Seq<char>, JsonV)>::empty());
    }
    match &m.email {
        Some(s) => {
            push_field(&mut fields, "email", Json::Str(s.clone()));
        },
        None => {},
    }
    proof {
        assert(jview_obj(fields@) =~= opt_fld("email"@, str_opt(mv.email)));
    }
    push_field(&mut fields, "name", Json::Str(m.name.clone()));
    match &m.url {
        Some(s) => {
            push_field(&mut fields, "url", Json::Str(s.clone()));
        },
        None => {},
    }
    proof {
        assert(jview_obj(fields@) =~= opt_fld("email"@, str_opt(mv.email)) + fld(
            "name"@,
            JsonV::Str(mv.name),
        ) + opt_fld("url"@, str_opt(mv.url)));
    }
    Json::Obj(fields)
}

/// Renders a string mapping as object entries.
pub fn str_map_to_fields(m: &Vec<(String, String)>) -> (r: Vec<(String, Json)>)
    ensures
        jview_obj(r@) == spec_str_map_json(m.deep_view()),
{
    let mut out: Vec<(String, Json)> = Vec::new();
    let mut i: usize = 0;
    while i < m.len()
        invariant
            0 <= i <= m@.len(),
            out@.len() == i,
            forall|p: int|
                0 <= p < i ==> (#[trigger] out@[p]).0@ == m@[p].0@ && jview(out@[p].1)
                    == JsonV::Str(m@[p].1@),
        decreases m@.len() - i,
    {
        let key = m[i].0.clone();
        let val = Json::Str(m[i].1.clone());
        out.push((key, val));
        i = i + 1;
    }
    proof {
        crate::json::lemma_jview_obj_len(out@);
        assert forall|p: int| 0 <= p < out@.len() implies #[trigger] jview_obj(out@)[p]
            == spec_str_map_json(m.deep_view())[p] by {
            crate::json::lemma_jview_obj_index(out@, p);
        }
        assert(jview_obj(out@) =~= spec_str_map_json(m.deep_view()));
    }
    out
}

/// Renders strings as a JSON array's elements.
pub fn str_list_to_items(v: &Vec<String>) -> (r: Vec<Json>)
    ensures
        jview_arr(r@) == spec_str_arr(v.deep_view()),
{
    let mut out: Vec<Json> = Vec::new();
    let mut i: usize = 0;
    while i < v.len()
        invariant
            0 <= i <= v@.len(),
            out@.len() == i,
            forall|p: int| 0 <= p < i ==> jview(#[trigger] out@[p]) == JsonV::Str(v@[p]@),
        decreases v@.len() - i,
    {
        out.push(Json::Str(v[i].clone()));
        i = i + 1;
    }
    proof {
        crate::json::lemma_jview_arr_len(out@);
        assert forall|p: int| 0 <= p < out@.len() implies #[trigger] jview_arr(out@)[p]
            == spec_str_arr(v.deep_view())[p] by {
            crate::json::lemma_jview_arr_index(out@, p);
        }
        assert(jview_arr(out@) =~= spec_str_arr(v.deep_view()));
    }
    out
}

pub fn image_to_json(v: &Image) -> (r: Json)
    ensures
        jview(r) == spec_image_json(v.deep_view()),
{
    let ghost iv = v.deep_view();
    let mut fields: Vec<(String, Json)> = Vec::new();
    proof {
        assert(jview_obj(fields@) =~= Seq::<(Seq<char>, JsonV)>::empty());
    }
    match &v.content_digest {
        Some(s) => {
            push_field(&mut fields, "contentDigest", Json::Str(s.clone()));
        },
        None => {},
    }
    proof {
        assert(jview_obj(fields@) =~= opt_fld("contentDigest"@, str_opt(iv.content_digest)));
    }
    match &v.description {
        Some(s) => {
            push_field(&mut fields, "description", Json::Str(s.clone()));
        },
        None => {},
    }
    push_field(&mut fields, "image", Json::Str(v.image.clone()));
    match &v.image_type {
        Some(s) => {
            push_field(&mut fields, "imageType", Json::Str(s.clone()));
        },
        None => {},
    }
    proof {
        assert(jview_obj(fields@) =~= opt_fld("contentDigest"@, str_opt(iv.content_digest))
            + opt_fld("description"@, str_opt(iv.description)) + fld(
            "image"@,
            JsonV::Str(iv.image),
        ) + opt_fld("imageType"@, str_opt(iv.image_type)));
    }
    match &v.labels {
        Some(m) => {
            let lf = str_map_to_fields(m);
            push_field(&mut fields, "labels", Json::Obj(lf));
        },
        None => {},
    }
    proof {
        assert(jview_obj(fields@) =~= opt_fld("contentDigest"@, str_opt(iv.content_digest))
            + opt_fld("description"@, str_opt(iv.description)) + fld(
            "image"@,
            JsonV::Str(iv.image),
        ) + opt_fld("imageType"@, str_opt(iv.image_type)) + opt_fld(
            "labels"@,
            labels_opt(iv.labels),
        ));
    }
    match &v.media_type {
        Some(s) => {
            push_field(&mut fields, "mediaType", Json::Str(s.clone()));
        },
        None => {},
    }
    match &v.platform {
        Some(p) => {
            let pj = platform_to_json(p);
            push_field(&mut fields, "platform", pj);
        },
        None => {},
    }
    match &v.size {
        Some(n) => {
            push_field(&mut fields, "size", Json::Num(crate::num::i64_to_dec(*n)));
        },
        None => {},
    }
    proof {
        assert(jview_obj(fields@) =~= opt_fld("contentDigest"@, str_opt(iv.content_digest))
            + opt_fld("description"@, str_opt(iv.description)) + fld(
            "image"@,
            JsonV::Str(iv.image),
        ) + opt_fld("imageType"@, str_opt(iv.image_type)) + opt_fld(
            "labels"@,
            labels_opt(iv.labels),
        ) + opt_fld("mediaType"@, str_opt(iv.media_type)) + opt_fld(
            "platform"@,
            platform_opt(iv.platform),
        ) + opt_fld("size"@, num_opt(iv.size)));
    }
    Json::Obj(fields)
}

pub fn invocation_image_to_json(v: &InvocationImage) -> (r: Json)
    ensures
        jview(r) == spec_invocation_image_json(v.deep_view()),
{
    let ghost iv = v.deep_view();
    let mut fields: Vec<(String, Json)> = Vec::new();
    proof {
        assert(jview_obj(fields@) =~= Seq::<(Seq<char>, JsonV)>::empty());
    }
    match &v.content_digest {
        Some(s) => {
            push_field(&mut fields, "contentDigest", Json::Str(s.clone()));
        },
        None => {},
    }
    proof {
        assert(jview_obj(fields@) =~= opt_fld("contentDigest"@, str_opt(iv.content_digest)));
    }
    push_field(&mut fields, "image", Json::Str(v.image.clone()));
    match &v.image_type {
        Some(s) => {
            push_field(&mut fields, "imageType", Json::Str(s.clone()));
        },
        None => {},
    }
    proof {
        assert(jview_obj(fields@) =~= opt_fld("contentDigest"@, str_opt(iv.content_digest)) + fld(
            "image"@,
            JsonV::Str(iv.image),
        ) + opt_fld("imageType"@, str_opt(iv.image_type)));
    }
    match &v.labels {
        Some(m) => {
            let lf = str_map_to_fields(m);
            push_field(&mut fields, "labels", Json::Obj(lf));
        },
        None => {},
    }
    match &v.media_type {
        Some(s) => {
            push_field(&mut fields, "mediaType", Json::Str(s.clone()));
        },
        None => {},
    }
    match &v.size {
        Some(n) => {
            push_field(&mut fields, "size", Json::Num(crate::num::i64_to_dec(*n)));
        },
        None => {},
    }
    proof {
        assert(jview_obj(fields@) =~= opt_fld("contentDigest"@, str_opt(iv.content_digest)) + fld(
            "image"@,
            JsonV::Str(iv.image),
        ) + opt_fld("imageType"@, str_opt(iv.image_type)) + opt_fld(
            "labels"@,
            labels_opt(iv.labels),
        ) + opt_fld("mediaType"@, str_opt(iv.media_type)) + opt_fld("size"@, num_opt(iv.size)));
    }
    Json::Obj(fields)
}

pub fn parameter_to_json(p: &Parameter) -> (r: Json)
    ensures
        jview(r) == spec_parameter_json(p.deep_view()),
{
    let ghost pv = p.deep_view();
    let mut fields: Vec<(String, Json)> = Vec::new();
    proof {
        assert(jview_obj(fields@) =~= Seq::<(Seq<char>, JsonV)>::empty());
    }
    match &p.apply_to {
        Some(ss) => {
            let items = str_list_to_items(ss);
            push_field(&mut fields, "applyTo", Json::Arr(items));
        },
        None => {},
    }
    proof {
        assert(jview_obj(fields@) =~= opt_fld("applyTo"@, str_arr_opt(pv.apply_to)));
    }
    match &p.definition {
        Some(s) => {
            push_field(&mut fields, "definition", Json::Str(s.clone()));
        },
        None => {},
    }
    match &p.description {
        Some(s) => {
            push_field(&mut fields, "description", Json::Str(s.clone()));
        },
        None => {},
    }
    proof {
        assert(jview_obj(fields@) =~= opt_fld("applyTo"@, str_arr_opt(pv.apply_to)) + opt_fld(
            "definition"@,
            str_opt(pv.definition),
        ) + opt_fld("description"@, str_opt(pv.description)));
    }
    let dj = destination_to_json(&p.destination);
    push_field(&mut fields, "destination", dj);
    match &p.required {
        Some(b) => {
            push_field(&mut fields, "required", Json::Bool(*b));
        },
        None => {},
    }
    proof {
        assert(jview_obj(fields@) =~= opt_fld("applyTo"@, str_arr_opt(pv.apply_to)) + opt_fld(
            "definition"@,
            str_opt(pv.definition),
        ) + opt_fld("description"@, str_opt(pv.description)) + fld(
            "destination"@,
            spec_destination_json(pv.destination),
        ) + opt_fld("required"@, bool_opt(pv.required)));
    }
    Json::Obj(fields)
}

pub fn output_to_json(o: &Output) -> (r: Json)
    ensures
        jview(r) == spec_output_json(o.deep_view()),
{
    let ghost ov = o.deep_view();
    let mut fields: Vec<(String, Json)> = Vec::new();
    proof {
        assert(jview_obj(fields@) =~= Seq::<(Seq<char>, JsonV)>::empty());
    }
    match &o.apply_to {
        Some(ss) => {
            let items = str_list_to_items(ss);
            push_field(&mut fields, "applyTo", Json::Arr(items));
        },
        None => {},
    }
    proof {
        assert(jview_obj(fields@) =~= opt_fld("applyTo"@, str_arr_opt(ov.apply_to)));
    }
    push_field(&mut fields, "definition", Json::Str(o.definition.clone()));
    match &o.description {
        Some(s) => {
            push_field(&mut fields, "description", Json::Str(s.clone()));
        },
        None => {},
    }
    match &o.path {
        Some(s) => {
            push_field(&mut fields, "path", Json::Str(s.clone()));
        },
        None => {},
    }
    proof {
        assert(jview_obj(fields@) =~= opt_fld("applyTo"@, str_arr_opt(ov.apply_to)) + fld(
            "definition"@,
            JsonV::Str(ov.definition),
        ) + opt_fld("description"@, str_opt(ov.description)) + opt_fld("path"@, str_opt(ov.path)));
    }
    Json::Obj(fields)
}

pub fn action_map_to_fields(m: &Vec<(String, Action)>) -> (r: Vec<(String, Json)>)
    ensures
        jview_obj(r@) == spec_action_map_json(m.deep_view()),
{
    let mut out: Vec<(String, Json)> = Vec::new();
    let mut i: usize = 0;
    while i < m.len()
        invariant
            0 <= i <= m@.len(),
            out@.len() == i,
            forall|p: int|
                0 <= p < i ==> (#[trigger] out@[p]).0@ == m@[p].0@ && jview(out@[p].1)
                    == spec_action_json(m@[p].1.deep_view()),
        decreases m@.len() - i,
    {
        let key = m[i].0.clone();
        let val = action_to_json(&m[i].1);
        out.push((key, val));
        i = i + 1;
    }
    proof {
        crate::json::lemma_jview_obj_len(out@);
        assert forall|p: int| 0 <= p < out@.len() implies #[trigger] jview_obj(out@)[p]
            == spec_action_map_json(m.deep_view())[p] by {
            crate::json::lemma_jview_obj_index(out@, p);
        }
        assert(jview_obj(out@) =~= spec_action_map_json(m.deep_view()));
    }
    out
}

pub fn credential_map_to_fields(m: &Vec<(String, Credential)>) -> (r: Vec<(String, Json)>)
    ensures
        jview_obj(r@) == spec_credential_map_json(m.deep_view()),
{
    let mut out: Vec<(String, Json)> = Vec::new();
    let mut i: usize = 0;
    while i < m.len()
        invariant
            0 <= i <= m@.len(),
            out@.len() == i,
            forall|p: int|
                0 <= p < i ==> (#[trigger] out@[p]).0@ == m@[p].0@ && jview(out@[p].1)
                    == spec_credential_json(m@[p].1.deep_view()),
        decreases m@.len() - i,
    {
        let key = m[i].0.clone();
        let val = credential_to_json(&m[i].1);
        out.push((key, val));
        i = i + 1;
    }
    proof {
        crate::json::lemma_jview_obj_len(out@);
        assert forall|p: int| 0 <= p < out@.len() implies #[trigger] jview_obj(out@)[p]
            == spec_credential_map_json(m.deep_view())[p] by {
            crate::json::lemma_jview_obj_index(out@, p);
        }
        assert(jview_obj(out@) =~= spec_credential_map_json(m.deep_view()));
    }
    out
}

pub fn image_map_to_fields(m: &Vec<(String, Image)>) -> (r: Vec<(String, Json)>)
    ensures
        jview_obj(r@) == spec_image_map_json(m.deep_view()),
{
    let mut out: Vec<(String, Json)> = Vec::new();
    let mut i: usize = 0;
    while i < m.len()
        invariant
            0 <= i <= m@.len(),
            out@.len() == i,
            forall|p: int|
                0 <= p < i ==> (#[trigger] out@[p]).0@ == m@[p].0@ && jview(out@[p].1)
                    == spec_image_json(m@[p].1.deep_view()),
        decreases m@.len() - i,
    {
        let key = m[i].0.clone();
        let val = image_to_json(&m[i].1);
        out.push((key, val));
        i = i + 1;
    }
    proof {
        crate::json::lemma_jview_obj_len(out@);
        assert forall|p: int| 0 <= p < out@.len() implies #[trigger] jview_obj(out@)[p]
            == spec_image_map_json(m.deep_view())[p] by {
            crate::json::lemma_jview_obj_index(out@, p);
        }
        assert(jview_obj(out@) =~= spec_image_map_json(m.deep_view()));
    }
    out
}

pub fn output_map_to_fields(m: &Vec<(String, Output)>) -> (r: Vec<(String, Json)>)
    ensures
        jview_obj(r@) == spec_output_map_json(m.deep_view()),
{
    let mut out: Vec<(String, Json)> = Vec::new();
    let mut i: usize = 0;
    while i < m.len()
        invariant
            0 <= i <= m@.len(),
            out@.len() == i,
            forall|p: int|
                0 <= p < i ==> (#[trigger] out@[p]).0@ == m@[p].0@ && jview(out@[p].1)
                    == spec_output_json(m@[p].1.deep_view()),
        decreases m@.len() - i,
    {
        let key = m[i].0.clone();
        let val = output_to_json(&m[i].1);
        out.push((key, val));
        i = i + 1;
    }
    proof {
        crate::json::lemma_jview_obj_len(out@);
        assert forall|p: int| 0 <= p < out@.len() implies #[trigger] jview_obj(out@)[p]
            == spec_output_map_json(m.deep_view())[p] by {
            crate::json::lemma_jview_obj_index(out@, p);
        }
        assert(jview_obj(out@) =~= spec_output_map_json(m.deep_view()));
    }
    out
}

pub fn parameter_map_to_fields(m: &Vec<(String, Parameter)>) -> (r: Vec<(String, Json)>)
    ensures
        jview_obj(r@) == spec_parameter_map_json(m.deep_view()),
{
    let mut out: Vec<(String, Json)> = Vec::new();
    let mut i: usize = 0;
    while i < m.len()
        invariant
            0 <= i <= m@.len(),
            out@.len() == i,
            forall|p: int|
                0 <= p < i ==> (#[trigger] out@[p]).0@ == m@[p].0@ && jview(out@[p].1)
                    == spec_parameter_json(m@[p].1.deep_view()),
        decreases m@.len() - i,
    {
        let key = m[i].0.clone();
        let val = parameter_to_json(&m[i].1);
        out.push((key, val));
        i = i + 1;
    }
    proof {
        crate::json::lemma_jview_obj_len(out@);
        assert forall|p: int| 0 <= p < out@.len() implies #[trigger] jview_obj(out@)[p]
            == spec_parameter_map_json(m.deep_view())[p] by {
            crate::json::lemma_jview_obj_index(out@, p);
        }
        assert(jview_obj(out@) =~= spec_parameter_map_json(m.deep_view()));
    }
    out
}

pub fn maintainers_to_items(ms: &Vec<Maintainer>) -> (r: Vec<Json>)
    ensures
        jview_arr(r@) == spec_maintainers_json(ms.deep_view()),
{
    let mut out: Vec<Json> = Vec::new();
    let mut i: usize = 0;
    while i < ms.len()
        invariant
            0 <= i <= ms@.len(),
            out@.len() == i,
            forall|p: int|
                0 <= p < i ==> jview(#[trigger] out@[p]) == spec_maintainer_json(
                    ms@[p].deep_view(),
                ),
        decreases ms@.len() - i,
    {
        let val = maintainer_to_json(&ms[i]);
        out.push(val);
        i = i + 1;
    }
    proof {
        crate::json::lemma_jview_arr_len(out@);
        assert forall|p: int| 0 <= p < out@.len() implies #[trigger] jview_arr(out@)[p]
            == spec_maintainers_json(ms.deep_view())[p] by {
            crate::json::lemma_jview_arr_index(out@, p);
        }
        assert(jview_arr(out@) =~= spec_maintainers_json(ms.deep_view()));
    }
    out
}

pub fn invocation_images_to_items(imgs: &Vec<InvocationImage>) -> (r: Vec<Json>)
    ensures
        jview_arr(r@) == spec_invocation_images_json(imgs.deep_view()),
{
    let mut out: Vec<Json> = Vec::new();
    let mut i: usize = 0;
    while i < imgs.len()
        invariant
            0 <= i <= imgs@.len(),
            out@.len() == i,
            forall|p: int|
                0 <= p < i ==> jview(#[trigger] out@[p]) == spec_invocation_image_json(
                    imgs@[p].deep_view(),
                ),
        decreases imgs@.len() - i,
    {
        let val = invocation_image_to_json(&imgs[i]);
        out.push(val);
        i = i + 1;
    }
    proof {
        crate::json::lemma_jview_arr_len(out@);
        assert forall|p: int| 0 <= p < out@.len() implies #[trigger] jview_arr(out@)[p]
            == spec_invocation_images_json(imgs.deep_view())[p] by {
            crate::json::lemma_jview_arr_index(out@, p);
        }
        assert(jview_arr(out@) =~= spec_invocation_images_json(imgs.deep_view()));
    }
    out
}

impl Bundle {
    /// Writes this bundle as a JSON tree in canonical form.
    #[verifier::rlimit(100)]
    pub fn to_json_tree(&self) -> (r: Json)
        ensures
            jview(r) == spec_bundle_json(self.deep_view()),
    {
        let ghost bv = self.deep_view();
        let mut fields: Vec<(String, Json)> = Vec::new();
        proof {
            assert(jview_obj(fields@) =~= Seq::<(Seq<char>, JsonV)>::empty());
        }
        match &self.actions {
            Some(m) => {
                let mf = action_map_to_fields(m);
                push_field(&mut fields, "actions", Json::Obj(mf));
            },
            None => {},
        }
        proof {
            assert(jview_obj(fields@) =~= opt_fld("actions"@, action_map_opt(bv.actions)));
        }
        match &self.credentials {
            Some(m) => {
                let mf = credential_map_to_fields(m);
                push_field(&mut fields, "credentials", Json::Obj(mf));
            },
            None => {},
        }
        proof {
            assert(jview_obj(fields@) =~= opt_fld("actions"@, action_map_opt(bv.actions))
                + opt_fld("credentials"@, credential_map_opt(bv.credentials)));
        }
        match &self.custom {
            Some(m) => {
                let mf = crate::parse::json_map_copy(m);
                proof {
                    crate::json::lemma_entries_deep_view(*m);
                    crate::json::lemma_entries_deep_view(mf);
                }
                push_field(&mut fields, "custom", Json::Obj(mf));
            },
            None => {},
        }
        proof {
            assert(jview_obj(fields@) =~= opt_fld("actions"@, action_map_opt(bv.actions))
                + opt_fld("credentials"@, credential_map_opt(bv.credentials)) + opt_fld(
                "custom"@,
                obj_opt(bv.custom),
            ));
        }
        match &self.definitions {
            Some(m) => {
                let mf = crate::parse::json_map_copy(m);
                proof {
                    crate::json::lemma_entries_deep_view(*m);
                    crate::json::lemma_entries_deep_view(mf);
                }
                push_field(&mut fields, "definitions", Json::Obj(mf));
            },
            None => {},
        }
        match &self.description {
            Some(s) => {
                push_field(&mut fields, "description", Json::Str(s.clone()));
            },
            None => {},
        }
        proof {
            assert(jview_obj(fields@) =~= opt_fld("actions"@, action_map_opt(bv.actions))
                + opt_fld("credentials"@, credential_map_opt(bv.credentials)) + opt_fld(
                "custom"@,
                obj_opt(bv.custom),
            ) + opt_fld("definitions"@, obj_opt(bv.definitions)) + opt_fld(
                "description"@,
                str_opt(bv.description),
            ));
        }
        match &self.images {
            Some(m) => {
                let mf = image_map_to_fields(m);
                push_field(&mut fields, "images", Json::Obj(mf));
            },
            None => {},
        }
        let inv = invocation_images_to_items(&self.invocation_images);
        push_field(&mut fields, "invocationImages", Json::Arr(inv));
        proof {
            assert(jview_obj(fields@) =~= opt_fld("actions"@, action_map_opt(bv.actions))
                + opt_fld("credentials"@, credential_map_opt(bv.credentials)) + opt_fld(
                "custom"@,
                obj_opt(bv.custom),
            ) + opt_fld("definitions"@, obj_opt(bv.definitions)) + opt_fld(
                "description"@,
                str_opt(bv.description),
            ) + opt_fld("images"@, image_map_opt(bv.images)) + fld(
                "invocationImages"@,
                JsonV::Arr(spec_invocation_images_json(bv.invocation_images)),
            ));
        }
        match &self.keywords {
            Some(ss) => {
                let items = str_list_to_items(ss);
                push_field(&mut fields, "keywords", Json::Arr(items));
            },
            None => {},
        }
        match &self.license {
            Some(s) => {
                push_field(&mut fields, "license", Json::Str(s.clone()));
            },
            None => {},
        }
        proof {
            assert(jview_obj(fields@) =~= opt_fld("actions"@, action_map_opt(bv.actions))
                + opt_fld("credentials"@, credential_map_opt(bv.credentials)) + opt_fld(
                "custom"@,
                obj_opt(bv.custom),
            ) + opt_fld("definitions"@, obj_opt(bv.definitions)) + opt_fld(
                "description"@,
                str_opt(bv.description),
            ) + opt_fld("images"@, image_map_opt(bv.images)) + fld(
                "invocationImages"@,
                JsonV::Arr(spec_invocation_images_json(bv.invocation_images)),
            ) + opt_fld("keywords"@, str_arr_opt(bv.keywords)) + opt_fld(
                "license"@,
                str_opt(bv.license),
            ));
        }
        match &self.maintainers {
            Some(ms) => {
                let items = maintainers_to_items(ms);
                push_field(&mut fields, "maintainers", Json::Arr(items));
            },
            None => {},
        }
        push_field(&mut fields, "name", Json::Str(self.name.clone()));
        proof {
            assert(jview_obj(fields@) =~= opt_fld("actions"@, action_map_opt(bv.actions))
                + opt_fld("credentials"@, credential_map_opt(bv.credentials)) + opt_fld(
                "custom"@,
                obj_opt(bv.custom),
            ) + opt_fld("definitions"@, obj_opt(bv.definitions)) + opt_fld(
                "description"@,
                str_opt(bv.description),
            ) + opt_fld("images"@, image_map_opt(bv.images)) + fld(
                "invocationImages"@,
                JsonV::Arr(spec_invocation_images_json(bv.invocation_images)),
            ) + opt_fld("keywords"@, str_arr_opt(bv.keywords)) + opt_fld(
                "license"@,
                str_opt(bv.license),
            ) + opt_fld("maintainers"@, maintainers_opt(bv.maintainers)) + fld(
                "name"@,
                JsonV::Str(bv.name),
            ));
        }
        match &self.outputs {
            Some(m) => {
                let mf = output_map_to_fields(m);
                push_field(&mut fields, "outputs", Json::Obj(mf));
            },
            None => {},
        }
        match &self.parameters {
            Some(m) => {
                let mf = parameter_map_to_fields(m);
                push_field(&mut fields, "parameters", Json::Obj(mf));
            },
            None => {},
        }
        push_field(&mut fields, "schemaVersion", Json::Str(self.schema_version.clone()));
        let vs = crate::version::version_string(&self.version);
        push_field(&mut fields, "version", Json::Str(vs));
        proof {
            assert(jview_obj(fields@) =~= spec_bundle_fields(bv));
        }
        Json::Obj(fields)
    }

    /// Writes a well-formed bundle as wire text; reading the text back
    /// yields the same tree.
    pub fn to_text(&self) -> (r: String)
        requires
            self.wf(),
        ensures
            r@ == crate::wire::spec_write_json(spec_bundle_json(self.deep_view())),
            crate::wire::spec_parse_json(r@) == Some(spec_bundle_json(self.deep_view())),
    {
        let j = self.to_json_tree();
        proof {
            lemma_bundle_json_ok(self.deep_view());
        }
        crate::wire::write_json(&j)
    }
}

} // verus!
