//! Credential sets: named collections of credential sources that a runtime
//! resolves before injecting them into a bundle.

use vstd::prelude::*;
use crate::cnab::{FormatError, FormatErrorV};
use crate::json::{jview, jview_arr, jview_obj, obj_get, Json, JsonV, lookup};
use crate::json::{lemma_jview_arr_index, lemma_jview_arr_len};
use crate::parse::{opt_str, req_str, res_view, spec_entity_list, spec_opt_str, spec_req_str};

verus! {

broadcast use vstd::std_specs::vec::group_vec_axioms, vstd::seq::group_seq_axioms;

/// Where one credential's value comes from: a literal value, an environment
/// variable, a file path — independently optional.
#[derive(Debug, PartialEq, Eq, Clone)]
pub struct CredentialSource {
    pub value: Option<String>,
    pub env: Option<String>,
    pub path: Option<String>,
}

#[verifier::ext_equal]
pub struct CredentialSourceV {
    pub value: Option<Seq<char>>,
    pub env: Option<Seq<char>>,
    pub path: Option<Seq<char>>,
}

impl DeepView for CredentialSource {
    type V = CredentialSourceV;

    open spec fn deep_view(&self) -> CredentialSourceV {
        CredentialSourceV {
            value: self.value.deep_view(),
            env: self.env.deep_view(),
            path: self.path.deep_view(),
        }
    }
}

/// One named credential of a credential set.
#[derive(Debug, PartialEq, Eq, Clone)]
pub struct Credential {
    pub name: String,
    pub source: CredentialSource,
}

#[verifier::ext_equal]
pub struct CredentialV {
    pub name: Seq<char>,
    pub source: CredentialSourceV,
}

impl DeepView for Credential {
    type V = CredentialV;

    open spec fn deep_view(&self) -> CredentialV {
        CredentialV { name: self.name@, source: self.source.deep_view() }
    }
}

/// A named, ordered collection of credentials.
#[derive(Debug, PartialEq, Eq, Clone)]
pub struct CredentialSet {
    pub name: String,
    pub credentials: Vec<Credential>,
}

#[verifier::ext_equal]
pub struct CredentialSetV {
    pub name: Seq<char>,
    pub credentials: Seq<CredentialV>,
}

impl DeepView for CredentialSet {
    type V = CredentialSetV;

    open spec fn deep_view(&self) -> CredentialSetV {
        CredentialSetV { name: self.name@, credentials: self.credentials.deep_view() }
    }
}

pub open spec fn spec_source_from(v: JsonV, k: Seq<char>) -> Result<
    CredentialSourceV,
    FormatErrorV,
> {
    match v {
        JsonV::Obj(o) => match spec_opt_str(o, "value"@) {
            Err(e) => Err(e),
            Ok(value) => match spec_opt_str(o, "env"@) {
                Err(e) => Err(e),
                Ok(env) => match spec_opt_str(o, "path"@) {
                    Err(e) => Err(e),
                    Ok(path) => Ok(CredentialSourceV { value, env, path }),
                },
            },
        },
        _ => Err(FormatErrorV::WrongType(k)),
    }
}

fn source_from_json(j: &Json, k: &str) -> (r: Result<CredentialSource, FormatError>)
    ensures
        res_view(r) == spec_source_from(jview(*j), k@),
{
    match j {
        Json::Obj(entries) => {
            let value = match opt_str(entries, "value") {
                Ok(v) => v,
                Err(e) => {
                    return Err(e);
                },
            };
            let env = match opt_str(entries, "env") {
                Ok(v) => v,
                Err(e) => {
                    return Err(e);
                },
            };
            let path = match opt_str(entries, "path") {
                Ok(v) => v,
                Err(e) => {
                    return Err(e);
                },
            };
            Ok(CredentialSource { value, env, path })
        },
        _ => Err(FormatError::WrongType(String::from_str(k))),
    }
}

pub open spec fn spec_credential_entry_from(v: JsonV, k: Seq<char>) -> Result<
    CredentialV,
    FormatErrorV,
> {
    match v {
        JsonV::Obj(o) => match spec_req_str(o, "name"@) {
            Err(e) => Err(e),
            Ok(name) => match obj_get(o, "source"@) {
                None => Err(FormatErrorV::Missing("source"@)),
                Some(sv) => match spec_source_from(sv, "source"@) {
                    Err(e) => Err(e),
                    Ok(source) => Ok(CredentialV { name, source }),
                },
            },
        },
        _ => Err(FormatErrorV::WrongType(k)),
    }
}

fn credential_entry_from_json(j: &Json, k: &str) -> (r: Result<Credential, FormatError>)
    ensures
        res_view(r) == spec_credential_entry_from(jview(*j), k@),
{
    match j {
        Json::Obj(entries) => {
            let name = match req_str(entries, "name") {
                Ok(v) => v,
                Err(e) => {
                    return Err(e);
                },
            };
            let source = match lookup(entries, "source") {
                None => {
                    return Err(FormatError::Missing(String::from_str("source")));
                },
                Some(sj) => match source_from_json(sj, "source") {
                    Ok(v) => v,
                    Err(e) => {
                        return Err(e);
                    },
                },
            };
            Ok(Credential { name, source })
        },
        _ => Err(FormatError::WrongType(String::from_str(k))),
    }
}

/// Reads a credential set out of a JSON tree: a required name and a
/// required, order-preserving list of credentials.
pub open spec fn spec_credentialset_from(v: JsonV) -> Result<CredentialSetV, FormatErrorV> {
    match v {
        JsonV::Obj(o) => match spec_req_str(o, "name"@) {
            Err(e) => Err(e),
            Ok(name) => match obj_get(o, "credentials"@) {
                None => Err(FormatErrorV::Missing("credentials"@)),
                Some(JsonV::Arr(items)) => match spec_entity_list(
                    items,
                    |x: JsonV| spec_credential_entry_from(x, "credentials"@),
                    0,
                ) {
                    Err(e) => Err(e),
                    Ok(credentials) => Ok(CredentialSetV { name, credentials }),
                },
                Some(_) => Err(FormatErrorV::WrongType("credentials"@)),
            },
        },
        _ => Err(FormatErrorV::WrongType("credentialSet"@)),
    }
}

fn credential_list_from_json(items: &Vec<Json>) -> (r: Result<Vec<Credential>, FormatError>)
    ensures
        res_view(r) == spec_entity_list(
            jview_arr(items@),
            (|x: JsonV| spec_credential_entry_from(x, "credentials"@)),
            0,
        ),
{
    let ghost va = jview_arr(items@);
    let ghost f = |x: JsonV| spec_credential_entry_from(x, "credentials"@);
    proof {
        lemma_jview_arr_len(items@);
        assert(f =~= (|x: JsonV| spec_credential_entry_from(x, "credentials"@)));
    }
    let mut out: Vec<Credential> = Vec::new();
    let mut i: usize = 0;
    while i < items.len()
        invariant
            0 <= i <= items@.len(),
            va == jview_arr(items@),
            va.len() == items@.len(),
            f == (|x: JsonV| spec_credential_entry_from(x, "credentials"@)),
            out.deep_view().len() == i,
            (match spec_entity_list(va, f, i as int) {
                Ok(rest) => spec_entity_list(va, f, 0) == Ok::<_, FormatErrorV>(
                    out.deep_view() + rest,
                ),
                Err(e) => spec_entity_list(va, f, 0) == Err::<Seq<CredentialV>, _>(e),
            }),
        decreases items@.len() - i,
    {
        proof {
            lemma_jview_arr_index(items@, i as int);
        }
        match credential_entry_from_json(&items[i], "credentials") {
            Ok(t) => {
                let ghost old_deep = out.deep_view();
                out.push(t);
                proof {
                    assert(out.deep_view() =~= old_deep.push(t.deep_view()));
                    match spec_entity_list(va, f, i + 1) {
                        Ok(rest) => {
                            assert(old_deep + (seq![t.deep_view()] + rest) =~= old_deep.push(
                                t.deep_view(),
                            ) + rest);
                        },
                        Err(_) => {},
                    }
                }
            },
            Err(e) => {
                return Err(e);
            },
        }
        i = i + 1;
    }
    proof {
        assert(out.deep_view() + Seq::<CredentialV>::empty() =~= out.deep_view());
    }
    Ok(out)
}

impl CredentialSet {
    /// Reads a credential set from a JSON tree.
    pub fn from_json_tree(j: &Json) -> (r: Result<CredentialSet, FormatError>)
        ensures
            res_view(r) == spec_credentialset_from(jview(*j)),
    {
        match j {
            Json::Obj(entries) => {
                let name = match req_str(entries, "name") {
                    Ok(v) => v,
                    Err(e) => {
                        return Err(e);
                    },
                };
                let credentials = match lookup(entries, "credentials") {
                    None => {
                        return Err(FormatError::Missing(String::from_str("credentials")));
                    },
                    Some(Json::Arr(items)) => match credential_list_from_json(items) {
                        Ok(v) => v,
                        Err(e) => {
                            return Err(e);
                        },
                    },
                    Some(_) => {
                        return Err(FormatError::WrongType(String::from_str("credentials")));
                    },
                };
                Ok(CredentialSet { name, credentials })
            },
            _ => Err(FormatError::WrongType(String::from_str("credentialSet"))),
        }
    }

    /// Reads a credential set from wire text.
    pub fn from_text(s: &str) -> (r: Result<CredentialSet, FormatError>)
        ensures
            res_view(r) == spec_parse_credentialset(s@),
    {
        match crate::wire::parse_json(s) {
            None => Err(FormatError::Syntax),
            Some(j) => CredentialSet::from_json_tree(&j),
        }
    }
}

/// Reads a credential set from wire text: malformed JSON is a syntax fault.
pub open spec fn spec_parse_credentialset(s: Seq<char>) -> Result<CredentialSetV, FormatErrorV> {
    match crate::wire::spec_parse_json(s) {
        None => Err(FormatErrorV::Syntax),
        Some(v) => spec_credentialset_from(v),
    }
}

} // verus!
