//! The claim record: the outcome of running a bundle, as the adjacent
//! claims format describes it, layered over the descriptor model.

use vstd::prelude::*;
use crate::cnab::{Bundle, BundleV, FormatError, FormatErrorV};
use crate::json::{jview, jview_obj, obj_get, Json, JsonV, lookup, deep_copy};
use crate::parse::{opt_str, opt_str_map, req_str, res_view, spec_opt_str, spec_opt_str_map,
    spec_req_str, spec_bundle_from};

verus! {

broadcast use vstd::std_specs::vec::group_vec_axioms, vstd::seq::group_seq_axioms;

/// Status is one of success, failure, or pending.
#[derive(Debug, PartialEq, Eq, Clone, Copy)]
pub enum Status {
    Success,
    Failure,
    Pending,
}

impl DeepView for Status {
    type V = Status;

    open spec fn deep_view(&self) -> Status {
        *self
    }
}

/// Response represents the result of an operation, as described in a claim.
#[derive(Debug, PartialEq, Eq, Clone)]
pub struct Response {
    /// The action that was run
    pub action: String,
    /// A human-readable message about the outcome
    pub message: Option<String>,
    /// The outcome itself
    pub status: Status,
}

#[verifier::ext_equal]
pub struct ResponseV {
    pub action: Seq<char>,
    pub message: Option<Seq<char>>,
    pub status: Status,
}

impl DeepView for Response {
    type V = ResponseV;

    open spec fn deep_view(&self) -> ResponseV {
        ResponseV {
            action: self.action@,
            message: self.message.deep_view(),
            status: self.status,
        }
    }
}

/// A claim: a bundle descriptor together with the record of a run.
///
/// The two timestamps are held as their RFC 3339 wire text, checked by the
/// time collaborator at parse time.
#[derive(Debug, PartialEq)]
pub struct Claim {
    /// The bundle descriptor
    pub bundle: Bundle,
    /// Creation date, as RFC 3339 text
    pub created: String,
    /// Extension space
    pub custom: Option<Json>,
    /// Modification date, as RFC 3339 text
    pub modified: String,
    /// The name of the claim, e.g. the release name
    pub name: String,
    /// Name/value pairs for the outputs of the run
    pub outputs: Option<Vec<(String, String)>>,
    /// Name/value pairs for the parameter values of the run
    pub parameters: Option<Vec<(String, String)>>,
    /// The result according to the runtime
    pub result: Response,
    /// An identifier tracking the revision
    pub revision: String,
    /// A canonical reference to the bundle used in the last action
    pub bundle_reference: Option<String>,
}

#[verifier::ext_equal]
pub struct ClaimV {
    pub bundle: BundleV,
    pub created: Seq<char>,
    pub custom: Option<JsonV>,
    pub modified: Seq<char>,
    pub name: Seq<char>,
    pub outputs: Option<Seq<(Seq<char>, Seq<char>)>>,
    pub parameters: Option<Seq<(Seq<char>, Seq<char>)>>,
    pub result: ResponseV,
    pub revision: Seq<char>,
    pub bundle_reference: Option<Seq<char>>,
}

impl DeepView for Claim {
    type V = ClaimV;

    open spec fn deep_view(&self) -> ClaimV {
        ClaimV {
            bundle: self.bundle.deep_view(),
            created: self.created@,
            custom: self.custom.deep_view(),
            modified: self.modified@,
            name: self.name@,
            outputs: self.outputs.deep_view(),
            parameters: self.parameters.deep_view(),
            result: self.result.deep_view(),
            revision: self.revision@,
            bundle_reference: self.bundle_reference.deep_view(),
        }
    }
}

/// Whether the time collaborator accepts text as an RFC 3339 date-time; a
/// function of the text alone.
pub uninterp spec fn spec_datetime_ok(s: Seq<char>) -> bool;

/// Decides whether text is an RFC 3339 date-time.
///
/// Relies on `chrono::DateTime::parse_from_rfc3339`, whose acceptance
/// depends on the text alone.
#[verifier::external_body]
fn datetime_ok(s: &str) -> (r: bool)
    ensures
        r == spec_datetime_ok(s@),
{
    chrono::DateTime::parse_from_rfc3339(s).is_ok()
}

/// A required RFC 3339 date-time field, kept as its wire text.
pub open spec fn spec_datetime_field(o: Seq<(Seq<char>, JsonV)>, k: Seq<char>) -> Result<
    Seq<char>,
    FormatErrorV,
> {
    match spec_req_str(o, k) {
        Err(e) => Err(e),
        Ok(s) => if spec_datetime_ok(s) {
            Ok(s)
        } else {
            Err(FormatErrorV::WrongType(k))
        },
    }
}

fn datetime_field(entries: &Vec<(String, Json)>, k: &str) -> (r: Result<String, FormatError>)
    ensures
        res_view(r) == spec_datetime_field(jview_obj(entries@), k@),
{
    match req_str(entries, k) {
        Err(e) => Err(e),
        Ok(s) => {
            if datetime_ok(s.as_str()) {
                Ok(s)
            } else {
                Err(FormatError::WrongType(String::from_str(k)))
            }
        },
    }
}

/// Reads a [`Response`]; the status vocabulary is closed.
pub open spec fn spec_response_from(v: JsonV, k: Seq<char>) -> Result<ResponseV, FormatErrorV> {
    match v {
        JsonV::Obj(o) => match spec_req_str(o, "action"@) {
            Err(e) => Err(e),
            Ok(action) => match spec_opt_str(o, "message"@) {
                Err(e) => Err(e),
                Ok(message) => match spec_req_str(o, "status"@) {
                    Err(e) => Err(e),
                    Ok(st) => if st == "success"@ {
                        Ok(ResponseV { action, message, status: Status::Success })
                    } else if st == "failure"@ {
                        Ok(ResponseV { action, message, status: Status::Failure })
                    } else if st == "pending"@ {
                        Ok(ResponseV { action, message, status: Status::Pending })
                    } else {
                        Err(FormatErrorV::WrongType("status"@))
                    },
                },
            },
        },
        _ => Err(FormatErrorV::WrongType(k)),
    }
}

pub fn response_from_json(j: &Json, k: &str) -> (r: Result<Response, FormatError>)
    ensures
        res_view(r) == spec_response_from(jview(*j), k@),
{
    match j {
        Json::Obj(entries) => {
            let action = match req_str(entries, "action") {
                Ok(v) => v,
                Err(e) => {
                    return Err(e);
                },
            };
            let message = match opt_str(entries, "message") {
                Ok(v) => v,
                Err(e) => {
                    return Err(e);
                },
            };
            let st = match req_str(entries, "status") {
                Ok(v) => v,
                Err(e) => {
                    return Err(e);
                },
            };
            let status = if st == String::from_str("success") {
                Status::Success
            } else if st == String::from_str("failure") {
                Status::Failure
            } else if st == String::from_str("pending") {
                Status::Pending
            } else {
                return Err(FormatError::WrongType(String::from_str("status")));
            };
            Ok(Response { action, message, status })
        },
        _ => Err(FormatError::WrongType(String::from_str(k))),
    }
}

/// Reads a claim out of a JSON tree.
pub open spec fn spec_claim_from(v: JsonV) -> Result<ClaimV, FormatErrorV> {
    match v {
        JsonV::Obj(o) => match obj_get(o, "bundle"@) {
            None => Err(FormatErrorV::Missing("bundle"@)),
            Some(bv) => match spec_bundle_from(bv) {
                Err(e) => Err(e),
                Ok(bundle) => match spec_datetime_field(o, "created"@) {
                    Err(e) => Err(e),
                    Ok(created) => match spec_claim_custom(o) {
                        Err(e) => Err(e),
                        Ok(custom) => match spec_datetime_field(o, "modified"@) {
                            Err(e) => Err(e),
                            Ok(modified) => match spec_req_str(o, "name"@) {
                                Err(e) => Err(e),
                                Ok(name) => match spec_opt_str_map(o, "outputs"@) {
                                    Err(e) => Err(e),
                                    Ok(outputs) => match spec_opt_str_map(o, "parameters"@) {
                                        Err(e) => Err(e),
                                        Ok(parameters) => match obj_get(o, "result"@) {
                                            None => Err(FormatErrorV::Missing("result"@)),
                                            Some(rv) => match spec_response_from(rv, "result"@) {
                                                Err(e) => Err(e),
                                                Ok(result) => match spec_req_str(o, "revision"@) {
                                                    Err(e) => Err(e),
                                                    Ok(revision) => match spec_opt_str(
                                                        o,
                                                        "bundleReference"@,
                                                    ) {
                                                        Err(e) => Err(e),
                                                        Ok(bundle_reference) => Ok(
                                                            ClaimV {
                                                                bundle,
                                                                created,
                                                                custom,
                                                                modified,
                                                                name,
                                                                outputs,
                                                                parameters,
                                                                result,
                                                                revision,
                                                                bundle_reference,
                                                            },
                                                        ),
                                                    },
                                                },
                                            },
                                        },
                                    },
                                },
                            },
                        },
                    },
                },
            },
        },
        _ => Err(FormatErrorV::WrongType("claim"@)),
    }
}

/// The claim's extension space: any JSON value, carried through opaquely.
pub open spec fn spec_claim_custom(o: Seq<(Seq<char>, JsonV)>) -> Result<
    Option<JsonV>,
    FormatErrorV,
> {
    match obj_get(o, "custom"@) {
        None => Ok(None),
        Some(JsonV::Null) => Ok(None),
        Some(v) => Ok(Some(v)),
    }
}

impl Claim {
    /// Reads a claim from a JSON tree.
    pub fn from_json_tree(j: &Json) -> (r: Result<Claim, FormatError>)
        ensures
            res_view(r) == spec_claim_from(jview(*j)),
    {
        match j {
            Json::Obj(entries) => {
                let bundle = match lookup(entries, "bundle") {
                    None => {
                        return Err(FormatError::Missing(String::from_str("bundle")));
                    },
                    Some(bj) => match Bundle::from_json_tree(bj) {
                        Ok(v) => v,
                        Err(e) => {
                            return Err(e);
                        },
                    },
                };
                let created = match datetime_field(entries, "created") {
                    Ok(v) => v,
                    Err(e) => {
                        return Err(e);
                    },
                };
                let custom = match lookup(entries, "custom") {
                    None => None,
                    Some(Json::Null) => None,
                    Some(v) => Some(deep_copy(v)),
                };
                let modified = match datetime_field(entries, "modified") {
                    Ok(v) => v,
                    Err(e) => {
                        return Err(e);
                    },
                };
                let name = match req_str(entries, "name") {
                    Ok(v) => v,
                    Err(e) => {
                        return Err(e);
                    },
                };
                let outputs = match opt_str_map(entries, "outputs") {
                    Ok(v) => v,
                    Err(e) => {
                        return Err(e);
                    },
                };
                let parameters = match opt_str_map(entries, "parameters") {
                    Ok(v) => v,
                    Err(e) => {
                        return Err(e);
                    },
                };
                let result = match lookup(entries, "result") {
                    None => {
                        return Err(FormatError::Missing(String::from_str("result")));
                    },
                    Some(rj) => match response_from_json(rj, "result") {
                        Ok(v) => v,
                        Err(e) => {
                            return Err(e);
                        },
                    },
                };
                let revision = match req_str(entries, "revision") {
                    Ok(v) => v,
                    Err(e) => {
                        return Err(e);
                    },
                };
                let bundle_reference = match opt_str(entries, "bundleReference") {
                    Ok(v) => v,
                    Err(e) => {
                        return Err(e);
                    },
                };
                Ok(
                    Claim {
                        bundle,
                        created,
                        custom,
                        modified,
                        name,
                        outputs,
                        parameters,
                        result,
                        revision,
                        bundle_reference,
                    },
                )
            },
            _ => Err(FormatError::WrongType(String::from_str("claim"))),
        }
    }

    /// Reads a claim from wire text.
    pub fn from_text(s: &str) -> (r: Result<Claim, FormatError>)
        ensures
            res_view(r) == spec_parse_claim(s@),
    {
        match crate::wire::parse_json(s) {
            None => Err(FormatError::Syntax),
            Some(j) => Claim::from_json_tree(&j),
        }
    }
}

/// Reads a claim from wire text: malformed JSON is a syntax fault.
pub open spec fn spec_parse_claim(s: Seq<char>) -> Result<ClaimV, FormatErrorV> {
    match crate::wire::spec_parse_json(s) {
        None => Err(FormatErrorV::Syntax),
        Some(v) => spec_claim_from(v),
    }
}

} // verus!
