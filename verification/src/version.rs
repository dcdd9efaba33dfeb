//! The bundle's own version: a parsed semantic version.
//!
//! Reading version text is the work of the `semver` collaborator; writing a
//! version back out is plain notation and is verified here.

use vstd::prelude::*;
use vstd::string::*;
use crate::num::{spec_u64_dec, u64_to_dec};

verus! {

/// A parsed semantic version: `major.minor.patch`, with optional prerelease
/// and build-metadata identifiers (empty strings where absent).
#[derive(Debug, PartialEq, Eq, Clone)]
pub struct Version {
    pub major: u64,
    pub minor: u64,
    pub patch: u64,
    pub pre: String,
    pub build: String,
}

/// The mathematical model of a version.
#[verifier::ext_equal]
pub struct VersionV {
    pub major: int,
    pub minor: int,
    pub patch: int,
    pub pre: Seq<char>,
    pub build: Seq<char>,
}

impl DeepView for Version {
    type V = VersionV;

    open spec fn deep_view(&self) -> VersionV {
        VersionV {
            major: self.major as int,
            minor: self.minor as int,
            patch: self.patch as int,
            pre: self.pre@,
            build: self.build@,
        }
    }
}

impl Version {
    /// A plain `major.minor.patch` version without prerelease or build
    /// metadata.
    pub fn new(major: u64, minor: u64, patch: u64) -> (r: Version)
        ensures
            r.deep_view() == (VersionV {
                major: major as int,
                minor: minor as int,
                patch: patch as int,
                pre: Seq::<char>::empty(),
                build: Seq::<char>::empty(),
            }),
    {
        Version { major, minor, patch, pre: String::new(), build: String::new() }
    }
}

/// What the `semver` collaborator makes of version text: the parsed
/// components, or `None` where the text does not conform to semantic
/// versioning; a function of the text alone.
pub uninterp spec fn spec_parse_semver(s: Seq<char>) -> Option<VersionV>;

/// Parses version text.
///
/// Relies on `semver::Version::parse`, whose result depends on the text
/// alone; the prerelease and build identifiers come back as the literal text
/// that stood after `-` and `+`.
#[verifier::external_body]
pub fn parse_semver(s: &str) -> (r: Option<Version>)
    ensures
        r.deep_view() == spec_parse_semver(s@),
{
    match semver::Version::parse(s) {
        Ok(v) => Some(
            Version {
                major: v.major,
                minor: v.minor,
                patch: v.patch,
                pre: v.pre.as_str().to_string(),
                build: v.build.as_str().to_string(),
            },
        ),
        Err(_) => None,
    }
}

/// The written form of a version: `major.minor.patch`, `-` and the
/// prerelease where one is present, `+` and the build metadata where present.
pub open spec fn spec_version_chars(v: VersionV) -> Seq<char> {
    spec_u64_dec(v.major) + seq!['.'] + spec_u64_dec(v.minor) + seq!['.'] + spec_u64_dec(v.patch)
        + (if v.pre.len() > 0 {
        seq!['-'] + v.pre
    } else {
        Seq::empty()
    }) + (if v.build.len() > 0 {
        seq!['+'] + v.build
    } else {
        Seq::empty()
    })
}

/// Writes a version in its canonical notation.
pub fn version_string(v: &Version) -> (r: String)
    ensures
        r@ == spec_version_chars(v.deep_view()),
{
    let mut s = u64_to_dec(v.major);
    s.append(".");
    let minor = u64_to_dec(v.minor);
    s.append(minor.as_str());
    s.append(".");
    let patch = u64_to_dec(v.patch);
    s.append(patch.as_str());
    if !v.pre.as_str().is_empty() {
        s.append("-");
        s.append(v.pre.as_str());
    }
    if !v.build.as_str().is_empty() {
        s.append("+");
        s.append(v.build.as_str());
    }
    proof {
        reveal_strlit(".");
        reveal_strlit("-");
        reveal_strlit("+");
        assert(s@ =~= spec_version_chars(v.deep_view()));
    }
    s
}

/// That re-reading the written form of a version yields the version back.
/// This holds of every version the parser produced, and of ordinary
/// hand-built ones, but only the collaborator can answer for a given value.
pub open spec fn version_roundtrip_ok(v: VersionV) -> bool {
    spec_parse_semver(spec_version_chars(v)) == Some(v)
}

/// Decides [`version_roundtrip_ok`] for a given version, by writing it out
/// and reading it back.
pub fn version_roundtrips(v: &Version) -> (r: bool)
    ensures
        r == version_roundtrip_ok(v.deep_view()),
{
    let s = version_string(v);
    match parse_semver(s.as_str()) {
        Some(w) => {
            let same = w.major == v.major && w.minor == v.minor && w.patch == v.patch && w.pre
                == v.pre && w.build == v.build;
            proof {
                if same {
                    assert(w.deep_view() =~= v.deep_view());
                } else {
                    assert(w.deep_view() != v.deep_view());
                }
            }
            same
        },
        None => false,
    }
}

} // verus!
