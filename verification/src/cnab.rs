//! The CNAB bundle descriptor model.
//!
//! Every entity is a plain value record; keyed collections are sequences of
//! key/value entries held in ascending key order, which is the canonical
//! order of the wire form.

use vstd::prelude::*;
use crate::json::{jdepth, jwf, str_lt, Json, JsonV};
use crate::version::{Version, VersionV};

verus! {

/// Maintainer describes a bundle maintainer.
#[derive(Debug, PartialEq, Eq, Clone)]
pub struct Maintainer {
    /// The email address of the maintainer
    pub email: Option<String>,
    /// The name of the maintainer
    pub name: String,
    /// A URL with more information about the maintainer
    pub url: Option<String>,
}

#[verifier::ext_equal]
pub struct MaintainerV {
    pub email: Option<Seq<char>>,
    pub name: Seq<char>,
    pub url: Option<Seq<char>>,
}

impl DeepView for Maintainer {
    type V = MaintainerV;

    open spec fn deep_view(&self) -> MaintainerV {
        MaintainerV { email: self.email.deep_view(), name: self.name@, url: self.url.deep_view() }
    }
}

/// Platform defines a machine architecture plus an operating system.
#[derive(Debug, PartialEq, Eq, Clone)]
pub struct Platform {
    /// The architecture; typical values are amd64, i386, and arm64
    pub arch: Option<String>,
    /// The operating system; typical values are darwin, windows, and linux
    pub os: Option<String>,
}

#[verifier::ext_equal]
pub struct PlatformV {
    pub arch: Option<Seq<char>>,
    pub os: Option<Seq<char>>,
}

impl DeepView for Platform {
    type V = PlatformV;

    open spec fn deep_view(&self) -> PlatformV {
        PlatformV { arch: self.arch.deep_view(), os: self.os.deep_view() }
    }
}

/// Image describes a constituent image of the bundle.
#[derive(Debug, PartialEq, Eq, Clone)]
pub struct Image {
    /// A description of the purpose of this image
    pub description: Option<String>,
    /// A cryptographic hash digest of the contents of the image
    pub content_digest: Option<String>,
    /// A resolvable reference to the image
    pub image: String,
    /// The type of image; absence is read as an OCI image
    pub image_type: Option<String>,
    /// The media type of the image
    pub media_type: Option<String>,
    /// The platform this image may be deployed on
    pub platform: Option<Platform>,
    /// The size in bytes of the image
    pub size: Option<i64>,
    /// Key/value pairs identifying attributes of the image
    pub labels: Option<Vec<(String, String)>>,
}

#[verifier::ext_equal]
pub struct ImageV {
    pub description: Option<Seq<char>>,
    pub content_digest: Option<Seq<char>>,
    pub image: Seq<char>,
    pub image_type: Option<Seq<char>>,
    pub media_type: Option<Seq<char>>,
    pub platform: Option<PlatformV>,
    pub size: Option<int>,
    pub labels: Option<Seq<(Seq<char>, Seq<char>)>>,
}

impl DeepView for Image {
    type V = ImageV;

    open spec fn deep_view(&self) -> ImageV {
        ImageV {
            description: self.description.deep_view(),
            content_digest: self.content_digest.deep_view(),
            image: self.image@,
            image_type: self.image_type.deep_view(),
            media_type: self.media_type.deep_view(),
            platform: self.platform.deep_view(),
            size: match self.size {
                Some(n) => Some(n as int),
                None => None,
            },
            labels: self.labels.deep_view(),
        }
    }
}

/// InvocationImage describes a bootstrapping image for the bundle.
#[derive(Debug, PartialEq, Eq, Clone)]
pub struct InvocationImage {
    /// A cryptographic hash digest of the contents of the image
    pub content_digest: Option<String>,
    /// A resolvable reference to the image
    pub image: String,
    /// The type of image; absence is read as an OCI image
    pub image_type: Option<String>,
    /// The media type of the image
    pub media_type: Option<String>,
    /// The size in bytes of the image
    pub size: Option<i64>,
    /// Key/value pairs identifying attributes of the image
    pub labels: Option<Vec<(String, String)>>,
}

#[verifier::ext_equal]
pub struct InvocationImageV {
    pub content_digest: Option<Seq<char>>,
    pub image: Seq<char>,
    pub image_type: Option<Seq<char>>,
    pub media_type: Option<Seq<char>>,
    pub size: Option<int>,
    pub labels: Option<Seq<(Seq<char>, Seq<char>)>>,
}

impl DeepView for InvocationImage {
    type V = InvocationImageV;

    open spec fn deep_view(&self) -> InvocationImageV {
        InvocationImageV {
            content_digest: self.content_digest.deep_view(),
            image: self.image@,
            image_type: self.image_type.deep_view(),
            media_type: self.media_type.deep_view(),
            size: match self.size {
                Some(n) => Some(n as int),
                None => None,
            },
            labels: self.labels.deep_view(),
        }
    }
}

/// Credential describes a credential injected into the invocation image.
#[derive(Debug, PartialEq, Eq, Clone)]
pub struct Credential {
    /// The description of this credential
    pub description: Option<String>,
    /// The environment variable into which the value will be placed
    pub env: Option<String>,
    /// The path into which the value will be placed
    pub path: Option<String>,
    /// Whether this credential must be supplied; absence is read as false
    pub required: Option<bool>,
}

#[verifier::ext_equal]
pub struct CredentialV {
    pub description: Option<Seq<char>>,
    pub env: Option<Seq<char>>,
    pub path: Option<Seq<char>>,
    pub required: Option<bool>,
}

impl DeepView for Credential {
    type V = CredentialV;

    open spec fn deep_view(&self) -> CredentialV {
        CredentialV {
            description: self.description.deep_view(),
            env: self.env.deep_view(),
            path: self.path.deep_view(),
            required: self.required,
        }
    }
}

/// Destination describes where a parameter value is placed: an environment
/// variable, a file path, or both.
#[derive(Debug, PartialEq, Eq, Clone)]
pub struct Destination {
    /// The destination environment variable
    pub env: Option<String>,
    /// The destination file path
    pub path: Option<String>,
}

#[verifier::ext_equal]
pub struct DestinationV {
    pub env: Option<Seq<char>>,
    pub path: Option<Seq<char>>,
}

impl DeepView for Destination {
    type V = DestinationV;

    open spec fn deep_view(&self) -> DestinationV {
        DestinationV { env: self.env.deep_view(), path: self.path.deep_view() }
    }
}

/// Parameter describes a configurable value injected at startup time.
#[derive(Debug, PartialEq, Eq, Clone)]
pub struct Parameter {
    /// The actions this parameter applies to; absence means all actions
    pub apply_to: Option<Vec<String>>,
    /// The name of a definition describing this parameter's schema
    pub definition: Option<String>,
    /// Human-readable description of what this parameter does
    pub description: Option<String>,
    /// Where the value is placed in the invocation image
    pub destination: Destination,
    /// Whether this parameter is required; absence is read as false
    pub required: Option<bool>,
}

#[verifier::ext_equal]
pub struct ParameterV {
    pub apply_to: Option<Seq<Seq<char>>>,
    pub definition: Option<Seq<char>>,
    pub description: Option<Seq<char>>,
    pub destination: DestinationV,
    pub required: Option<bool>,
}

impl DeepView for Parameter {
    type V = ParameterV;

    open spec fn deep_view(&self) -> ParameterV {
        ParameterV {
            apply_to: self.apply_to.deep_view(),
            definition: self.definition.deep_view(),
            description: self.description.deep_view(),
            destination: self.destination.deep_view(),
            required: self.required,
        }
    }
}

/// An Action is a custom operation beyond install, upgrade and uninstall.
#[derive(Debug, PartialEq, Eq, Clone)]
pub struct Action {
    /// Describes what this action does
    pub description: Option<String>,
    /// Whether this action modifies the deployment; absent means false
    pub modifies: bool,
    /// Whether this action needs no state to be injected; absent means false
    pub stateless: bool,
}

#[verifier::ext_equal]
pub struct ActionV {
    pub description: Option<Seq<char>>,
    pub modifies: bool,
    pub stateless: bool,
}

impl DeepView for Action {
    type V = ActionV;

    open spec fn deep_view(&self) -> ActionV {
        ActionV {
            description: self.description.deep_view(),
            modifies: self.modifies,
            stateless: self.stateless,
        }
    }
}

/// Metadata wraps an auxiliary description.
#[derive(Debug, PartialEq, Eq, Clone)]
pub struct Metadata {
    /// A description
    pub description: Option<String>,
}

#[verifier::ext_equal]
pub struct MetadataV {
    pub description: Option<Seq<char>>,
}

impl DeepView for Metadata {
    type V = MetadataV;

    open spec fn deep_view(&self) -> MetadataV {
        MetadataV { description: self.description.deep_view() }
    }
}

/// Output describes a value produced by running the bundle.
#[derive(Debug, PartialEq, Eq, Clone)]
pub struct Output {
    /// An optional exhaustive list of actions producing this output
    pub apply_to: Option<Vec<String>>,
    /// The name of a definition describing this output's schema
    pub definition: String,
    /// Human-readable description of this output
    pub description: Option<String>,
    /// The path inside the invocation image where the output is written
    pub path: Option<String>,
}

#[verifier::ext_equal]
pub struct OutputV {
    pub apply_to: Option<Seq<Seq<char>>>,
    pub definition: Seq<char>,
    pub description: Option<Seq<char>>,
    pub path: Option<Seq<char>>,
}

impl DeepView for Output {
    type V = OutputV;

    open spec fn deep_view(&self) -> OutputV {
        OutputV {
            apply_to: self.apply_to.deep_view(),
            definition: self.definition@,
            description: self.description.deep_view(),
            path: self.path.deep_view(),
        }
    }
}

/// Bundle is the top-level CNAB bundle descriptor.
///
/// The fields stand in canonical (wire-alphabetical) order.
#[derive(Debug, PartialEq)]
pub struct Bundle {
    /// Additional actions this bundle can perform
    pub actions: Option<Vec<(String, Action)>>,
    /// The configurable credentials
    pub credentials: Option<Vec<(String, Credential)>>,
    /// Additional data, opaque to the specification
    pub custom: Option<Vec<(String, Json)>>,
    /// Schemata describing parameters and outputs
    pub definitions: Option<Vec<(String, Json)>>,
    /// A short description of this bundle
    pub description: Option<String>,
    /// The images that comprise this bundle
    pub images: Option<Vec<(String, Image)>>,
    /// The available bootstrapping images for this bundle
    pub invocation_images: Vec<InvocationImage>,
    /// Keywords describing this bundle
    pub keywords: Option<Vec<String>>,
    /// The SPDX license identifier of this bundle
    pub license: Option<String>,
    /// The maintainers responsible for this bundle
    pub maintainers: Option<Vec<Maintainer>>,
    /// The name of the bundle
    pub name: String,
    /// The outputs this bundle produces
    pub outputs: Option<Vec<(String, Output)>>,
    /// The parameters that can be passed into this bundle
    pub parameters: Option<Vec<(String, Parameter)>>,
    /// The version of the specification this descriptor conforms to
    pub schema_version: String,
    /// The version of the bundle
    pub version: Version,
}

#[verifier::ext_equal]
pub struct BundleV {
    pub actions: Option<Seq<(Seq<char>, ActionV)>>,
    pub credentials: Option<Seq<(Seq<char>, CredentialV)>>,
    pub custom: Option<Seq<(Seq<char>, JsonV)>>,
    pub definitions: Option<Seq<(Seq<char>, JsonV)>>,
    pub description: Option<Seq<char>>,
    pub images: Option<Seq<(Seq<char>, ImageV)>>,
    pub invocation_images: Seq<InvocationImageV>,
    pub keywords: Option<Seq<Seq<char>>>,
    pub license: Option<Seq<char>>,
    pub maintainers: Option<Seq<MaintainerV>>,
    pub name: Seq<char>,
    pub outputs: Option<Seq<(Seq<char>, OutputV)>>,
    pub parameters: Option<Seq<(Seq<char>, ParameterV)>>,
    pub schema_version: Seq<char>,
    pub version: VersionV,
}

impl DeepView for Bundle {
    type V = BundleV;

    open spec fn deep_view(&self) -> BundleV {
        BundleV {
            actions: self.actions.deep_view(),
            credentials: self.credentials.deep_view(),
            custom: self.custom.deep_view(),
            definitions: self.definitions.deep_view(),
            description: self.description.deep_view(),
            images: self.images.deep_view(),
            invocation_images: self.invocation_images.deep_view(),
            keywords: self.keywords.deep_view(),
            license: self.license.deep_view(),
            maintainers: self.maintainers.deep_view(),
            name: self.name@,
            outputs: self.outputs.deep_view(),
            parameters: self.parameters.deep_view(),
            schema_version: self.schema_version@,
            version: self.version.deep_view(),
        }
    }
}

/// A structural fault in a descriptor document.
#[derive(Debug, PartialEq, Eq, Clone)]
pub enum FormatError {
    /// The text is not well-formed JSON
    Syntax,
    /// A required field is absent; holds the wire key
    Missing(String),
    /// A field does not have the shape the model asks of it; holds the wire
    /// key
    WrongType(String),
    /// The bundle's version is not a semantic version
    Version,
}

#[verifier::ext_equal]
pub enum FormatErrorV {
    Syntax,
    Missing(Seq<char>),
    WrongType(Seq<char>),
    Version,
}

impl DeepView for FormatError {
    type V = FormatErrorV;

    open spec fn deep_view(&self) -> FormatErrorV {
        match self {
            FormatError::Syntax => FormatErrorV::Syntax,
            FormatError::Missing(k) => FormatErrorV::Missing(k@),
            FormatError::WrongType(k) => FormatErrorV::WrongType(k@),
            FormatError::Version => FormatErrorV::Version,
        }
    }
}

// ---------------------------------------------------------------------------
// Well-formedness
// ---------------------------------------------------------------------------

/// The keys of a keyed collection are strictly ascending, hence unique.
pub open spec fn map_keys_sorted<T>(m: Seq<(Seq<char>, T)>) -> bool {
    forall|i: int, j: int|
        0 <= i < j < m.len() ==> str_lt(#[trigger] m[i].0, #[trigger] m[j].0)
}

pub open spec fn opt_map_sorted<T>(m: Option<Seq<(Seq<char>, T)>>) -> bool {
    match m {
        Some(s) => map_keys_sorted(s),
        None => true,
    }
}

/// A collection of opaque JSON values: keys sorted, every value well-formed
/// and nested shallowly enough to stand inside a descriptor document.
pub open spec fn json_map_wf(m: Seq<(Seq<char>, JsonV)>) -> bool {
    &&& map_keys_sorted(m)
    &&& forall|i: int|
        0 <= i < m.len() ==> jwf((#[trigger] m[i]).1) && jdepth(m[i].1) <= 125
}

pub open spec fn size_in_range(s: Option<int>) -> bool {
    match s {
        Some(n) => i64::MIN <= n <= i64::MAX,
        None => true,
    }
}

pub open spec fn image_wf(v: ImageV) -> bool {
    opt_map_sorted(v.labels) && size_in_range(v.size)
}

pub open spec fn invocation_image_wf(v: InvocationImageV) -> bool {
    opt_map_sorted(v.labels) && size_in_range(v.size)
}

/// A well-formed bundle: every keyed collection is in ascending key order,
/// and the opaque custom/definitions values are well-formed JSON.  A parsed
/// bundle is well-formed, and only well-formed bundles are written out.
pub open spec fn bundle_wf(b: BundleV) -> bool {
    &&& opt_map_sorted(b.actions)
    &&& opt_map_sorted(b.credentials)
    &&& (match b.custom {
        Some(m) => json_map_wf(m),
        None => true,
    })
    &&& (match b.definitions {
        Some(m) => json_map_wf(m),
        None => true,
    })
    &&& opt_map_sorted(b.images)
    &&& (match b.images {
        Some(m) => forall|i: int| 0 <= i < m.len() ==> image_wf((#[trigger] m[i]).1),
        None => true,
    })
    &&& forall|i: int|
        0 <= i < b.invocation_images.len() ==> invocation_image_wf(
            #[trigger] b.invocation_images[i],
        )
    &&& opt_map_sorted(b.outputs)
    &&& opt_map_sorted(b.parameters)
}

impl Bundle {
    /// Whether this bundle is well-formed; see [`bundle_wf`].
    pub open spec fn wf(&self) -> bool {
        bundle_wf(self.deep_view())
    }
}

impl Parameter {
    /// Whether this parameter must be supplied; an absent flag reads as
    /// not required.
    pub fn is_required(&self) -> (r: bool)
        ensures
            r == (self.required.deep_view() == Some(true)),
    {
        match self.required {
            Some(b) => b,
            None => false,
        }
    }
}

impl Credential {
    /// Whether this credential must be supplied; an absent flag reads as
    /// not required.
    pub fn is_required(&self) -> (r: bool)
        ensures
            r == (self.required.deep_view() == Some(true)),
    {
        match self.required {
            Some(b) => b,
            None => false,
        }
    }
}

impl Image {
    /// The image type, with an absent field read as an OCI image.
    pub fn image_type_or_default(&self) -> (r: String)
        ensures
            r@ == (match self.image_type {
                Some(s) => s@,
                None => "oci"@,
            }),
    {
        match &self.image_type {
            Some(s) => s.clone(),
            None => String::from_str("oci"),
        }
    }
}

impl InvocationImage {
    /// The image type, with an absent field read as an OCI image.
    pub fn image_type_or_default(&self) -> (r: String)
        ensures
            r@ == (match self.image_type {
                Some(s) => s@,
                None => "oci"@,
            }),
    {
        match &self.image_type {
            Some(s) => s.clone(),
            None => String::from_str("oci"),
        }
    }
}

} // verus!
