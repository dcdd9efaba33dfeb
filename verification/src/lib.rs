//! A schema-faithful data model for CNAB bundle descriptors, with a verified
//! mapping between the JSON wire form and the typed in-memory representation.

pub mod claim;
pub mod cnab;
pub mod credentialset;
pub mod json;
pub mod laws;
pub mod num;
pub mod parse;
pub mod ser;
pub mod version;
pub mod wire;

pub use claim::{Claim, Response, Status};
pub use cnab::{Action, Bundle, Credential, Destination, FormatError, Image, InvocationImage,
    Maintainer, Metadata, Output, Parameter, Platform};
pub use credentialset::CredentialSet;
pub use json::Json;
pub use version::Version;
