//! Round trips, defaulting, and the faults each bad document earns.

use libcnab::cnab::{Action, Bundle, Credential, Destination, FormatError, InvocationImage,
    Parameter};
use libcnab::{Json, Version};

fn minimal(name: &str) -> Bundle {
    Bundle {
        actions: None,
        credentials: None,
        custom: None,
        definitions: None,
        description: None,
        images: None,
        invocation_images: Vec::new(),
        keywords: None,
        license: None,
        maintainers: None,
        name: name.to_string(),
        outputs: None,
        parameters: None,
        schema_version: "1.0.0".to_string(),
        version: Version::new(1, 0, 0),
    }
}

// A directly constructed bundle, written out and read back, comes back equal
// in every field, with absent and empty collections kept apart.
#[test]
fn test_roundtrip_direct() {
    let mut b = minimal("aristotle");
    b.description = Some("a bundle".to_string());
    b.keywords = Some(vec!["a".to_string(), "b".to_string()]);
    b.actions = Some(vec![(
        "help".to_string(),
        Action { description: Some("prints help".to_string()), modifies: false, stateless: true },
    )]);
    b.credentials = Some(vec![(
        "token".to_string(),
        Credential {
            description: None,
            env: Some("TOKEN".to_string()),
            path: None,
            required: Some(true),
        },
    )]);
    b.parameters = Some(vec![(
        "arg1".to_string(),
        Parameter {
            apply_to: Some(vec!["install".to_string()]),
            definition: Some("somedef".to_string()),
            description: None,
            destination: Destination { env: Some("FIRST".to_string()), path: None },
            required: None,
        },
    )]);
    b.custom = Some(vec![(
        "com.example.praxis".to_string(),
        Json::Obj(vec![("techne".to_string(), Json::Bool(true))]),
    )]);
    b.invocation_images = vec![InvocationImage {
        content_digest: None,
        image: "nginx:latest".to_string(),
        image_type: Some("oci".to_string()),
        media_type: None,
        size: Some(1_234_567_890),
        labels: None,
    }];

    let text = b.to_text();
    let back = Bundle::from_text(&text).expect("written text reads back");
    assert_eq!(back, b);
}

// An empty collection and an absent one are different states and survive the
// round trip as such.
#[test]
fn test_roundtrip_empty_vs_absent() {
    let mut with_empty = minimal("aristotle");
    with_empty.keywords = Some(Vec::new());
    with_empty.actions = Some(Vec::new());
    let back = Bundle::from_text(&with_empty.to_text()).unwrap();
    assert_eq!(back, with_empty);
    assert_eq!(back.keywords, Some(Vec::new()));
    assert_eq!(back.actions, Some(Vec::new()));

    let without = minimal("aristotle");
    let back2 = Bundle::from_text(&without.to_text()).unwrap();
    assert!(back2.keywords.is_none());
    assert!(back2.actions.is_none());
}

// A parsed document with opaque custom values — a float among them — writes
// back out and reads again without loss.
#[test]
fn test_roundtrip_parsed_custom() {
    let doc = r#"{
        "name": "aristotle",
        "invocationImages": [],
        "schemaVersion": "1.0.0",
        "version": "1.0.0",
        "custom": {
            "com.example.praxis": {
                "ratio": 1.5,
                "tags": ["x", null, -3]
            }
        }
    }"#;
    let b1 = Bundle::from_text(doc).expect("document parses");
    let text = b1.to_text();
    let b2 = Bundle::from_text(&text).expect("written text reads back");
    assert_eq!(b1, b2);
    assert!(b1.custom.is_some());
}

// A version that is not semantic-version-shaped fails with the fault that
// names the version field.
#[test]
fn test_version_rejected() {
    let doc = r#"{
        "name": "aristotle",
        "invocationImages": [],
        "schemaVersion": "1.0.0",
        "version": "abc"
    }"#;
    assert_eq!(Bundle::from_text(doc), Err(FormatError::Version));
}

// Omitted flags read as unset; explicit values are kept.
#[test]
fn test_defaulting() {
    let doc = r#"{
        "name": "aristotle",
        "invocationImages": [],
        "schemaVersion": "1.0.0",
        "version": "1.0.0",
        "actions": {
            "bare": {},
            "set": { "modifies": true, "stateless": false }
        },
        "credentials": {
            "bare": {},
            "set": { "required": true }
        }
    }"#;
    let b = Bundle::from_text(doc).unwrap();
    let actions = b.actions.unwrap();
    let bare = &actions.iter().find(|e| e.0 == "bare").unwrap().1;
    assert!(!bare.modifies);
    assert!(!bare.stateless);
    let set = &actions.iter().find(|e| e.0 == "set").unwrap().1;
    assert!(set.modifies);
    assert!(!set.stateless);
    let creds = b.credentials.unwrap();
    let bare_c = &creds.iter().find(|e| e.0 == "bare").unwrap().1;
    assert!(bare_c.required.is_none());
    assert!(!bare_c.is_required());
    let set_c = &creds.iter().find(|e| e.0 == "set").unwrap().1;
    assert!(set_c.is_required());
}

// Each structural fault is reported as itself.
#[test]
fn test_error_variants() {
    assert_eq!(Bundle::from_text("{hello"), Err(FormatError::Syntax));
    assert_eq!(Bundle::from_text("[1, 2]"), Err(FormatError::WrongType("bundle".to_string())));
    assert_eq!(
        Bundle::from_text(r#"{"invocationImages": [], "schemaVersion": "1", "version": "1.0.0"}"#),
        Err(FormatError::Missing("name".to_string()))
    );
    assert_eq!(
        Bundle::from_text(
            r#"{"name": 7, "invocationImages": [], "schemaVersion": "1", "version": "1.0.0"}"#
        ),
        Err(FormatError::WrongType("name".to_string()))
    );
    assert_eq!(
        Bundle::from_text(r#"{"name": "a", "schemaVersion": "1", "version": "1.0.0"}"#),
        Err(FormatError::Missing("invocationImages".to_string()))
    );
    // a fractional size does not fit the integral size field
    assert_eq!(
        Bundle::from_text(
            r#"{
            "name": "a",
            "invocationImages": [ { "image": "i", "size": 1.5 } ],
            "schemaVersion": "1",
            "version": "1.0.0"
        }"#
        ),
        Err(FormatError::WrongType("size".to_string()))
    );
    // an explicit null stands for an absent optional field
    let b = Bundle::from_text(
        r#"{
        "name": "a",
        "description": null,
        "keywords": null,
        "invocationImages": [],
        "schemaVersion": "1",
        "version": "1.0.0"
    }"#,
    )
    .unwrap();
    assert!(b.description.is_none());
    assert!(b.keywords.is_none());
}

// The version collaborator's reading and the library's writing agree.
#[test]
fn test_version_notation() {
    assert_eq!(libcnab::version::version_string(&Version::new(1, 2, 3)), "1.2.3");
    let v = Version {
        major: 10,
        minor: 0,
        patch: 7,
        pre: "alpha.1".to_string(),
        build: "b5".to_string(),
    };
    assert_eq!(libcnab::version::version_string(&v), "10.0.7-alpha.1+b5");
    let w = libcnab::version::parse_semver("10.0.7-alpha.1+b5").expect("version text parses");
    assert_eq!(w, v);
    assert!(libcnab::version::parse_semver("abc").is_none());
    assert!(libcnab::version::parse_semver("1.0").is_none());
    assert!(libcnab::version::version_roundtrips(&v));
}

// A number node can be built only from a lexeme the wire reader hands back
// unchanged.
#[test]
fn test_number_nodes() {
    assert!(Json::num("1.5").is_some());
    assert!(Json::num("-12").is_some());
    assert!(Json::num("01").is_none());
    assert!(Json::num("nope").is_none());
    assert_eq!(Json::num("7"), Some(Json::Num("7".to_string())));
}

// A claim whose timestamps are not RFC 3339 is refused.
#[test]
fn test_claim_bad_timestamp() {
    let doc = r#"{
        "name": "claimtest",
        "bundle": {
            "name": "a",
            "invocationImages": [],
            "schemaVersion": "1",
            "version": "1.0.0"
        },
        "created": "yesterday",
        "modified": "2018-08-30T20:39:55.549002887-06:00",
        "result": { "action": "install", "status": "success" },
        "revision": "01CP6XM0KVB9V1BQDZ9NK8VP29"
    }"#;
    assert_eq!(
        libcnab::Claim::from_text(doc),
        Err(FormatError::WrongType("created".to_string()))
    );
}
