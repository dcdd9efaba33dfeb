//! The descriptor examples the library must read, and what it must find in
//! them.

use libcnab::{Bundle, Version};

fn get<'a, T>(m: &'a [(String, T)], k: &str) -> Option<&'a T> {
    for e in m.iter() {
        if e.0 == k {
            return Some(&e.1);
        }
    }
    None
}

// Testing that we can build one with only the minimal fields.
#[test]
fn test_bundle_simple() {
    let bun: Bundle = Bundle::from_text(
        r#"{
        "name": "aristotle",
        "invocationImages": [],
        "schemaVersion": "1.0",
        "version": "1.0.0"
    }"#,
    )
    .unwrap();

    assert_eq!(bun.name, "aristotle".to_string());
    assert_eq!(bun.schema_version, "1.0".to_string());
    assert_eq!(bun.version, Version::new(1, 0, 0));
    assert_eq!(bun.invocation_images.len(), 0);
    assert!(bun.keywords.is_none());
    assert!(bun.parameters.is_none());
}

// Test keywords
#[test]
fn test_bundle_keywords() {
    let bun: Bundle = Bundle::from_text(
        r#"{
        "name": "aristotle",
        "invocationImages": [],
        "schemaVersion": "1.0",
        "version": "1.0.0",
        "keywords": ["a", "b", "c"]
    }"#,
    )
    .unwrap();

    assert_eq!(bun.name, "aristotle".to_string());
    assert_eq!(bun.schema_version, "1.0".to_string());
    assert_eq!(bun.version, Version::new(1, 0, 0));
    assert_eq!(bun.invocation_images.len(), 0);

    let kw = &bun.keywords.unwrap();
    assert_eq!(kw.len(), 3);
    assert_eq!(kw[0], "a".to_string());
    assert_eq!(kw[1], "b".to_string());
    assert_eq!(kw[2], "c".to_string());
}

#[test]
fn test_bundle_actions() {
    let bun: Bundle = Bundle::from_text(
        r#"{
        "name": "aristotle",
        "invocationImages": [],
        "schemaVersion": "1.0",
        "version": "1.0.0",
        "actions": {
            "my_action": {
                "modifies": true,
                "stateless": true,
                "description": "a custom action"
            }
        }
    }"#,
    )
    .unwrap();

    let actions = bun.actions;
    assert!(actions.is_some());
    let action_map = actions.unwrap();
    let my_action = get(&action_map, "my_action");
    assert!(my_action.is_some());
    let my_action = my_action.unwrap();
    assert_eq!(my_action.description, Some("a custom action".to_string()));
    assert!(my_action.modifies);
    assert!(my_action.stateless);
}

// Test parameters
#[test]
fn test_bundle_parameters() {
    let bun: Bundle = Bundle::from_text(
        r#"{
        "name": "aristotle",
        "invocationImages": [],
        "schemaVersion": "1.0",
        "version": "1.0.0",
        "parameters": {
            "arg1": {
                "description": "this is a description",
                "destination": {
                    "env": "FIRST"
                },
                "definition": "somedef",
                "metadata": {
                    "description": "a parameter"
                }
            },
            "arg2": {
                "destination": {
                    "path": "/path/to/num"
                },
                "required": true
            },
            "arg3": {
                "applyTo": ["uninstall"],
                "destination": {
                    "env": "LETTERS",
                    "path": "/path/to/abc"
                },
                "required": true
            }
        },
        "definitions": {
            "somedef": {
                "type": "string"
            }
        }
    }"#,
    )
    .expect("parsed bundle");

    assert_eq!(bun.name, "aristotle".to_string());
    assert_eq!(bun.schema_version, "1.0".to_string());
    assert_eq!(bun.version, Version::new(1, 0, 0));
    assert!(get(&bun.definitions.expect("definitions"), "somedef").is_some());

    let params = bun.parameters.expect("params");
    assert_eq!(params.len(), 3);

    // Arg 1 tests
    {
        let arg1 = get(&params, "arg1").expect("arg1 exists");

        // required should be set to false by default
        assert!(arg1.required.is_none());
        assert!(!arg1.is_required());

        // Destination should have just env
        assert_eq!(arg1.destination.env.as_ref(), Some(&"FIRST".to_string()));
        assert!(arg1.destination.path.is_none());
        assert_eq!(arg1.description, Some("this is a description".to_string()));
        assert_eq!(arg1.definition, Some("somedef".to_string()));
    }

    // Arg 2 tests
    {
        let arg2 = get(&params, "arg2");
        assert!(arg2.is_some());

        // required should be set to true
        assert!(arg2.expect("arg2").required.expect("required"));

        // Destination should have just path
        let destination = &arg2.unwrap().destination;
        assert!(destination.env.is_none());
        assert_eq!(destination.path.as_ref(), Some(&"/path/to/num".to_string()));
    }
    // Arg 3 tests
    {
        let arg3 = get(&params, "arg3");

        assert!(arg3.is_some());

        let apply = &arg3.unwrap().apply_to;
        assert!(apply.is_some());

        let dest = &arg3.unwrap().destination;
        assert_eq!(dest.env, Some("LETTERS".to_string()));
        assert_eq!(dest.path, Some("/path/to/abc".to_string()));

        let apply_to = &arg3.unwrap().apply_to;
        assert_eq!(apply_to, &Some(vec!["uninstall".to_string()]));
    }
}

// Test outputs
#[test]
fn test_bundle_outputs() {
    let bun: Bundle = Bundle::from_text(
        r#"{
        "name": "aristotle",
        "invocationImages": [],
        "schemaVersion": "1.0.0",
        "version": "1.0.0",
        "outputs": {
          "first": {
            "applyTo": ["example"],
            "definition": "somedef",
            "description": "does stuff",
            "path": "/var/run/hello"
          },
          "second": {
              "path": "/var/run/empty",
              "definition": "somedef"
          }
        },
        "definitions": {
            "somedef": {
                "type": "string"
            }
        }
    }"#,
    )
    .expect("bundle parsed");

    let outputs = bun.outputs.as_ref().expect("outputs");
    assert_eq!(outputs.len(), 2);
    let first = get(outputs, "first").expect("first");
    assert_eq!(first.apply_to.as_ref().expect("applyTo")[0], "example".to_string());
    assert_eq!(first.definition, "somedef".to_string());
    assert_eq!(first.path.as_ref().expect("path buffer"), &"/var/run/hello".to_string());
    assert_eq!(first.description.as_ref().expect("description"), &"does stuff".to_string());
}

// Test custom data
#[test]
fn test_bundle_custom() {
    let bun: Bundle = Bundle::from_text(
        r#"{
        "name": "aristotle",
        "invocationImages": [],
        "schemaVersion": "1.0.0",
        "version": "1.0.0",
        "custom": {
          "com.example.praxis": {
            "techne": true
          }
        }
    }"#,
    )
    .unwrap();

    assert!(bun.custom.is_some());
    let val: Option<&libcnab::Json> = get(bun.custom.as_ref().unwrap(), "com.example.praxis");
    assert!(val.is_some());
    match val.unwrap() {
        libcnab::Json::Obj(entries) => {
            assert_eq!(entries.len(), 1);
            assert_eq!(entries[0].0, "techne".to_string());
            assert_eq!(entries[0].1, libcnab::Json::Bool(true));
        },
        other => panic!("custom value has the wrong shape: {:?}", other),
    }
}

// Test credentials
#[test]
fn test_bundle_credentials() {
    let bun: Bundle = Bundle::from_text(
        r#"{
        "name": "aristotle",
        "invocationImages": [],
        "schemaVersion": "1.0",
        "version": "1.0.0",
        "credentials": {
            "mytoken": {
                "description": "token",
                "env": "TOKEN"
            },
            "myconfig": {
                "description": "config",
                "path": "/etc/config"
            },
            "myboth": {
                "path": "/foo",
                "env": "FOO"
            }
        }
    }"#,
    )
    .unwrap();

    assert!(bun.credentials.as_ref().is_some());

    let creds = bun.credentials.as_ref().unwrap();
    let first = get(creds, "mytoken").unwrap();
    assert_eq!(first.description, Some("token".to_string()));
    assert_eq!(first.env, Some("TOKEN".to_string()));
    assert!(first.path.is_none());

    let second = get(creds, "myconfig").unwrap();
    assert_eq!(second.description, Some("config".to_string()));
    assert!(second.env.is_none());
    assert_eq!(second.path, Some("/etc/config".to_string()));

    let third = get(creds, "myboth").unwrap();
    assert!(third.description.is_none());
    assert!(third.env.is_some());
    assert!(third.path.is_some());
}

// Test invocation images and regular images
#[test]
fn test_bundle_images() {
    let bun: Bundle = Bundle::from_text(
        r#"{
        "name": "aristotle",
        "images": {
            "web": {
                "image": "nginx:latest",
                "imageType": "oci",
                "mediaType": "application/x-image-thinger",
                "platform": {
                    "os": "linux",
                    "arch": "amd64"
                },
                "size": 1234567890
            }
        },
        "invocationImages": [
            {
                "image": "nginx:latest",
                "imageType": "oci",
                "mediaType": "application/x-image-thinger",
                "size": 1234567890
            }
        ],
        "schemaVersion": "1.0",
        "version": "1.0.0",
        "labels": ["hello", "world"]
    }"#,
    )
    .expect("bundle is unwrapped");

    assert_eq!(bun.name, "aristotle".to_string());
    assert_eq!(bun.schema_version, "1.0".to_string());
    assert_eq!(bun.version, Version::new(1, 0, 0));

    // Check that all of the fields unmarshaled correctly.
    let invo_imgs = &bun.invocation_images;
    assert_eq!(invo_imgs.len(), 1);
    {
        let ii1 = &invo_imgs[0];
        assert_eq!(ii1.image, "nginx:latest".to_string());
        assert_eq!(ii1.image_type, Some("oci".to_string()));
        assert_eq!(ii1.media_type, Some("application/x-image-thinger".to_string()));
        assert_eq!(ii1.size, Some(1_234_567_890));
    }

    let imgs = bun.images.as_ref();
    assert_eq!(imgs.expect("image").len(), 1);
    {
        let img = get(bun.images.as_ref().expect("at least one image"), "web").expect("web");
        assert_eq!(img.image, "nginx:latest".to_string());
        assert_eq!(img.image_type, Some("oci".to_string()));
        assert_eq!(img.media_type, Some("application/x-image-thinger".to_string()));
        assert_eq!(img.size, Some(1_234_567_890));
        assert_eq!(img.platform.as_ref().unwrap().os, Some("linux".to_string()));
        assert_eq!(img.platform.as_ref().unwrap().arch, Some("amd64".to_string()));
    }
}

// Test that a parsing failure returns an error (not a panic)
#[test]
fn test_bundle_parse_error() {
    let bad_data = "{hello";
    let bun = Bundle::from_text(bad_data);
    assert!(bun.is_err());
}
