//! Claims and credential sets as documents.

use libcnab::{Claim, CredentialSet, Status};

#[test]
fn test_claim() {
    let claim: Claim = Claim::from_text(
        r#"{
                "name": "claimtest",
                "bundle": {
                    "name": "aristotle",
                    "invocationImages": [],
                    "schemaVersion": "1.0.0",
                    "version": "1.0.0",
                    "custom": {
                        "com.example.praxis": {
                            "techne": true
                        }
                    }
                },
                "bundleReference": "hub.example.com/my/bundle@sha256:eeeeeeeee...",
                "created": "2018-08-30T20:39:55.549002887-06:00",
                "modified": "2018-08-30T20:39:55.549002887-06:00",
                "result": {
                    "action": "install",
                    "message": "installed wordpress",
                    "status": "success"
                },
                "outputs": {
                    "one": "output 1",
                    "two": "output 2"
                },
                "parameters": {
                    "one": "param one",
                    "two": "param two"
                },
                "revision": "01CP6XM0KVB9V1BQDZ9NK8VP29"
            }"#,
    )
    .expect("Successfully parsed claim");

    assert_eq!(claim.result.status, Status::Success);
}

#[test]
fn test_credentialset() {
    let _: CredentialSet = CredentialSet::from_text(
        r#"{
                "name": "test_credentials",
                "credentials": [
                    {
                        "name": "kubeconfig",
                        "source": {
                            "path": "$HOME/.kube/config"
                        }
                    },
                    {
                        "name": "image_token",
                        "source": {
                            "value": "1234aaaaaaaaaaaa"
                        }
                    },
                    {
                        "name": "hostkey",
                        "source": {
                            "env": "HOSTKEY",
                            "path": "$HOME/.thing/hostkey"
                        }
                    }
                ]
            }"#,
    )
    .expect("credential set parsed");
}
