use loap::api::{ApiError, ServerError};
use loap::auth::{signed_message, signature_outcome, verify_maintainer, AuthCheck, MaintainerRow};
use ssh_key::private::Ed25519Keypair;
use ssh_key::{HashAlg, LineEnding, PrivateKey};

const NAMESPACE: &str = "loap-upload-file";

fn keypair(seed: u8) -> PrivateKey {
    PrivateKey::from(Ed25519Keypair::from_seed(&[seed; 32]))
}

fn public_text(key: &PrivateKey) -> String {
    key.public_key().to_openssh().unwrap()
}

fn sign(key: &PrivateKey, namespace: &str, msg: &str) -> String {
    key.sign(namespace, HashAlg::Sha512, msg.as_bytes()).unwrap().to_pem(LineEnding::LF).unwrap()
}

fn row(key: &PrivateKey) -> MaintainerRow {
    MaintainerRow { maintainer_id: 3, pubkey: public_text(key), package_id: 9, package_maintainer: 3 }
}

#[test]
fn message_is_maintainer_package_timestamp() {
    assert_eq!(signed_message("kiedtl", "firefox", 1700000000), "kiedtl:firefox:1700000000");
    assert_eq!(signed_message("a", "b", -5), "a:b:-5");
}

#[test]
fn auth_messages() {
    assert_eq!(AuthCheck::Verified(1, 2).message(), "Success");
    assert_eq!(AuthCheck::SignatureMalformed.message(), "Malformed signature");
    assert_eq!(AuthCheck::SignatureFailed.message(), "Signature verification failed");
    assert_eq!(AuthCheck::NotKnown.message(), "Unknown maintainer or package");
    assert_eq!(AuthCheck::NotMaintainer.message(), "Not correct maintainer");
}

#[test]
fn signature_outcomes() {
    assert_eq!(signature_outcome(true, 4, 5), AuthCheck::Verified(4, 5));
    assert_eq!(signature_outcome(false, 4, 5), AuthCheck::SignatureFailed);
}

#[test]
fn unknown_pair() {
    assert_eq!(verify_maintainer(None, NAMESPACE, "x", "y", 0, "sig"), Ok(AuthCheck::NotKnown));
}

#[test]
fn other_maintainer() {
    let key = keypair(1);
    let mut r = row(&key);
    r.package_maintainer = 4;
    assert_eq!(
        verify_maintainer(Some(&r), NAMESPACE, "kiedtl", "zlib", 10, "sig"),
        Ok(AuthCheck::NotMaintainer)
    );
}

#[test]
fn unreadable_key_is_an_error() {
    let r = MaintainerRow {
        maintainer_id: 3,
        pubkey: "not a key".to_string(),
        package_id: 9,
        package_maintainer: 3,
    };
    let out = verify_maintainer(Some(&r), NAMESPACE, "kiedtl", "zlib", 10, "sig");
    match out {
        Err(e) => {
            let detail = "not a key".parse::<ssh_key::PublicKey>().unwrap_err().to_string();
            assert_eq!(e, format!("Couldn't parse public key: {detail}"));
        }
        Ok(a) => panic!("expected an error, got {:?}", a),
    }
}

#[test]
fn unreadable_signature() {
    let key = keypair(1);
    assert_eq!(
        verify_maintainer(Some(&row(&key)), NAMESPACE, "kiedtl", "zlib", 10, "garbage"),
        Ok(AuthCheck::SignatureMalformed)
    );
}

#[test]
fn good_signature_verifies() {
    let key = keypair(1);
    let sig = sign(&key, NAMESPACE, "kiedtl:zlib:1700000000");
    assert_eq!(
        verify_maintainer(Some(&row(&key)), NAMESPACE, "kiedtl", "zlib", 1700000000, &sig),
        Ok(AuthCheck::Verified(3, 9))
    );
}

#[test]
fn signature_over_other_text_fails() {
    let key = keypair(1);
    let sig = sign(&key, NAMESPACE, "kiedtl:zlib:1700000000");
    assert_eq!(
        verify_maintainer(Some(&row(&key)), NAMESPACE, "kiedtl", "zlib", 1700000001, &sig),
        Ok(AuthCheck::SignatureFailed)
    );
}

#[test]
fn signature_in_other_namespace_fails() {
    let key = keypair(1);
    let sig = sign(&key, "file", "kiedtl:zlib:1700000000");
    assert_eq!(
        verify_maintainer(Some(&row(&key)), NAMESPACE, "kiedtl", "zlib", 1700000000, &sig),
        Ok(AuthCheck::SignatureFailed)
    );
}

#[test]
fn signature_by_other_key_fails() {
    let key = keypair(1);
    let other = keypair(2);
    let sig = sign(&other, NAMESPACE, "kiedtl:zlib:1700000000");
    assert_eq!(
        verify_maintainer(Some(&row(&key)), NAMESPACE, "kiedtl", "zlib", 1700000000, &sig),
        Ok(AuthCheck::SignatureFailed)
    );
}

#[test]
fn api_error_responses() {
    let (code, body) = ApiError::NotFound.response();
    assert_eq!((code, body.as_str()), (404, "Not found."));
    let (code, body) = ApiError::ReportedObjectNotFound.response();
    assert_eq!((code, body.as_str()), (404, "Reported object doesn't exist, or inaccessible."));
    let (code, body) = ApiError::Auth(AuthCheck::NotMaintainer).response();
    assert_eq!((code, body.as_str()), (403, "Not correct maintainer"));
}

#[test]
fn server_error_response() {
    let (code, body) = ServerError::new("db is gone".to_string()).response();
    assert_eq!((code, body.as_str()), (500, "db is gone"));
}
