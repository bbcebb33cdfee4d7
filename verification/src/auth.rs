//! Checking that a build upload or report comes from the maintainer of the
//! package: the maintainer signs `maintainer:package:timestamp` with the SSH
//! key on record, in the namespace of the request.

use vstd::prelude::*;
use crate::text::{int_decimal, i64_to_decimal};

verus! {

/// Whether `ssh_key` accepts the text as an OpenSSH public key (`<algorithm> <base64> [comment]`).
pub uninterp spec fn openssh_public_key_parses(text: Seq<char>) -> bool;

/// Whether `ssh_key` accepts the text as a PEM-armoured SSH signature (`-----BEGIN SSH SIGNATURE-----`).
pub uninterp spec fn ssh_signature_parses(text: Seq<char>) -> bool;

/// Whether the OpenSSH public key `pubkey` verifies the SSH signature
/// `signature` over the UTF-8 bytes of `msg` in `namespace`, as
/// `ssh_key::PublicKey::verify` decides for the key and the signature that
/// the two texts decode to.
pub uninterp spec fn ssh_signature_verifies(
    pubkey: Seq<char>,
    namespace: Seq<char>,
    msg: Seq<char>,
    signature: Seq<char>,
) -> bool;

/// The `Display` text of the error that `ssh_key` gives for a text that is not
/// an OpenSSH public key.
pub uninterp spec fn openssh_public_key_error(text: Seq<char>) -> Seq<char>;

/// Calls `<ssh_key::PublicKey as FromStr>::from_str`, that is `PublicKey::from_openssh`,
/// which decodes the text alone, and renders its error with `Display`: the
/// contract claims that whether it succeeds, and the error's text, are
/// functions of the text. The decoded key is dropped.
#[verifier::external_body]
fn parse_public_key(text: &str) -> (r: Result<(), String>)
    ensures
        r is Ok <==> openssh_public_key_parses(text@),
        r matches Err(e) ==> e@ == openssh_public_key_error(text@),
{
    text.parse::<ssh_key::PublicKey>().map(|_| ()).map_err(|e| e.to_string())
}

/// Calls `<ssh_key::SshSig as FromStr>::from_str`, that is `SshSig::from_pem`,
/// which decodes the text alone: the contract claims that whether it succeeds is
/// a function of the text. The decoded signature is dropped.
#[verifier::external_body]
fn parse_ssh_signature(text: &str) -> (r: bool)
    ensures
        r <==> ssh_signature_parses(text@),
{
    text.parse::<ssh_key::SshSig>().is_ok()
}

/// Calls `ssh_key::PublicKey::verify` on the key and the signature that the
/// texts decode to (through their `FromStr` impls), over the UTF-8 bytes of
/// `msg`. The check compares the signature's key and namespace with the given
/// ones and verifies the signature over the message, a function of its inputs:
/// the contract claims that the answer is true exactly when both texts decode
/// and `ssh_signature_verifies` holds of the four texts.
#[verifier::external_body]
fn check_ssh_signature(pubkey: &str, namespace: &str, msg: &str, signature: &str) -> (r: bool)
    ensures
        r <==> (openssh_public_key_parses(pubkey@) && ssh_signature_parses(signature@)
            && ssh_signature_verifies(pubkey@, namespace@, msg@, signature@)),
{
    match (pubkey.parse::<ssh_key::PublicKey>(), signature.parse::<ssh_key::SshSig>()) {
        (Ok(key), Ok(sig)) => key.verify(namespace, msg.as_bytes(), &sig).is_ok(),
        _ => false,
    }
}


/// The outcome of checking a request's signature against the records.
#[derive(Copy, Clone, Debug, PartialEq, Eq, Structural)]
pub enum AuthCheck {
    /// The maintainer's id and the package's id.
    Verified(i32, i32),
    /// The signature is not a readable SSH signature.
    SignatureMalformed,
    /// The signature does not verify.
    SignatureFailed,
    /// Either the package or the maintainer doesn't exist.
    NotKnown,
    /// The maintainer is not the package's maintainer.
    NotMaintainer,
}

/// The text shown for a check's outcome.
pub open spec fn auth_message(a: AuthCheck) -> Seq<char> {
    match a {
        AuthCheck::Verified(_, _) => "Success"@,
        AuthCheck::SignatureMalformed => "Malformed signature"@,
        AuthCheck::SignatureFailed => "Signature verification failed"@,
        AuthCheck::NotKnown => "Unknown maintainer or package"@,
        AuthCheck::NotMaintainer => "Not correct maintainer"@,
    }
}

impl AuthCheck {
    /// The text shown for this outcome.
    pub fn message(&self) -> (s: String)
        ensures
            s@ == auth_message(*self),
    {
        match self {
            AuthCheck::Verified(_, _) => String::from_str("Success"),
            AuthCheck::SignatureMalformed => String::from_str("Malformed signature"),
            AuthCheck::SignatureFailed => String::from_str("Signature verification failed"),
            AuthCheck::NotKnown => String::from_str("Unknown maintainer or package"),
            AuthCheck::NotMaintainer => String::from_str("Not correct maintainer"),
        }
    }
}

/// What the records hold for a maintainer and a package of that name that it maintains.
pub struct MaintainerRow {
    pub maintainer_id: i32,
    pub pubkey: String,
    pub package_id: i32,
    pub package_maintainer: i32,
}

/// The text a maintainer signs: `maintainer:package:timestamp`, the timestamp in
/// decimal Unix seconds.
pub open spec fn signed_text(maintainer: Seq<char>, package: Seq<char>, timestamp: int) -> Seq<
    char,
> {
    maintainer + seq![':'] + package + seq![':'] + int_decimal(timestamp)
}

/// Builds the text that a maintainer signs for a request.
pub fn signed_message(maintainer: &str, package: &str, timestamp: i64) -> (s: String)
    ensures
        s@ == signed_text(maintainer@, package@, timestamp as int),
{
    let mut s = String::from_str(maintainer);
    s.push(':');
    s.append(package);
    s.push(':');
    let t = i64_to_decimal(timestamp);
    s.append(t.as_str());
    s
}

/// The outcome once the signature has been checked: `verified` is whether it verified.
pub fn signature_outcome(verified: bool, maintainer_id: i32, package_id: i32) -> (r: AuthCheck)
    ensures
        verified ==> r == AuthCheck::Verified(maintainer_id, package_id),
        !verified ==> r == AuthCheck::SignatureFailed,
{
    if verified {
        AuthCheck::Verified(maintainer_id, package_id)
    } else {
        AuthCheck::SignatureFailed
    }
}

/// The prefix of the error when the key on record cannot be read.
pub open spec fn key_error_prefix() -> Seq<char> {
    "Couldn't parse public key: "@
}

/// What `verify_maintainer` may answer for the records `row`: `NotKnown`
/// without records, `NotMaintainer` when the package has another maintainer,
/// the error `key_error_prefix()` followed by `ssh_key`'s error text when the
/// key on record cannot be read, `SignatureMalformed` when the signature cannot be read, and
/// otherwise `Verified` with the two ids when the key on record verifies the
/// signature over `maintainer:package:timestamp` in `namespace`, else
/// `SignatureFailed`.
pub open spec fn auth_outcome_allowed(
    row: Option<MaintainerRow>,
    namespace: Seq<char>,
    maintainer: Seq<char>,
    package: Seq<char>,
    timestamp: int,
    signature: Seq<char>,
    r: Result<AuthCheck, String>,
) -> bool {
    match row {
        None => r == Ok::<AuthCheck, String>(AuthCheck::NotKnown),
        Some(d) => {
            if d.maintainer_id != d.package_maintainer {
                r == Ok::<AuthCheck, String>(AuthCheck::NotMaintainer)
            } else if !openssh_public_key_parses(d.pubkey@) {
                r matches Err(e) && e@ == key_error_prefix() + openssh_public_key_error(d.pubkey@)
            } else if !ssh_signature_parses(signature) {
                r == Ok::<AuthCheck, String>(AuthCheck::SignatureMalformed)
            } else if ssh_signature_verifies(
                d.pubkey@,
                namespace,
                signed_text(maintainer, package, timestamp),
                signature,
            ) {
                r == Ok::<AuthCheck, String>(AuthCheck::Verified(d.maintainer_id, d.package_id))
            } else {
                r == Ok::<AuthCheck, String>(AuthCheck::SignatureFailed)
            }
        },
    }
}

/// The records name maintainer `m` as the maintainer of package `p`, and the
/// key on record verifies `signature` over `maintainer:package:timestamp` in
/// `namespace`.
pub open spec fn signed_by_maintainer(
    row: Option<MaintainerRow>,
    namespace: Seq<char>,
    maintainer: Seq<char>,
    package: Seq<char>,
    timestamp: int,
    signature: Seq<char>,
    m: i32,
    p: i32,
) -> bool {
    match row {
        Some(d) => d.maintainer_id == d.package_maintainer && d.maintainer_id == m && d.package_id
            == p && openssh_public_key_parses(d.pubkey@) && ssh_signature_parses(signature)
            && ssh_signature_verifies(
            d.pubkey@,
            namespace,
            signed_text(maintainer, package, timestamp),
            signature,
        ),
        None => false,
    }
}

/// A request is found authentic, with ids `m` and `p`, exactly when the
/// records name `m` as the maintainer of `p` and the key on record verifies
/// the request's signature over `maintainer:package:timestamp` in the namespace.
pub proof fn lemma_verified_iff_signed_by_maintainer(
    row: Option<MaintainerRow>,
    namespace: Seq<char>,
    maintainer: Seq<char>,
    package: Seq<char>,
    timestamp: int,
    signature: Seq<char>,
    m: i32,
    p: i32,
)
    ensures
        auth_outcome_allowed(
            row,
            namespace,
            maintainer,
            package,
            timestamp,
            signature,
            Ok::<AuthCheck, String>(AuthCheck::Verified(m, p)),
        ) <==> signed_by_maintainer(row, namespace, maintainer, package, timestamp, signature, m, p),
{
}

/// Decides whether a request signed by `maintainer` for `package` at `timestamp`
/// is authentic, given what the records hold for that pair (`None` when there
/// is no such maintainer maintaining such a package).
///
/// An unknown pair gives `NotKnown`; a package of another maintainer gives
/// `NotMaintainer`; a key on record that cannot be read is an error; a
/// signature that cannot be read gives `SignatureMalformed`; otherwise the
/// signature is checked against the key on record over
/// `maintainer:package:timestamp` in `namespace`, and gives `Verified` with the
/// two ids when it verifies, else `SignatureFailed`.
pub fn verify_maintainer(
    row: Option<&MaintainerRow>,
    namespace: &str,
    maintainer: &str,
    package: &str,
    timestamp: i64,
    signature: &str,
) -> (r: Result<AuthCheck, String>)
    ensures
        auth_outcome_allowed(
            match row {
                Some(d) => Some(*d),
                None => None,
            },
            namespace@,
            maintainer@,
            package@,
            timestamp as int,
            signature@,
            r,
        ),
{
    let d = match row {
        None => {
            return Ok(AuthCheck::NotKnown);
        },
        Some(d) => d,
    };
    if d.maintainer_id != d.package_maintainer {
        return Ok(AuthCheck::NotMaintainer);
    }
    match parse_public_key(d.pubkey.as_str()) {
        Ok(()) => {},
        Err(e) => {
            let mut msg = String::from_str("Couldn't parse public key: ");
            msg.append(e.as_str());
            return Err(msg);
        },
    };
    if !parse_ssh_signature(signature) {
        return Ok(AuthCheck::SignatureMalformed);
    }
    let message = signed_message(maintainer, package, timestamp);
    let verified = check_ssh_signature(d.pubkey.as_str(), namespace, message.as_str(), signature);
    Ok(signature_outcome(verified, d.maintainer_id, d.package_id))
}

} // verus!
