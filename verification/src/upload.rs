//! `/api/b/upload`: a maintainer asks for a link to upload a build to. The
//! request is checked against the records, and a fresh object path under
//! `tarballs/` is signed for upload.

use vstd::prelude::*;
use crate::api::{AnyOf2, ApiError, upload_namespace, RequestUpload, RequestUploadResponse, upload_link_secs};
use crate::auth::{AuthCheck, MaintainerRow, verify_maintainer, auth_outcome_allowed, openssh_public_key_parses, ssh_signature_parses, ssh_signature_verifies, signed_text};

verus! {

/// A lower-case hexadecimal digit.
pub open spec fn is_lower_hex(c: char) -> bool {
    ('0' <= c && c <= '9') || ('a' <= c && c <= 'f')
}

/// The hyphenated form of a UUID: 36 characters, hyphens at 8, 13, 18 and 23,
/// lower-case hexadecimal digits elsewhere.
pub open spec fn is_hyphenated_uuid(s: Seq<char>) -> bool {
    &&& s.len() == 36
    &&& forall|i: int|
        0 <= i < 36 ==> if i == 8 || i == 13 || i == 18 || i == 23 {
            #[trigger] s[i] == '-'
        } else {
            is_lower_hex(s[i])
        }
}

/// The hyphenated form of a random (version 4, RFC 4122 variant) UUID: the
/// version digit `4` at 14, and one of `8`, `9`, `a`, `b` at 19.
pub open spec fn is_uuid_v4_text(s: Seq<char>) -> bool {
    &&& is_hyphenated_uuid(s)
    &&& s[14] == '4'
    &&& (s[19] == '8' || s[19] == '9' || s[19] == 'a' || s[19] == 'b')
}

/// Calls `uuid::Uuid::new_v4`, which sets the version bits to 4 and the
/// variant bits to `10` over random bits, and renders it with `Display`, which
/// writes the hyphenated lower-case form (`LowerHex`). The contract claims that
/// shape with those digits; the other digits are random.
#[verifier::external_body]
fn new_upload_id() -> (r: String)
    ensures
        is_uuid_v4_text(r@),
{
    uuid::Uuid::new_v4().to_string()
}

/// The object path of an upload: `tarballs/{package}_{version}_{id}.tar.xz`.
pub open spec fn upload_path(package: Seq<char>, version: Seq<char>, id: Seq<char>) -> Seq<char> {
    "tarballs/"@ + package + seq!['_'] + version + seq!['_'] + id + ".tar.xz"@
}

/// Builds the object path of an upload.
pub fn upload_object_path(package: &str, version: &str, id: &str) -> (s: String)
    ensures
        s@ == upload_path(package@, version@, id@),
{
    let mut s = String::from_str("tarballs/");
    s.append(package);
    s.push('_');
    s.append(version);
    s.push('_');
    s.append(id);
    s.append(".tar.xz");
    s
}

/// Where an upload request stands.
pub enum UploadStage {
    AwaitingRecords,
    AwaitingUrl { object_path: String },
    Done,
}

/// What the outside world answered to the last action.
pub enum UploadEvent {
    /// The records for the maintainer and the package (`None`: no such pair), or a database error.
    Records(Result<Option<MaintainerRow>, String>),
    /// The signed upload link, or the store's error.
    UrlSigned(Result<String, String>),
}

/// What to do next.
pub enum UploadAction {
    /// Look up the maintainer and the package.
    FetchRecords { maintainer: String, package: String },
    /// Sign a link to upload (`PUT`) the object at `path`, valid for `expires_in_secs`.
    SignPut { path: String, expires_in_secs: u64 },
    /// Answer the request.
    Respond(Result<AnyOf2<RequestUploadResponse, ApiError>, String>),
}

/// The step from the records' stage once the check came out as `auth`, where
/// `path` is the fresh object path that a verified request gets.
pub open spec fn after_upload_auth(auth: Result<AuthCheck, String>, path: String) -> (
    UploadStage,
    UploadAction,
) {
    match auth {
        Err(e) => (UploadStage::Done, UploadAction::Respond(Err(e))),
        Ok(AuthCheck::Verified(_, _)) => (
            UploadStage::AwaitingUrl { object_path: path },
            UploadAction::SignPut { path, expires_in_secs: upload_link_secs() },
        ),
        Ok(other) => (
            UploadStage::Done,
            UploadAction::Respond(Ok(AnyOf2::B(ApiError::Auth(other)))),
        ),
    }
}

/// The steps of an upload request, by stage and answer.
pub open spec fn upload_step_allowed(
    request: RequestUpload,
    stage: UploadStage,
    event: UploadEvent,
    next: UploadStage,
    action: UploadAction,
) -> bool {
    match (stage, event) {
        (UploadStage::AwaitingRecords, UploadEvent::Records(Err(e))) => next == UploadStage::Done
            && action == UploadAction::Respond(Err(e)),
        (UploadStage::AwaitingRecords, UploadEvent::Records(Ok(row))) => exists|
            auth: Result<AuthCheck, String>,
            path: String,
        |
            auth_outcome_allowed(
                row,
                upload_namespace(),
                request.built_by@,
                request.package@,
                request.completed_at as int,
                request.signature@,
                auth,
            ) && (auth is Ok && auth->Ok_0 is Verified
                ==> exists|id: Seq<char>|
                is_uuid_v4_text(id) && path@ == upload_path(
                    request.package@,
                    request.version@,
                    id,
                )) && (next, action) == after_upload_auth(auth, path),
        (UploadStage::AwaitingUrl { object_path }, UploadEvent::UrlSigned(Err(e))) => next
            == UploadStage::Done && action == UploadAction::Respond(Err(e)),
        (UploadStage::AwaitingUrl { object_path }, UploadEvent::UrlSigned(Ok(url))) => next
            == UploadStage::Done && action == UploadAction::Respond(
            Ok(AnyOf2::A(RequestUploadResponse { signed_url: url, object_path })),
        ),
        _ => false,
    }
}

/// Whether `event` answers the action that `stage` waits on.
pub open spec fn upload_awaits(stage: UploadStage, event: UploadEvent) -> bool {
    match (stage, event) {
        (UploadStage::AwaitingRecords, UploadEvent::Records(_)) => true,
        (UploadStage::AwaitingUrl { .. }, UploadEvent::UrlSigned(_)) => true,
        _ => false,
    }
}

/// The answer `event` holds records of the requester as the package's
/// maintainer whose key on record verifies the request's signature over
/// `maintainer:package:timestamp` in the upload namespace.
pub open spec fn upload_records_authorize(request: RequestUpload, event: UploadEvent) -> bool {
    match event {
        UploadEvent::Records(Ok(Some(row))) => row.maintainer_id == row.package_maintainer
            && openssh_public_key_parses(row.pubkey@) && ssh_signature_parses(request.signature@)
            && ssh_signature_verifies(
            row.pubkey@,
            upload_namespace(),
            signed_text(request.built_by@, request.package@, request.completed_at as int),
            request.signature@,
        ),
        _ => false,
    }
}

/// Some answer in `seen` holds records that authorize the request.
pub open spec fn upload_authorized_in(request: RequestUpload, seen: Seq<UploadEvent>) -> bool {
    exists|i: int| 0 <= i < seen.len() && upload_records_authorize(request, #[trigger] seen[i])
}

/// An upload request being handled.
pub struct UploadFlow {
    request: RequestUpload,
    stage: UploadStage,
    seen: Ghost<Seq<UploadEvent>>,
}

impl UploadFlow {
    #[verifier::type_invariant]
    spec fn authorized_before_signing(self) -> bool {
        self.stage matches UploadStage::AwaitingUrl { .. } ==> upload_authorized_in(
            self.request,
            self.seen@,
        )
    }

    /// The request being handled.
    pub closed spec fn request(self) -> RequestUpload {
        self.request
    }

    /// Where the request stands.
    pub closed spec fn stage(self) -> UploadStage {
        self.stage
    }

    /// The answers the flow was given, in order.
    pub closed spec fn events(self) -> Seq<UploadEvent> {
        self.seen@
    }

    /// Starts handling an upload request: first the maintainer and the package are looked up.
    pub fn start(request: RequestUpload) -> (r: (UploadFlow, UploadAction))
        ensures
            r.0.request() == request,
            r.0.stage() == UploadStage::AwaitingRecords,
            r.0.events() == Seq::<UploadEvent>::empty(),
            r.1 == (UploadAction::FetchRecords {
                maintainer: request.built_by,
                package: request.package,
            }),
    {
        let maintainer = request.built_by.clone();
        let package = request.package.clone();
        let flow = UploadFlow { request, stage: UploadStage::AwaitingRecords, seen: Ghost(Seq::empty()) };
        (flow, UploadAction::FetchRecords { maintainer, package })
    }

    /// Whether the flow waits on this kind of answer.
    pub fn awaits(&self, event: &UploadEvent) -> (r: bool)
        ensures
            r == upload_awaits(self.stage(), *event),
    {
        match (&self.stage, event) {
            (UploadStage::AwaitingRecords, UploadEvent::Records(_)) => true,
            (UploadStage::AwaitingUrl { .. }, UploadEvent::UrlSigned(_)) => true,
            _ => false,
        }
    }

    /// Takes the answer to the last action and says what to do next.
    ///
    /// An upload link is only ever signed, and handed out, after records that
    /// show the requester as the package's maintainer and whose key verifies
    /// the request's signature over `maintainer:package:timestamp` in the
    /// upload namespace.
    pub fn step(&mut self, event: UploadEvent) -> (action: UploadAction)
        requires
            upload_awaits(old(self).stage(), event),
        ensures
            final(self).request() == old(self).request(),
            final(self).events() == old(self).events().push(event),
            upload_step_allowed(
                old(self).request(),
                old(self).stage(),
                event,
                final(self).stage(),
                action,
            ),
            action is SignPut ==> upload_authorized_in(final(self).request(), final(self).events()),
            action matches UploadAction::Respond(Ok(AnyOf2::A(_))) ==> upload_authorized_in(
                final(self).request(),
                final(self).events(),
            ),
    {
        proof {
            use_type_invariant(&*self);
        }
        let ghost ev = event;
        let ghost old_seen = self.seen@;
        let ghost old_stage = self.stage;
        proof {
            if old_stage is AwaitingUrl {
                let i = choose|i: int|
                    0 <= i < old_seen.len() && upload_records_authorize(
                        self.request,
                        #[trigger] old_seen[i],
                    );
                assert(old_seen.push(ev)[i] == old_seen[i]);
            }
        }
        self.seen = Ghost(self.seen@.push(ev));
        assert(self.seen@[old_seen.len() as int] == ev);
        match event {
            UploadEvent::Records(Err(e)) => {
                self.stage = UploadStage::Done;
                UploadAction::Respond(Err(e))
            },
            UploadEvent::Records(Ok(row)) => {
                let ghost row_g = row;
                let auth = verify_maintainer(
                    row.as_ref(),
                    "loap-upload-file",
                    self.request.built_by.as_str(),
                    self.request.package.as_str(),
                    self.request.completed_at,
                    self.request.signature.as_str(),
                );
                let ghost auth_g = auth;
                assert(auth_outcome_allowed(
                    row_g,
                    upload_namespace(),
                    self.request.built_by@,
                    self.request.package@,
                    self.request.completed_at as int,
                    self.request.signature@,
                    auth_g,
                ));
                match auth {
                    Err(e) => {
                        self.stage = UploadStage::Done;
                        let action = UploadAction::Respond(Err(e));
                        let ghost witness = self.request.package;
                        assert((self.stage, action) == after_upload_auth(auth_g, witness));
                        action
                    },
                    Ok(AuthCheck::Verified(_, _)) => {
                        assert(upload_records_authorize(self.request, ev));
                        let id = new_upload_id();
                        let path = upload_object_path(
                            self.request.package.as_str(),
                            self.request.version.as_str(),
                            id.as_str(),
                        );
                        let ghost path_g = path;
                        assert(is_uuid_v4_text(id@) && path_g@ == upload_path(
                            self.request.package@,
                            self.request.version@,
                            id@,
                        ));
                        self.stage = UploadStage::AwaitingUrl { object_path: path.clone() };
                        let action = UploadAction::SignPut { path, expires_in_secs: 420 };
                        assert((self.stage, action) == after_upload_auth(auth_g, path_g));
                        action
                    },
                    Ok(other) => {
                        self.stage = UploadStage::Done;
                        let action = UploadAction::Respond(Ok(AnyOf2::B(ApiError::Auth(other))));
                        let ghost witness = self.request.package;
                        assert((self.stage, action) == after_upload_auth(auth_g, witness));
                        action
                    },
                }
            },
            UploadEvent::UrlSigned(Err(e)) => {
                self.stage = UploadStage::Done;
                UploadAction::Respond(Err(e))
            },
            UploadEvent::UrlSigned(Ok(url)) => {
                let mut stage = UploadStage::Done;
                std::mem::swap(&mut stage, &mut self.stage);
                match stage {
                    UploadStage::AwaitingUrl { object_path } => UploadAction::Respond(
                        Ok(AnyOf2::A(RequestUploadResponse { signed_url: url, object_path })),
                    ),
                    _ => {
                        proof {
                            assert(false);
                        }
                        UploadAction::Respond(Err(url))
                    },
                }
            },
        }
    }
}

} // verus!
