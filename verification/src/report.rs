//! `/api/b/report`: a maintainer reports a build that was uploaded. The report
//! is checked against the records, the object's size is looked up in the
//! store, and the build is recorded.

use vstd::prelude::*;
use crate::api::{AnyOf2, ApiError, upload_namespace, ReportBuild};
use crate::auth::{AuthCheck, MaintainerRow, verify_maintainer, auth_outcome_allowed, openssh_public_key_parses, ssh_signature_parses, ssh_signature_verifies, signed_text};

verus! {

/// A build as it is recorded.
pub struct BuildRecord {
    pub built_by: i32,
    pub package: i32,
    pub version: String,
    pub size: u32,
    /// Unix seconds.
    pub completed_at: i64,
    pub completed_in: u32,
    pub object_path: String,
}

/// Where a report stands.
pub enum ReportStage {
    AwaitingRecords,
    AwaitingObject { maintainer_id: i32, package_id: i32 },
    AwaitingInsert,
    Done,
}

/// What the outside world answered to the last action.
pub enum ReportEvent {
    /// The records for the maintainer and the package (`None`: no such pair), or a database error.
    Records(Result<Option<MaintainerRow>, String>),
    /// The size of the reported object, or `None` when it cannot be reached.
    ObjectSize(Option<u64>),
    /// How many rows the insertion affected, or a database error.
    Inserted(Result<u64, String>),
}

/// What to do next.
pub enum ReportAction {
    /// Look up the maintainer and the package.
    FetchRecords { maintainer: String, package: String },
    /// Look up the object's metadata in the store.
    HeadObject { path: String },
    /// Record the build.
    InsertBuild(BuildRecord),
    /// Answer the request.
    Respond(Result<AnyOf2<String, ApiError>, String>),
}

/// The answer `event` holds records of `maintainer_id` as the maintainer of
/// `package_id` whose key on record verifies the request's signature over
/// `maintainer:package:timestamp` in the upload namespace.
pub open spec fn records_authorize(
    request: ReportBuild,
    event: ReportEvent,
    maintainer_id: i32,
    package_id: i32,
) -> bool {
    match event {
        ReportEvent::Records(Ok(Some(row))) => row.maintainer_id == maintainer_id && row.package_id
            == package_id && row.maintainer_id == row.package_maintainer
            && openssh_public_key_parses(row.pubkey@) && ssh_signature_parses(request.signature@)
            && ssh_signature_verifies(
            row.pubkey@,
            upload_namespace(),
            signed_text(request.built_by@, request.package@, request.completed_at as int),
            request.signature@,
        ),
        _ => false,
    }
}

/// Some answer in `seen` holds records that authorize `maintainer_id` for `package_id`.
pub open spec fn authorized_in(
    request: ReportBuild,
    seen: Seq<ReportEvent>,
    maintainer_id: i32,
    package_id: i32,
) -> bool {
    exists|i: int|
        0 <= i < seen.len() && records_authorize(request, #[trigger] seen[i], maintainer_id, package_id)
}

/// The record of a build whose object has `size` bytes: the size is kept
/// modulo 2^32, as the records hold 32-bit sizes.
pub open spec fn build_record_of(
    request: ReportBuild,
    maintainer_id: i32,
    package_id: i32,
    size: u64,
) -> BuildRecord {
    BuildRecord {
        built_by: maintainer_id,
        package: package_id,
        version: request.version,
        size: (size % 0x1_0000_0000) as u32,
        completed_at: request.completed_at,
        completed_in: request.completed_in,
        object_path: request.object_path,
    }
}

/// A build is recorded with the size of its object: exactly, for an object of
/// fewer than 2^32 bytes, and otherwise reduced modulo 2^32 to fit the records.
/// Every other field comes from the request and the authenticated ids.
pub proof fn lemma_recorded_build(request: ReportBuild, maintainer_id: i32, package_id: i32, size: u64)
    ensures
        size < 4294967296 ==> build_record_of(request, maintainer_id, package_id, size).size == size,
        build_record_of(request, maintainer_id, package_id, size).size as int == size as int
            % 4294967296,
        build_record_of(request, maintainer_id, package_id, size).built_by == maintainer_id,
        build_record_of(request, maintainer_id, package_id, size).package == package_id,
        build_record_of(request, maintainer_id, package_id, size).version == request.version,
        build_record_of(request, maintainer_id, package_id, size).completed_at
            == request.completed_at,
        build_record_of(request, maintainer_id, package_id, size).completed_in
            == request.completed_in,
        build_record_of(request, maintainer_id, package_id, size).object_path
            == request.object_path,
{
}

/// The step from the records' stage once the check came out as `auth`.
pub open spec fn after_auth(request: ReportBuild, auth: Result<AuthCheck, String>) -> (
    ReportStage,
    ReportAction,
) {
    match auth {
        Err(e) => (ReportStage::Done, ReportAction::Respond(Err(e))),
        Ok(AuthCheck::Verified(m, p)) => (
            ReportStage::AwaitingObject { maintainer_id: m, package_id: p },
            ReportAction::HeadObject { path: request.object_path },
        ),
        Ok(other) => (
            ReportStage::Done,
            ReportAction::Respond(Ok(AnyOf2::B(ApiError::Auth(other)))),
        ),
    }
}

/// The steps of a report, by stage and answer. A failed database call is
/// answered with its error text; a check that does not verify, with the
/// refusal; an object that cannot be reached, with `ReportedObjectNotFound`;
/// an insertion that affects other than one row, with "Internal database error".
pub open spec fn report_step_allowed(
    request: ReportBuild,
    stage: ReportStage,
    event: ReportEvent,
    next: ReportStage,
    action: ReportAction,
) -> bool {
    match (stage, event) {
        (ReportStage::AwaitingRecords, ReportEvent::Records(Err(e))) => next == ReportStage::Done
            && action == ReportAction::Respond(Err(e)),
        (ReportStage::AwaitingRecords, ReportEvent::Records(Ok(row))) => exists|
            auth: Result<AuthCheck, String>,
        |
            auth_outcome_allowed(
                row,
                upload_namespace(),
                request.built_by@,
                request.package@,
                request.completed_at as int,
                request.signature@,
                auth,
            ) && (next, action) == after_auth(
                request,
                auth,
            ),
        (
            ReportStage::AwaitingObject { maintainer_id, package_id },
            ReportEvent::ObjectSize(None),
        ) => next == ReportStage::Done && action == ReportAction::Respond(
            Ok(AnyOf2::B(ApiError::ReportedObjectNotFound)),
        ),
        (
            ReportStage::AwaitingObject { maintainer_id, package_id },
            ReportEvent::ObjectSize(Some(size)),
        ) => next == ReportStage::AwaitingInsert && action == ReportAction::InsertBuild(
            build_record_of(request, maintainer_id, package_id, size),
        ),
        (ReportStage::AwaitingInsert, ReportEvent::Inserted(Err(e))) => next == ReportStage::Done
            && action == ReportAction::Respond(Err(e)),
        (ReportStage::AwaitingInsert, ReportEvent::Inserted(Ok(rows))) => next == ReportStage::Done
            && if rows == 1 {
            action matches ReportAction::Respond(Ok(AnyOf2::A(s))) && s@ == "Success"@
        } else {
            action matches ReportAction::Respond(Err(s)) && s@ == "Internal database error"@
        },
        _ => false,
    }
}

/// Whether `event` answers the action that `stage` waits on.
pub open spec fn report_awaits(stage: ReportStage, event: ReportEvent) -> bool {
    match (stage, event) {
        (ReportStage::AwaitingRecords, ReportEvent::Records(_)) => true,
        (ReportStage::AwaitingObject { .. }, ReportEvent::ObjectSize(_)) => true,
        (ReportStage::AwaitingInsert, ReportEvent::Inserted(_)) => true,
        _ => false,
    }
}

/// A report being handled: the request, where it stands, and what it was told so far.
pub struct ReportFlow {
    request: ReportBuild,
    stage: ReportStage,
    seen: Ghost<Seq<ReportEvent>>,
}

impl ReportFlow {
    #[verifier::type_invariant]
    spec fn authorized_before_object(self) -> bool {
        self.stage matches ReportStage::AwaitingObject { maintainer_id, package_id } ==> authorized_in(
            self.request,
            self.seen@,
            maintainer_id,
            package_id,
        )
    }

    /// The request being handled.
    pub closed spec fn request(self) -> ReportBuild {
        self.request
    }

    /// Where the report stands.
    pub closed spec fn stage(self) -> ReportStage {
        self.stage
    }

    /// The answers the flow was given, in order.
    pub closed spec fn events(self) -> Seq<ReportEvent> {
        self.seen@
    }

    /// Starts handling a report: first the maintainer and the package are looked up.
    pub fn start(request: ReportBuild) -> (r: (ReportFlow, ReportAction))
        ensures
            r.0.request() == request,
            r.0.stage() == ReportStage::AwaitingRecords,
            r.0.events() == Seq::<ReportEvent>::empty(),
            r.1 matches ReportAction::FetchRecords { maintainer, package } && maintainer@
                == request.built_by@ && package@ == request.package@,
    {
        let maintainer = String::from_str(request.built_by.as_str());
        let package = String::from_str(request.package.as_str());
        let flow = ReportFlow {
            request,
            stage: ReportStage::AwaitingRecords,
            seen: Ghost(Seq::empty()),
        };
        (flow, ReportAction::FetchRecords { maintainer, package })
    }

    /// Whether the flow waits on this kind of answer.
    pub fn awaits(&self, event: &ReportEvent) -> (r: bool)
        ensures
            r == report_awaits(self.stage(), *event),
    {
        match (&self.stage, event) {
            (ReportStage::AwaitingRecords, ReportEvent::Records(_)) => true,
            (ReportStage::AwaitingObject { .. }, ReportEvent::ObjectSize(_)) => true,
            (ReportStage::AwaitingInsert, ReportEvent::Inserted(_)) => true,
            _ => false,
        }
    }

    /// Takes the answer to the last action and says what to do next.
    ///
    /// A build is only ever recorded under the maintainer and package ids of
    /// earlier records that show the requester as the package's maintainer and
    /// whose key verifies the request's signature over
    /// `maintainer:package:timestamp` in the upload namespace.
    pub fn step(&mut self, event: ReportEvent) -> (action: ReportAction)
        requires
            report_awaits(old(self).stage(), event),
        ensures
            final(self).request() == old(self).request(),
            final(self).events() == old(self).events().push(event),
            report_step_allowed(
                old(self).request(),
                old(self).stage(),
                event,
                final(self).stage(),
                action,
            ),
            action matches ReportAction::InsertBuild(record) ==> authorized_in(
                final(self).request(),
                final(self).events(),
                record.built_by,
                record.package,
            ),
    {
        proof {
            use_type_invariant(&*self);
        }
        let ghost ev = event;
        let ghost old_seen = self.seen@;
        let ghost old_stage = self.stage;
        proof {
            if let ReportStage::AwaitingObject { maintainer_id, package_id } = old_stage {
                let i = choose|i: int|
                    0 <= i < old_seen.len() && records_authorize(
                        self.request,
                        #[trigger] old_seen[i],
                        maintainer_id,
                        package_id,
                    );
                assert(old_seen.push(ev)[i] == old_seen[i]);
            }
        }
        self.seen = Ghost(self.seen@.push(ev));
        assert(self.seen@[old_seen.len() as int] == ev);
        match event {
            ReportEvent::Records(Err(e)) => {
                self.stage = ReportStage::Done;
                ReportAction::Respond(Err(e))
            },
            ReportEvent::Records(Ok(row)) => {
                let ghost row_g = row;
                let auth = verify_maintainer(
                    row.as_ref(),
                    "loap-upload-file",
                    self.request.built_by.as_str(),
                    self.request.package.as_str(),
                    self.request.completed_at,
                    self.request.signature.as_str(),
                );
                let ghost auth_g = auth;
                assert(auth_outcome_allowed(
                    row_g,
                    upload_namespace(),
                    self.request.built_by@,
                    self.request.package@,
                    self.request.completed_at as int,
                    self.request.signature@,
                    auth_g,
                ));
                match auth {
                    Err(e) => {
                        self.stage = ReportStage::Done;
                        let action = ReportAction::Respond(Err(e));
                        assert((self.stage, action) == after_auth(self.request, auth_g));
                        action
                    },
                    Ok(AuthCheck::Verified(m, p)) => {
                        assert(authorized_in(self.request, self.seen@, m, p));
                        self.stage = ReportStage::AwaitingObject { maintainer_id: m, package_id: p };
                        let path = self.request.object_path.clone();
                        let action = ReportAction::HeadObject { path };
                        assert((self.stage, action) == after_auth(self.request, auth_g));
                        action
                    },
                    Ok(other) => {
                        self.stage = ReportStage::Done;
                        let action = ReportAction::Respond(Ok(AnyOf2::B(ApiError::Auth(other))));
                        assert((self.stage, action) == after_auth(self.request, auth_g));
                        action
                    },
                }
            },
            ReportEvent::ObjectSize(None) => {
                self.stage = ReportStage::Done;
                ReportAction::Respond(Ok(AnyOf2::B(ApiError::ReportedObjectNotFound)))
            },
            ReportEvent::ObjectSize(Some(size)) => {
                let (m, p) = match self.stage {
                    ReportStage::AwaitingObject { maintainer_id, package_id } => (
                        maintainer_id,
                        package_id,
                    ),
                    _ => {
                        proof {
                            assert(false);
                        }
                        (0, 0)
                    },
                };
                let truncated: u32 = #[verifier::truncate] (size as u32);
                assert(truncated == (size % 0x1_0000_0000) as u32) by (bit_vector)
                    requires
                        truncated == #[verifier::truncate] (size as u32),
                ;
                let record = BuildRecord {
                    built_by: m,
                    package: p,
                    version: self.request.version.clone(),
                    size: truncated,
                    completed_at: self.request.completed_at,
                    completed_in: self.request.completed_in,
                    object_path: self.request.object_path.clone(),
                };
                self.stage = ReportStage::AwaitingInsert;
                ReportAction::InsertBuild(record)
            },
            ReportEvent::Inserted(Err(e)) => {
                self.stage = ReportStage::Done;
                ReportAction::Respond(Err(e))
            },
            ReportEvent::Inserted(Ok(rows)) => {
                self.stage = ReportStage::Done;
                if rows != 1 {
                    ReportAction::Respond(Err(String::from_str("Internal database error")))
                } else {
                    ReportAction::Respond(Ok(AnyOf2::A(String::from_str("Success"))))
                }
            },
        }
    }
}

} // verus!
