//! `/api/b/dl`: a download by build id. The object path of the build is looked
//! up, a download link is signed for it, the build's download count goes up,
//! and the client is redirected to the link.

use vstd::prelude::*;
use crate::api::{AnyOf2, ApiError, DownloadByBuildId, download_link_secs};

verus! {

/// Where a download stands.
pub enum DownloadStage {
    AwaitingPath,
    AwaitingUrl,
    AwaitingCount { url: String },
    Done,
}

/// What the outside world answered to the last action.
pub enum DownloadEvent {
    /// The object path of the build (`None`: no such build), or a database error.
    PathFound(Result<Option<String>, String>),
    /// The signed download link, or the store's error.
    UrlSigned(Result<String, String>),
    /// Whether the download count was raised, or a database error.
    Counted(Result<(), String>),
}

/// What to do next.
pub enum DownloadAction {
    /// Look up the object path of build `id`.
    FetchPath { id: u32 },
    /// Sign a link to download (`GET`) the object at `path`, valid for `expires_in_secs`.
    SignGet { path: String, expires_in_secs: u64 },
    /// Add one to the download count of build `id`.
    CountDownload { id: u32 },
    /// Answer the request: `A` is the link to redirect to.
    Respond(Result<AnyOf2<String, ApiError>, String>),
}

/// The steps of a download, by stage and answer. A failed database or store
/// call is answered with its error text; an unknown build, with `NotFound`.
pub open spec fn download_step_allowed(
    id: u32,
    stage: DownloadStage,
    event: DownloadEvent,
    next: DownloadStage,
    action: DownloadAction,
) -> bool {
    match (stage, event) {
        (DownloadStage::AwaitingPath, DownloadEvent::PathFound(Err(e))) => next
            == DownloadStage::Done && action == DownloadAction::Respond(Err(e)),
        (DownloadStage::AwaitingPath, DownloadEvent::PathFound(Ok(None))) => next
            == DownloadStage::Done && action == DownloadAction::Respond(
            Ok(AnyOf2::B(ApiError::NotFound)),
        ),
        (DownloadStage::AwaitingPath, DownloadEvent::PathFound(Ok(Some(path)))) => next
            == DownloadStage::AwaitingUrl && action == (DownloadAction::SignGet {
            path,
            expires_in_secs: download_link_secs(),
        }),
        (DownloadStage::AwaitingUrl, DownloadEvent::UrlSigned(Err(e))) => next
            == DownloadStage::Done && action == DownloadAction::Respond(Err(e)),
        (DownloadStage::AwaitingUrl, DownloadEvent::UrlSigned(Ok(url))) => next
            == (DownloadStage::AwaitingCount { url }) && action == (DownloadAction::CountDownload {
            id,
        }),
        (DownloadStage::AwaitingCount { url }, DownloadEvent::Counted(Err(e))) => next
            == DownloadStage::Done && action == DownloadAction::Respond(Err(e)),
        (DownloadStage::AwaitingCount { url }, DownloadEvent::Counted(Ok(()))) => next
            == DownloadStage::Done && action == DownloadAction::Respond(Ok(AnyOf2::A(url))),
        _ => false,
    }
}

/// Whether `event` answers the action that `stage` waits on.
pub open spec fn download_awaits(stage: DownloadStage, event: DownloadEvent) -> bool {
    match (stage, event) {
        (DownloadStage::AwaitingPath, DownloadEvent::PathFound(_)) => true,
        (DownloadStage::AwaitingUrl, DownloadEvent::UrlSigned(_)) => true,
        (DownloadStage::AwaitingCount { .. }, DownloadEvent::Counted(_)) => true,
        _ => false,
    }
}

/// Some answer in `seen` is the signed link `url`.
pub open spec fn signed_in(seen: Seq<DownloadEvent>, url: String) -> bool {
    exists|i: int|
        0 <= i < seen.len() && #[trigger] seen[i] == DownloadEvent::UrlSigned(Ok::<String, String>(url))
}

/// Some answer in `seen` holds a path found for the build.
pub open spec fn found_in(seen: Seq<DownloadEvent>) -> bool {
    exists|i: int| 0 <= i < seen.len() && #[trigger] seen[i] matches DownloadEvent::PathFound(Ok(Some(_)))
}

/// A download being handled.
pub struct DownloadFlow {
    id: u32,
    stage: DownloadStage,
    seen: Ghost<Seq<DownloadEvent>>,
}

impl DownloadFlow {
    #[verifier::type_invariant]
    spec fn linked_before_counting(self) -> bool {
        &&& self.stage is AwaitingUrl ==> found_in(self.seen@)
        &&& self.stage matches DownloadStage::AwaitingCount { url } ==> signed_in(self.seen@, url)
            && found_in(self.seen@)
    }

    /// The build being downloaded.
    pub closed spec fn id(self) -> u32 {
        self.id
    }

    /// Where the download stands.
    pub closed spec fn stage(self) -> DownloadStage {
        self.stage
    }

    /// The answers the flow was given, in order.
    pub closed spec fn events(self) -> Seq<DownloadEvent> {
        self.seen@
    }

    /// Starts handling a download: first the build's object path is looked up.
    pub fn start(request: &DownloadByBuildId) -> (r: (DownloadFlow, DownloadAction))
        ensures
            r.0.id() == request.id,
            r.0.stage() == DownloadStage::AwaitingPath,
            r.0.events() == Seq::<DownloadEvent>::empty(),
            r.1 == (DownloadAction::FetchPath { id: request.id }),
    {
        let flow = DownloadFlow {
            id: request.id,
            stage: DownloadStage::AwaitingPath,
            seen: Ghost(Seq::empty()),
        };
        (flow, DownloadAction::FetchPath { id: request.id })
    }

    /// Whether the flow waits on this kind of answer.
    pub fn awaits(&self, event: &DownloadEvent) -> (r: bool)
        ensures
            r == download_awaits(self.stage(), *event),
    {
        match (&self.stage, event) {
            (DownloadStage::AwaitingPath, DownloadEvent::PathFound(_)) => true,
            (DownloadStage::AwaitingUrl, DownloadEvent::UrlSigned(_)) => true,
            (DownloadStage::AwaitingCount { .. }, DownloadEvent::Counted(_)) => true,
            _ => false,
        }
    }

    /// Takes the answer to the last action and says what to do next.
    ///
    /// The download count of a build is only raised once a link was signed for
    /// its object, and a client is only redirected to a link that was signed,
    /// after the count was raised.
    pub fn step(&mut self, event: DownloadEvent) -> (action: DownloadAction)
        requires
            download_awaits(old(self).stage(), event),
        ensures
            final(self).id() == old(self).id(),
            final(self).events() == old(self).events().push(event),
            download_step_allowed(
                old(self).id(),
                old(self).stage(),
                event,
                final(self).stage(),
                action,
            ),
            action is CountDownload ==> found_in(final(self).events()) && exists|url: String|
                signed_in(final(self).events(), url),
            action matches DownloadAction::Respond(Ok(AnyOf2::A(url))) ==> (signed_in(
                final(self).events(),
                url,
            ) && found_in(final(self).events())),
    {
        proof {
            use_type_invariant(&*self);
        }
        let ghost ev = event;
        let ghost old_seen = self.seen@;
        let ghost old_stage = self.stage;
        proof {
            let new_seen = old_seen.push(ev);
            if found_in(old_seen) {
                let i = choose|i: int|
                    0 <= i < old_seen.len() && #[trigger] old_seen[i] matches DownloadEvent::PathFound(
                        Ok(Some(_)),
                    );
                assert(new_seen[i] == old_seen[i]);
            }
            if let DownloadStage::AwaitingCount { url } = old_stage {
                let i = choose|i: int|
                    0 <= i < old_seen.len() && #[trigger] old_seen[i] == DownloadEvent::UrlSigned(
                        Ok::<String, String>(url),
                    );
                assert(new_seen[i] == old_seen[i]);
            }
        }
        self.seen = Ghost(self.seen@.push(ev));
        assert(self.seen@[old_seen.len() as int] == ev);
        match event {
            DownloadEvent::PathFound(Err(e)) => {
                self.stage = DownloadStage::Done;
                DownloadAction::Respond(Err(e))
            },
            DownloadEvent::PathFound(Ok(None)) => {
                self.stage = DownloadStage::Done;
                DownloadAction::Respond(Ok(AnyOf2::B(ApiError::NotFound)))
            },
            DownloadEvent::PathFound(Ok(Some(path))) => {
                self.stage = DownloadStage::AwaitingUrl;
                DownloadAction::SignGet { path, expires_in_secs: 180 }
            },
            DownloadEvent::UrlSigned(Err(e)) => {
                self.stage = DownloadStage::Done;
                DownloadAction::Respond(Err(e))
            },
            DownloadEvent::UrlSigned(Ok(url)) => {
                self.stage = DownloadStage::AwaitingCount { url };
                DownloadAction::CountDownload { id: self.id }
            },
            DownloadEvent::Counted(Err(e)) => {
                self.stage = DownloadStage::Done;
                DownloadAction::Respond(Err(e))
            },
            DownloadEvent::Counted(Ok(())) => {
                let mut stage = DownloadStage::Done;
                std::mem::swap(&mut stage, &mut self.stage);
                match stage {
                    DownloadStage::AwaitingCount { url } => {
                        assert(signed_in(self.seen@, url));
                        assert(found_in(self.seen@));
                        DownloadAction::Respond(Ok(AnyOf2::A(url)))
                    },
                    _ => {
                        proof {
                            assert(false);
                        }
                        DownloadAction::Respond(Ok(AnyOf2::B(ApiError::NotFound)))
                    },
                }
            },
        }
    }
}

} // verus!
