//! The course of one hash resolution, step by step: which request comes
//! next, and which of the two request budgets the task draws on meanwhile.

use crate::api::digest::{hasher_input, hasher_new, hasher_update, sha256_of, ArtifactHasher};
use crate::api::hash::{
    classify_probe, decode_hash_document, fallback_algorithm, finish_artifact_hash,
    hash_in_document, hash_probe_url, is_error_status, probe_url_of, probe_verdict, rejects,
    ProbeVerdict,
};
use crate::api::models::{RepoDownloadHash, RepoDownloadHashView};
use crate::error::{HttpFailure, IndexerError};
use vstd::prelude::*;

verus! {

/// Where a hash resolution stands.
#[derive(Debug, Clone, Copy, PartialEq, Eq, Structural)]
pub enum HashPhase {
    /// Waiting for a permit of the small budget.
    AwaitingSmallPermit,
    /// The request for the hash document is under way.
    Probing,
    /// The hash document is being received.
    ReadingBody,
    /// The hash document is being read, with no permit held.
    Parsing,
    /// Waiting for a permit of the large budget.
    AwaitingLargePermit,
    /// The request for the artifact is under way.
    Requesting,
    /// The artifact is being received and hashed.
    Streaming,
    /// The resolution has ended, with a hash or with an error.
    Finished,
}

impl HashPhase {
    /// Whether the task holds a permit of the small budget in this phase.
    pub open spec fn holds_small_permit(self) -> bool {
        self is Probing || self is ReadingBody
    }

    /// Whether the task holds a permit of the large budget in this phase.
    pub open spec fn holds_large_permit(self) -> bool {
        self is Requesting || self is Streaming
    }

    /// Tells whether the task holds a permit of the small budget.
    pub fn small_permit_held(&self) -> (held: bool)
        ensures
            held == self.holds_small_permit(),
    {
        match self {
            HashPhase::Probing => true,
            HashPhase::ReadingBody => true,
            _ => false,
        }
    }

    /// Tells whether the task holds a permit of the large budget.
    pub fn large_permit_held(&self) -> (held: bool)
        ensures
            held == self.holds_large_permit(),
    {
        match self {
            HashPhase::Requesting => true,
            HashPhase::Streaming => true,
            _ => false,
        }
    }
}

/// What happened since the last step.
#[derive(Debug, Clone, PartialEq, Eq)]
pub enum HashEvent {
    SmallPermitGranted,
    /// The request for the hash document was answered with this status.
    ProbeAnswered(u16),
    /// The hash document has arrived in full.
    BodyReceived,
    /// The two fields of the hash document.
    DocumentParsed { algorithm: String, hash: String },
    LargePermitGranted,
    /// The request for the artifact was answered with this status.
    DownloadAnswered(u16),
    /// The next piece of the artifact.
    Chunk(Vec<u8>),
    /// The artifact has arrived in full.
    EndOfStream,
}

/// What the task is to do next. With `Finish` and `Fail` it gives back
/// whatever permit it holds.
#[derive(Debug, PartialEq, Eq)]
pub enum HashAction {
    AcquireSmallPermit,
    /// Request the hash document at this URL.
    SendProbe(String),
    ReadBody,
    /// Give the small permit back, then read the document's two fields.
    ReleaseSmallPermitAndParse,
    /// Give the small permit back, and only then wait for a large one.
    ReleaseSmallPermitAndAcquireLarge,
    /// Request the artifact at this URL.
    StartDownload(String),
    ReadChunk,
    Finish(RepoDownloadHash),
    Fail(IndexerError),
}

enum Stage {
    AwaitingSmallPermit,
    Probing,
    ReadingBody,
    Parsing,
    AwaitingLargePermit,
    Requesting,
    Streaming(ArtifactHasher),
    Finished,
}

/// One hash resolution under way.
pub struct HashResolution {
    url: String,
    probe_url: String,
    stage: Stage,
}

/// The phase that follows an event, or nothing where the event does not
/// belong to the phase.
pub open spec fn phase_after(phase: HashPhase, event: HashEvent) -> Option<HashPhase> {
    match (phase, event) {
        (HashPhase::AwaitingSmallPermit, HashEvent::SmallPermitGranted) => Some(HashPhase::Probing),
        (HashPhase::Probing, HashEvent::ProbeAnswered(status)) => Some(
            match probe_verdict(status) {
                ProbeVerdict::Fallback => HashPhase::AwaitingLargePermit,
                ProbeVerdict::Document => HashPhase::ReadingBody,
                ProbeVerdict::Rejected => HashPhase::Finished,
            },
        ),
        (HashPhase::ReadingBody, HashEvent::BodyReceived) => Some(HashPhase::Parsing),
        (HashPhase::Parsing, HashEvent::DocumentParsed { .. }) => Some(HashPhase::Finished),
        (HashPhase::AwaitingLargePermit, HashEvent::LargePermitGranted) => Some(
            HashPhase::Requesting,
        ),
        (HashPhase::Requesting, HashEvent::DownloadAnswered(status)) => Some(
            if is_error_status(status) {
                HashPhase::Finished
            } else {
                HashPhase::Streaming
            },
        ),
        (HashPhase::Streaming, HashEvent::Chunk(_)) => Some(HashPhase::Streaming),
        (HashPhase::Streaming, HashEvent::EndOfStream) => Some(HashPhase::Finished),
        _ => None,
    }
}

/// In no phase does the task hold a permit of each budget, and while it
/// waits for a permit it holds none.
pub proof fn lemma_permits_never_overlap(phase: HashPhase)
    ensures
        !(phase.holds_small_permit() && phase.holds_large_permit()),
        phase is AwaitingSmallPermit || phase is AwaitingLargePermit ==> !phase.holds_small_permit()
            && !phase.holds_large_permit(),
{
}

/// A step that leaves the task with a large permit starts where it holds no
/// small one, and a step that leaves it with a small permit starts where it
/// holds no large one: a permit of one budget is never taken while one of
/// the other is held.
pub proof fn lemma_permit_taken_with_none_held(phase: HashPhase, event: HashEvent)
    ensures
        phase_after(phase, event) matches Some(next) ==> {
            &&& next.holds_large_permit() ==> !phase.holds_small_permit()
            &&& next.holds_small_permit() ==> !phase.holds_large_permit()
        },
{
}

/// Once a resolution has ended it holds no permit and takes no event.
pub proof fn lemma_finished_is_final(event: HashEvent)
    ensures
        !HashPhase::Finished.holds_small_permit(),
        !HashPhase::Finished.holds_large_permit(),
        phase_after(HashPhase::Finished, event).is_none(),
{
}

impl HashResolution {
    /// The phase of the resolution.
    pub closed spec fn phase(&self) -> HashPhase {
        match self.stage {
            Stage::AwaitingSmallPermit => HashPhase::AwaitingSmallPermit,
            Stage::Probing => HashPhase::Probing,
            Stage::ReadingBody => HashPhase::ReadingBody,
            Stage::Parsing => HashPhase::Parsing,
            Stage::AwaitingLargePermit => HashPhase::AwaitingLargePermit,
            Stage::Requesting => HashPhase::Requesting,
            Stage::Streaming(_) => HashPhase::Streaming,
            Stage::Finished => HashPhase::Finished,
        }
    }

    /// The URL of the artifact.
    pub closed spec fn url(&self) -> Seq<char> {
        self.url@
    }

    /// The bytes of the artifact that have been hashed so far.
    pub closed spec fn hashed(&self) -> Seq<u8> {
        match self.stage {
            Stage::Streaming(hasher) => hasher_input(hasher),
            _ => Seq::empty(),
        }
    }

    /// The resolution knows the URL of the hash document of its artifact.
    pub closed spec fn well_formed(&self) -> bool {
        probe_url_of(self.url@) == Some(self.probe_url@)
    }

    /// Whether an action is the one that answers an event in a state, and
    /// `next` the state that it leaves.
    pub open spec fn answers(&self, event: HashEvent, next: HashResolution, action: HashAction) -> bool {
        match (self.phase(), event) {
            (HashPhase::AwaitingSmallPermit, HashEvent::SmallPermitGranted) => {
                &&& action matches HashAction::SendProbe(target)
                &&& probe_url_of(self.url()) == Some(target@)
            },
            (HashPhase::Probing, HashEvent::ProbeAnswered(status)) => match probe_verdict(status) {
                ProbeVerdict::Fallback => action is ReleaseSmallPermitAndAcquireLarge,
                ProbeVerdict::Document => action is ReadBody,
                ProbeVerdict::Rejected => action matches HashAction::Fail(
                    IndexerError::HttpClientError(HttpFailure::Status(code)),
                ) && code == status,
            },
            (HashPhase::ReadingBody, HashEvent::BodyReceived) => action
                is ReleaseSmallPermitAndParse,
            (HashPhase::Parsing, HashEvent::DocumentParsed { algorithm, hash }) => match action {
                HashAction::Finish(found) => hash_in_document(algorithm@, hash@) == Ok::<
                    RepoDownloadHashView,
                    base64::DecodeError,
                >(found@),
                HashAction::Fail(error) => error matches IndexerError::InvalidBase64(reason)
                    && hash_in_document(algorithm@, hash@) == Err::<
                    RepoDownloadHashView,
                    base64::DecodeError,
                >(reason),
                _ => false,
            },
            (HashPhase::AwaitingLargePermit, HashEvent::LargePermitGranted) => {
                &&& action matches HashAction::StartDownload(target)
                &&& target@ == self.url()
            },
            (HashPhase::Requesting, HashEvent::DownloadAnswered(status)) => if is_error_status(
                status,
            ) {
                action matches HashAction::Fail(
                    IndexerError::HttpClientError(HttpFailure::Status(code)),
                ) && code == status
            } else {
                action is ReadChunk && next.hashed() == Seq::<u8>::empty()
            },
            (HashPhase::Streaming, HashEvent::Chunk(bytes)) => {
                &&& action is ReadChunk
                &&& next.hashed() == self.hashed() + bytes@
            },
            (HashPhase::Streaming, HashEvent::EndOfStream) => {
                &&& action matches HashAction::Finish(found)
                &&& found@ == (RepoDownloadHashView {
                    algorithm: fallback_algorithm(),
                    value: sha256_of(self.hashed()),
                })
            },
            _ => false,
        }
    }

    /// Begins the resolution of the hash of the artifact at a URL. The first
    /// thing to do is to wait for a small permit. A text for which no URL of
    /// a hash document can be formed is refused.
    pub fn begin(url: String) -> (started: Result<(HashResolution, HashAction), IndexerError>)
        ensures
            match started {
                Ok((state, action)) => {
                    &&& probe_url_of(url@).is_some()
                    &&& state.well_formed()
                    &&& state.url() == url@
                    &&& state.phase() == HashPhase::AwaitingSmallPermit
                    &&& action is AcquireSmallPermit
                },
                Err(error) => {
                    &&& probe_url_of(url@).is_none()
                    &&& error matches IndexerError::HttpClientError(HttpFailure::InvalidUrl(text))
                    &&& text@ == url@
                },
            },
    {
        match hash_probe_url(url.as_str()) {
            Some(probe_url) => Ok(
                (
                    HashResolution { url, probe_url, stage: Stage::AwaitingSmallPermit },
                    HashAction::AcquireSmallPermit,
                ),
            ),
            None => Err(IndexerError::HttpClientError(HttpFailure::InvalidUrl(url))),
        }
    }

    /// Tells the phase of the resolution.
    pub fn current_phase(&self) -> (phase: HashPhase)
        ensures
            phase == self.phase(),
    {
        match &self.stage {
            Stage::AwaitingSmallPermit => HashPhase::AwaitingSmallPermit,
            Stage::Probing => HashPhase::Probing,
            Stage::ReadingBody => HashPhase::ReadingBody,
            Stage::Parsing => HashPhase::Parsing,
            Stage::AwaitingLargePermit => HashPhase::AwaitingLargePermit,
            Stage::Requesting => HashPhase::Requesting,
            Stage::Streaming(_) => HashPhase::Streaming,
            Stage::Finished => HashPhase::Finished,
        }
    }

    /// Takes an event in and says what to do next. An event that does not
    /// belong to the phase changes nothing and is answered with nothing.
    pub fn step(self, event: HashEvent) -> (outcome: (HashResolution, Option<HashAction>))
        requires
            self.well_formed(),
        ensures
            outcome.0.well_formed(),
            outcome.0.url() == self.url(),
            match phase_after(self.phase(), event) {
                Some(phase) => {
                    &&& outcome.0.phase() == phase
                    &&& outcome.1 matches Some(action)
                    &&& self.answers(event, outcome.0, action)
                },
                None => outcome.0 == self && outcome.1.is_none(),
            },
    {
        let HashResolution { url, probe_url, stage } = self;
        match (stage, event) {
            (Stage::AwaitingSmallPermit, HashEvent::SmallPermitGranted) => {
                let target = probe_url.clone();
                (HashResolution { url, probe_url, stage: Stage::Probing }, Some(
                    HashAction::SendProbe(target),
                ))
            },
            (Stage::Probing, HashEvent::ProbeAnswered(status)) => match classify_probe(status) {
                ProbeVerdict::Fallback => (
                    HashResolution { url, probe_url, stage: Stage::AwaitingLargePermit },
                    Some(HashAction::ReleaseSmallPermitAndAcquireLarge),
                ),
                ProbeVerdict::Document => (
                    HashResolution { url, probe_url, stage: Stage::ReadingBody },
                    Some(HashAction::ReadBody),
                ),
                ProbeVerdict::Rejected => (
                    HashResolution { url, probe_url, stage: Stage::Finished },
                    Some(
                        HashAction::Fail(
                            IndexerError::HttpClientError(HttpFailure::Status(status)),
                        ),
                    ),
                ),
            },
            (Stage::ReadingBody, HashEvent::BodyReceived) => (
                HashResolution { url, probe_url, stage: Stage::Parsing },
                Some(HashAction::ReleaseSmallPermitAndParse),
            ),
            (Stage::Parsing, HashEvent::DocumentParsed { algorithm, hash }) => {
                let action = match decode_hash_document(algorithm, hash.as_str()) {
                    Ok(found) => HashAction::Finish(found),
                    Err(error) => HashAction::Fail(error),
                };
                (HashResolution { url, probe_url, stage: Stage::Finished }, Some(action))
            },
            (Stage::AwaitingLargePermit, HashEvent::LargePermitGranted) => {
                let target = url.clone();
                (HashResolution { url, probe_url, stage: Stage::Requesting }, Some(
                    HashAction::StartDownload(target),
                ))
            },
            (Stage::Requesting, HashEvent::DownloadAnswered(status)) => {
                if rejects(status) {
                    (HashResolution { url, probe_url, stage: Stage::Finished }, Some(
                        HashAction::Fail(
                            IndexerError::HttpClientError(HttpFailure::Status(status)),
                        ),
                    ))
                } else {
                    let hasher = hasher_new();
                    (HashResolution { url, probe_url, stage: Stage::Streaming(hasher) }, Some(
                        HashAction::ReadChunk,
                    ))
                }
            },
            (Stage::Streaming(hasher), HashEvent::Chunk(bytes)) => {
                let mut hasher = hasher;
                hasher_update(&mut hasher, bytes.as_slice());
                (HashResolution { url, probe_url, stage: Stage::Streaming(hasher) }, Some(
                    HashAction::ReadChunk,
                ))
            },
            (Stage::Streaming(hasher), HashEvent::EndOfStream) => {
                let found = finish_artifact_hash(hasher);
                (HashResolution { url, probe_url, stage: Stage::Finished }, Some(
                    HashAction::Finish(found),
                ))
            },
            (stage, _) => (HashResolution { url, probe_url, stage }, None),
        }
    }
}

} // verus!
