//! The resolution pipeline: one external identifier is resolved into one
//! composed entity through three strictly sequential lookups — edition,
//! then work, then author.
//!
//! The pipeline itself performs no I/O. It is a state machine: `start`
//! validates the identifier and names the first fetch, and `step` consumes
//! the outcome of one fetch and names the next action. The caller runs the
//! loop: it performs each named fetch against the catalog and hands the
//! outcome back (`decode_stage` turns a raw response body into the typed
//! event). A failed stage is a failed resolution: no retries, no partial
//! entity, and a cancelled fetch is handed in as a failure like any other.

use crate::author::author_matches;
use crate::author::author_wire_wf;
use crate::author::Author;
use crate::codec::build_lookup_path;
use crate::codec::id_lookup_path;
use crate::codec::isbn_lookup_path;
use crate::codec::short_id_of;
use crate::codec::extract_short_id;
use crate::codec::QueryType;
use crate::codec::RecordKind;
use crate::edition::edition_matches;
use crate::edition::edition_wire_wf;
use crate::edition::Edition;
use crate::entity::Entity;
use crate::json::json_of;
use crate::work::work_matches;
use crate::work::work_wire_wf;
use crate::work::Work;
use vstd::prelude::*;
use vstd::string::StrSliceExecFns;

verus! {

/// Why one fetch did not yield a usable record: the transport failed (or
/// the response was not 2xx), or the body did not decode into the record
/// kind the stage expected.
#[derive(Clone, Copy, Debug, PartialEq, Eq)]
pub enum FetchFailure {
    Transport,
    Decode,
}

/// Why a resolution run ended without an entity. A lookup failure names
/// the stage it happened at; the two empty-list conditions are distinct
/// from lookup failures because no fetch was even attempted for them.
#[derive(Clone, Copy, Debug, PartialEq, Eq)]
pub enum ResolveError {
    /// The external identifier handed in was empty: caller-input error.
    InvalidIdentifier,
    /// The edition fetch or its decoding failed.
    EditionLookupFailed(FetchFailure),
    /// The work fetch or its decoding failed.
    WorkLookupFailed(FetchFailure),
    /// The author fetch or its decoding failed.
    AuthorLookupFailed(FetchFailure),
    /// The edition carried an empty work-reference list.
    NoAssociatedWork,
    /// The work carried no author-reference entry.
    NoAssociatedAuthor,
}

/// Where one resolution run stands: which record it awaits, carrying what
/// the earlier stages already fetched, or its terminal outcome.
#[derive(Clone, Debug)]
pub enum PipelineState {
    AwaitingEdition { isbn: String },
    AwaitingWork { edition: Edition },
    AwaitingAuthor { edition: Edition, work: Work },
    Resolved { entity: Entity },
    Failed { error: ResolveError },
}

/// What the caller is to do next: perform one fetch of the given relative
/// path, or stop — the run is over.
#[derive(Clone, Debug)]
pub enum PipelineAction {
    Fetch { path: String },
    Stop,
}

/// One record, as decoded from a fetched body.
#[derive(Clone, Debug)]
pub enum StageRecord {
    EditionRecord(Edition),
    WorkRecord(Work),
    AuthorRecord(Author),
}

/// The outcome of one fetch, handed back into the pipeline.
#[derive(Clone, Debug)]
pub enum FetchEvent {
    Success(StageRecord),
    Failure(FetchFailure),
}

/// What stepping on a freshly fetched edition yields: an empty
/// work-reference list ends the run with `NoAssociatedWork` before any
/// further fetch; otherwise the first work reference — the primary work,
/// by the catalog's own order — names the next fetch.
pub open spec fn edition_transition(ed: Edition, s: PipelineState, act: PipelineAction) -> bool {
    if ed.works@.len() == 0 {
        s == (PipelineState::Failed { error: ResolveError::NoAssociatedWork }) && act
            == (PipelineAction::Stop)
    } else if short_id_of(ed.works@[0].key@).len() == 0 {
        s == (PipelineState::Failed {
            error: ResolveError::WorkLookupFailed(FetchFailure::Decode),
        }) && act == (PipelineAction::Stop)
    } else {
        &&& s == (PipelineState::AwaitingWork { edition: ed })
        &&& act matches PipelineAction::Fetch { path } && path@ == id_lookup_path(
            short_id_of(ed.works@[0].key@),
        )
    }
}

/// What stepping on a freshly fetched work yields: a missing or empty
/// author list ends the run with `NoAssociatedAuthor` before any further
/// fetch; otherwise the first entry's wrapped author key — ignoring the
/// entry's type tag — names the next fetch.
pub open spec fn work_transition(
    ed: Edition,
    w: Work,
    s: PipelineState,
    act: PipelineAction,
) -> bool {
    if (w.authors is None) || w.authors->0@.len() == 0 {
        s == (PipelineState::Failed { error: ResolveError::NoAssociatedAuthor }) && act
            == (PipelineAction::Stop)
    } else if short_id_of(w.authors->0@[0].author.key@).len() == 0 {
        s == (PipelineState::Failed {
            error: ResolveError::AuthorLookupFailed(FetchFailure::Decode),
        }) && act == (PipelineAction::Stop)
    } else {
        &&& s == (PipelineState::AwaitingAuthor { edition: ed, work: w })
        &&& act matches PipelineAction::Fetch { path } && path@ == id_lookup_path(
            short_id_of(w.authors->0@[0].author.key@),
        )
    }
}

/// What stepping on a freshly fetched author yields: the terminal success
/// state, composing the entity under the short id of the edition's own
/// key.
pub open spec fn author_transition(
    ed: Edition,
    w: Work,
    a: Author,
    s: PipelineState,
    act: PipelineAction,
) -> bool {
    &&& s matches PipelineState::Resolved { entity } && entity.spec_olid() == short_id_of(ed.key@)
        && entity.spec_edition() == ed && entity.spec_work() == w && entity.spec_author() == a
    &&& act == (PipelineAction::Stop)
}

/// Opens one resolution run for an external ISBN identifier. An empty
/// identifier fails the run at once; otherwise the run awaits the edition
/// record and the action names the ISBN-indexed fetch.
pub fn start(isbn: &str) -> (r: (PipelineState, PipelineAction))
    ensures
        isbn@.len() == 0 ==> r.0 == (PipelineState::Failed {
            error: ResolveError::InvalidIdentifier,
        }) && r.1 == (PipelineAction::Stop),
        isbn@.len() > 0 ==> (r.0 matches PipelineState::AwaitingEdition { isbn: s } && s@ == isbn@)
            && (r.1 matches PipelineAction::Fetch { path } && path@ == isbn_lookup_path(isbn@)),
{
    if isbn.unicode_len() == 0 {
        (PipelineState::Failed { error: ResolveError::InvalidIdentifier }, PipelineAction::Stop)
    } else {
        match build_lookup_path(RecordKind::Edition, QueryType::ISBN(isbn.to_owned())) {
            Ok(path) => (
                PipelineState::AwaitingEdition { isbn: isbn.to_owned() },
                PipelineAction::Fetch { path },
            ),
            Err(_) => (
                PipelineState::Failed { error: ResolveError::InvalidIdentifier },
                PipelineAction::Stop,
            ),
        }
    }
}

/// Advances one resolution run by the outcome of the fetch it awaited.
/// Terminal states absorb every event and never name another fetch; a
/// fetch failure — a cancelled fetch included — fails the run at its
/// stage; a record of the wrong kind counts as a decode failure there.
pub fn step(state: PipelineState, event: FetchEvent) -> (r: (PipelineState, PipelineAction))
    ensures
        ({
            let (s2, act) = r;
            match state {
                PipelineState::AwaitingEdition { .. } => match event {
                    FetchEvent::Success(StageRecord::EditionRecord(ed)) => edition_transition(
                        ed,
                        s2,
                        act,
                    ),
                    FetchEvent::Success(_) => s2 == (PipelineState::Failed {
                        error: ResolveError::EditionLookupFailed(FetchFailure::Decode),
                    }) && act == (PipelineAction::Stop),
                    FetchEvent::Failure(f) => s2 == (PipelineState::Failed {
                        error: ResolveError::EditionLookupFailed(f),
                    }) && act == (PipelineAction::Stop),
                },
                PipelineState::AwaitingWork { edition } => match event {
                    FetchEvent::Success(StageRecord::WorkRecord(w)) => work_transition(
                        edition,
                        w,
                        s2,
                        act,
                    ),
                    FetchEvent::Success(_) => s2 == (PipelineState::Failed {
                        error: ResolveError::WorkLookupFailed(FetchFailure::Decode),
                    }) && act == (PipelineAction::Stop),
                    FetchEvent::Failure(f) => s2 == (PipelineState::Failed {
                        error: ResolveError::WorkLookupFailed(f),
                    }) && act == (PipelineAction::Stop),
                },
                PipelineState::AwaitingAuthor { edition, work } => match event {
                    FetchEvent::Success(StageRecord::AuthorRecord(a)) => author_transition(
                        edition,
                        work,
                        a,
                        s2,
                        act,
                    ),
                    FetchEvent::Success(_) => s2 == (PipelineState::Failed {
                        error: ResolveError::AuthorLookupFailed(FetchFailure::Decode),
                    }) && act == (PipelineAction::Stop),
                    FetchEvent::Failure(f) => s2 == (PipelineState::Failed {
                        error: ResolveError::AuthorLookupFailed(f),
                    }) && act == (PipelineAction::Stop),
                },
                PipelineState::Resolved { .. } => s2 == state && act == (PipelineAction::Stop),
                PipelineState::Failed { .. } => s2 == state && act == (PipelineAction::Stop),
            }
        }),
{
    match state {
        PipelineState::AwaitingEdition { isbn: _ } => match event {
            FetchEvent::Success(StageRecord::EditionRecord(ed)) => {
                if ed.works.len() == 0 {
                    (
                        PipelineState::Failed { error: ResolveError::NoAssociatedWork },
                        PipelineAction::Stop,
                    )
                } else {
                    let key = ed.works[0].key.clone();
                    match build_lookup_path(RecordKind::Work, QueryType::OLID(key)) {
                        Ok(path) => (
                            PipelineState::AwaitingWork { edition: ed },
                            PipelineAction::Fetch { path },
                        ),
                        Err(_) => (
                            PipelineState::Failed {
                                error: ResolveError::WorkLookupFailed(FetchFailure::Decode),
                            },
                            PipelineAction::Stop,
                        ),
                    }
                }
            },
            FetchEvent::Success(_) => (
                PipelineState::Failed {
                    error: ResolveError::EditionLookupFailed(FetchFailure::Decode),
                },
                PipelineAction::Stop,
            ),
            FetchEvent::Failure(f) => (
                PipelineState::Failed { error: ResolveError::EditionLookupFailed(f) },
                PipelineAction::Stop,
            ),
        },
        PipelineState::AwaitingWork { edition } => match event {
            FetchEvent::Success(StageRecord::WorkRecord(w)) => {
                let empty = match &w.authors {
                    Some(a) => a.len() == 0,
                    None => true,
                };
                if empty {
                    (
                        PipelineState::Failed { error: ResolveError::NoAssociatedAuthor },
                        PipelineAction::Stop,
                    )
                } else {
                    let key = w.authors.as_ref().unwrap()[0].author.key.clone();
                    match build_lookup_path(RecordKind::Author, QueryType::OLID(key)) {
                        Ok(path) => (
                            PipelineState::AwaitingAuthor { edition, work: w },
                            PipelineAction::Fetch { path },
                        ),
                        Err(_) => (
                            PipelineState::Failed {
                                error: ResolveError::AuthorLookupFailed(FetchFailure::Decode),
                            },
                            PipelineAction::Stop,
                        ),
                    }
                }
            },
            FetchEvent::Success(_) => (
                PipelineState::Failed {
                    error: ResolveError::WorkLookupFailed(FetchFailure::Decode),
                },
                PipelineAction::Stop,
            ),
            FetchEvent::Failure(f) => (
                PipelineState::Failed { error: ResolveError::WorkLookupFailed(f) },
                PipelineAction::Stop,
            ),
        },
        PipelineState::AwaitingAuthor { edition, work } => match event {
            FetchEvent::Success(StageRecord::AuthorRecord(a)) => {
                let olid = extract_short_id(edition.key.as_str());
                let entity = Entity::new(olid, edition, work, a);
                (PipelineState::Resolved { entity }, PipelineAction::Stop)
            },
            FetchEvent::Success(_) => (
                PipelineState::Failed {
                    error: ResolveError::AuthorLookupFailed(FetchFailure::Decode),
                },
                PipelineAction::Stop,
            ),
            FetchEvent::Failure(f) => (
                PipelineState::Failed { error: ResolveError::AuthorLookupFailed(f) },
                PipelineAction::Stop,
            ),
        },
        PipelineState::Resolved { entity } => (
            PipelineState::Resolved { entity },
            PipelineAction::Stop,
        ),
        PipelineState::Failed { error } => (PipelineState::Failed { error }, PipelineAction::Stop),
    }
}

/// Turns the outcome of one fetch into the typed event the awaited stage
/// consumes: `None` stands for a transport failure (a non-2xx response or
/// a cancelled fetch); a body is decoded into the record kind the state
/// awaits, succeeding exactly when the body is JSON and a well-formed
/// record of that kind — the event then carries the record the body
/// materializes to — and a decode failure otherwise. On a terminal state
/// every outcome collapses to a decode failure; `step` ignores the event
/// there anyway.
pub fn decode_stage(state: &PipelineState, outcome: Option<&str>) -> (r: FetchEvent)
    ensures
        outcome is None ==> r == FetchEvent::Failure(FetchFailure::Transport),
        outcome matches Some(body) ==> match *state {
            PipelineState::AwaitingEdition { .. } => {
                if json_of(body@) matches Some(j) && edition_wire_wf(j) {
                    r matches FetchEvent::Success(StageRecord::EditionRecord(ed))
                        && edition_matches(json_of(body@)->0, ed) && ed.wf()
                } else {
                    r == FetchEvent::Failure(FetchFailure::Decode)
                }
            },
            PipelineState::AwaitingWork { .. } => {
                if json_of(body@) matches Some(j) && work_wire_wf(j) {
                    r matches FetchEvent::Success(StageRecord::WorkRecord(w)) && work_matches(
                        json_of(body@)->0,
                        w,
                    ) && w.wf()
                } else {
                    r == FetchEvent::Failure(FetchFailure::Decode)
                }
            },
            PipelineState::AwaitingAuthor { .. } => {
                if json_of(body@) matches Some(j) && author_wire_wf(j) {
                    r matches FetchEvent::Success(StageRecord::AuthorRecord(a)) && author_matches(
                        json_of(body@)->0,
                        a,
                    ) && a.wf()
                } else {
                    r == FetchEvent::Failure(FetchFailure::Decode)
                }
            },
            _ => r == FetchEvent::Failure(FetchFailure::Decode),
        },
{
    let body = match outcome {
        Some(b) => b,
        None => {
            return FetchEvent::Failure(FetchFailure::Transport);
        },
    };
    match state {
        PipelineState::AwaitingEdition { .. } => match Edition::from_body(body) {
            Ok(ed) => FetchEvent::Success(StageRecord::EditionRecord(ed)),
            Err(_) => FetchEvent::Failure(FetchFailure::Decode),
        },
        PipelineState::AwaitingWork { .. } => match Work::from_body(body) {
            Ok(w) => FetchEvent::Success(StageRecord::WorkRecord(w)),
            Err(_) => FetchEvent::Failure(FetchFailure::Decode),
        },
        PipelineState::AwaitingAuthor { .. } => match Author::from_body(body) {
            Ok(a) => FetchEvent::Success(StageRecord::AuthorRecord(a)),
            Err(_) => FetchEvent::Failure(FetchFailure::Decode),
        },
        _ => FetchEvent::Failure(FetchFailure::Decode),
    }
}

} // verus!
