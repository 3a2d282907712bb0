use openlibrary_client::pipeline::decode_stage;
use openlibrary_client::pipeline::start;
use openlibrary_client::pipeline::step;
use openlibrary_client::pipeline::FetchFailure;
use openlibrary_client::pipeline::PipelineAction;
use openlibrary_client::pipeline::PipelineState;
use openlibrary_client::pipeline::ResolveError;

/// Drives one resolution run against a stub collaborator: `responses[i]`
/// is what the i-th fetch returns (`None` for a transport failure).
/// Returns the terminal state and how many fetches were performed.
fn run(isbn: &str, responses: &[Option<&str>]) -> (PipelineState, usize) {
    let (mut state, mut action) = start(isbn);
    let mut fetches = 0;
    loop {
        match action {
            PipelineAction::Fetch { path: _ } => {
                let outcome = responses.get(fetches).copied().flatten();
                fetches += 1;
                let event = decode_stage(&state, outcome);
                let (next_state, next_action) = step(state, event);
                state = next_state;
                action = next_action;
            }
            PipelineAction::Stop => return (state, fetches),
        }
    }
}

fn edition_body(works: &str) -> String {
    format!(
        r#"{{"key": "/books/OL7353617M", "title": "Anarchism and Other Essays",
            "type": {{"key": "/type/edition"}}, "works": {works},
            "isbn_13": ["9781849352826"], "revision": 1,
            "created": {{"type": "d", "value": "v"}},
            "last_modified": {{"type": "d", "value": "v"}}}}"#
    )
}

const WORK_BODY: &str = r#"{
    "key": "/works/OL17859861W",
    "title": "Anarchism and Other Essays",
    "type": {"key": "/type/work"},
    "authors": [{"type": {"key": "/type/author_role"}, "author": {"key": "/authors/OL29497A"}}],
    "revision": 1,
    "last_modified": {"type": "d", "value": "v"}
}"#;

const AUTHOR_BODY: &str = r#"{
    "key": "/authors/OL29497A",
    "name": "Emma Goldman",
    "type": {"key": "/type/author"},
    "bio": "A writer.",
    "revision": 1,
    "last_modified": {"type": "d", "value": "v"}
}"#;

#[test]
fn empty_identifier_fails_without_any_fetch() {
    let (state, fetches) = run("", &[]);
    assert!(matches!(
        state,
        PipelineState::Failed {
            error: ResolveError::InvalidIdentifier
        }
    ));
    assert_eq!(fetches, 0);
}

#[test]
fn edition_lookup_path_is_isbn_indexed() {
    let (_, action) = start("9781849352826");
    match action {
        PipelineAction::Fetch { path } => assert_eq!(path, "/isbn/9781849352826.json"),
        PipelineAction::Stop => panic!("expected a fetch"),
    }
}

#[test]
fn work_lookup_path_comes_from_the_first_work_key() {
    let (state, action) = start("9781849352826");
    let body = edition_body(r#"[{"key": "/works/OL17859861W"}]"#);
    let event = decode_stage(&state, Some(&body));
    let (state, action2) = step(state, event);
    drop(action);
    assert!(matches!(state, PipelineState::AwaitingWork { .. }));
    match action2 {
        PipelineAction::Fetch { path } => assert_eq!(path, "/q/OL17859861W.json"),
        PipelineAction::Stop => panic!("expected a fetch"),
    }
}

#[test]
fn empty_work_list_stops_with_no_further_fetch() {
    let body = edition_body("[]");
    let (state, fetches) = run("9781849352826", &[Some(&body)]);
    assert!(matches!(
        state,
        PipelineState::Failed {
            error: ResolveError::NoAssociatedWork
        }
    ));
    // only the edition fetch happened; nothing was fetched after the
    // empty list was seen
    assert_eq!(fetches, 1);
}

#[test]
fn author_key_is_unwrapped_from_its_type_tagged_entry() {
    let (state, _) = start("9781849352826");
    let body = edition_body(r#"[{"key": "/works/OL17859861W"}]"#);
    let event = decode_stage(&state, Some(&body));
    let (state, _) = step(state, event);
    let event = decode_stage(&state, Some(WORK_BODY));
    let (state, action) = step(state, event);
    assert!(matches!(state, PipelineState::AwaitingAuthor { .. }));
    match action {
        PipelineAction::Fetch { path } => assert_eq!(path, "/q/OL29497A.json"),
        PipelineAction::Stop => panic!("expected a fetch"),
    }
}

#[test]
fn full_run_composes_the_entity() {
    let body = edition_body(r#"[{"key": "/works/OL17859861W"}]"#);
    let (state, fetches) = run(
        "9781849352826",
        &[Some(&body), Some(WORK_BODY), Some(AUTHOR_BODY)],
    );
    assert_eq!(fetches, 3);
    match state {
        PipelineState::Resolved { entity } => {
            assert_eq!(entity.get_olid(), "OL7353617M");
            assert_eq!(entity.get_work_title(), "Anarchism and Other Essays");
            assert_eq!(entity.get_author_name(), "Emma Goldman");
            assert_eq!(entity.get_edition().key, "/books/OL7353617M");
            assert_eq!(entity.get_work().key, "/works/OL17859861W");
            assert_eq!(entity.get_author().key, "/authors/OL29497A");
            let bio = entity.get_author().bio.as_ref().unwrap();
            assert_eq!(bio.type_field, "text");
            assert_eq!(bio.value, "A writer.");
        }
        other => panic!("expected a resolved entity, got {other:?}"),
    }
}

#[test]
fn transport_failure_fails_the_stage_it_hit() {
    let (state, fetches) = run("9781849352826", &[None]);
    assert!(matches!(
        state,
        PipelineState::Failed {
            error: ResolveError::EditionLookupFailed(FetchFailure::Transport)
        }
    ));
    assert_eq!(fetches, 1);

    let body = edition_body(r#"[{"key": "/works/OL17859861W"}]"#);
    let (state, fetches) = run("9781849352826", &[Some(&body), None]);
    assert!(matches!(
        state,
        PipelineState::Failed {
            error: ResolveError::WorkLookupFailed(FetchFailure::Transport)
        }
    ));
    assert_eq!(fetches, 2);

    let (state, fetches) = run("9781849352826", &[Some(&body), Some(WORK_BODY), None]);
    assert!(matches!(
        state,
        PipelineState::Failed {
            error: ResolveError::AuthorLookupFailed(FetchFailure::Transport)
        }
    ));
    assert_eq!(fetches, 3);
}

#[test]
fn undecodable_body_is_a_decode_failure_at_its_stage() {
    let (state, fetches) = run("9781849352826", &[Some("not json {")]);
    assert!(matches!(
        state,
        PipelineState::Failed {
            error: ResolveError::EditionLookupFailed(FetchFailure::Decode)
        }
    ));
    assert_eq!(fetches, 1);
}

#[test]
fn work_without_authors_stops_with_no_further_fetch() {
    let body = edition_body(r#"[{"key": "/works/OL17859861W"}]"#);
    let no_authors = r#"{"key": "/works/OL17859861W", "title": "T",
        "type": {"key": "/type/work"}, "authors": [], "revision": 1,
        "last_modified": {"type": "d", "value": "v"}}"#;
    let (state, fetches) = run("9781849352826", &[Some(&body), Some(no_authors)]);
    assert!(matches!(
        state,
        PipelineState::Failed {
            error: ResolveError::NoAssociatedAuthor
        }
    ));
    assert_eq!(fetches, 2);

    let absent_authors = r#"{"key": "/works/OL17859861W", "title": "T",
        "type": {"key": "/type/work"}, "revision": 1,
        "last_modified": {"type": "d", "value": "v"}}"#;
    let (state, fetches) = run("9781849352826", &[Some(&body), Some(absent_authors)]);
    assert!(matches!(
        state,
        PipelineState::Failed {
            error: ResolveError::NoAssociatedAuthor
        }
    ));
    assert_eq!(fetches, 2);
}

#[test]
fn terminal_states_absorb_further_events() {
    let (state, _) = step(
        PipelineState::Failed {
            error: ResolveError::NoAssociatedWork,
        },
        openlibrary_client::pipeline::FetchEvent::Failure(FetchFailure::Transport),
    );
    assert!(matches!(
        state,
        PipelineState::Failed {
            error: ResolveError::NoAssociatedWork
        }
    ));
}
