use std::cell::Cell;

use backlogr::api::{
    expect_status, failure_message, has_more, project_id_in, status_id_in, story_id_in, NewStory, StatusChange,
};
use backlogr::{
    Hint, ProjectListEntry, Status, StatusEntry, StatusInfo, StoryPage, TaigaAPI, TaigaAPIError,
    UserStory, PAGE_SIZE,
};

fn story(id: usize, reference: usize, status_name: &str) -> UserStory {
    UserStory {
        id,
        reference,
        subject: format!("story {reference}"),
        status: 1,
        created_date: "2024-01-01T00:00:00Z".to_string(),
        status_extra_info: StatusInfo {
            color: "#999999".to_string(),
            is_closed: false,
            name: status_name.to_string(),
        },
    }
}

fn page_of(first: usize, n: usize, headers: (Option<&str>, Option<&str>, Option<&str>)) -> StoryPage {
    StoryPage {
        stories: (first..first + n).map(|r| story(1000 + r, r, "New")).collect(),
        paginated: headers.0.map(|s| s.to_string()),
        pagination_count: headers.1.map(|s| s.to_string()),
        paginated_by: headers.2.map(|s| s.to_string()),
    }
}

fn session() -> TaigaAPI {
    TaigaAPI { auth_token: "token".to_string(), api_url: "http://localhost".to_string() }
}

#[test]
fn four_pages_are_fetched_in_order() {
    let calls = Cell::new(0usize);
    let fetch = |project: usize, page: usize, size: usize| -> Result<StoryPage, TaigaAPIError> {
        assert_eq!(project, 7);
        assert_eq!(size, 100);
        calls.set(calls.get() + 1);
        assert_eq!(page, calls.get());
        if page <= 3 {
            Ok(page_of((page - 1) * 100, 100, (Some("true"), Some("100"), Some("100"))))
        } else {
            Ok(page_of(300, 40, (Some("true"), Some("40"), Some("100"))))
        }
    };
    let all = session().list_all_stories(7, fetch).unwrap();
    assert_eq!(calls.get(), 4);
    assert_eq!(all.len(), 340);
    for (i, s) in all.iter().enumerate() {
        assert_eq!(s.reference, i);
    }
}

#[test]
fn unpaginated_first_page_is_the_only_one() {
    let calls = Cell::new(0usize);
    let fetch = |_: usize, _: usize, _: usize| -> Result<StoryPage, TaigaAPIError> {
        calls.set(calls.get() + 1);
        Ok(page_of(0, 100, (Some("false"), Some("100"), Some("100"))))
    };
    let all = session().list_all_stories(1, fetch).unwrap();
    assert_eq!(calls.get(), 1);
    assert_eq!(all.len(), 100);
}

#[test]
fn missing_headers_mean_a_single_page() {
    let calls = Cell::new(0usize);
    let fetch = |_: usize, _: usize, _: usize| -> Result<StoryPage, TaigaAPIError> {
        calls.set(calls.get() + 1);
        Ok(page_of(0, 250, (None, None, None)))
    };
    let all = session().list_all_stories(1, fetch).unwrap();
    assert_eq!(calls.get(), 1);
    assert_eq!(all.len(), 250);
}

#[test]
fn failed_late_page_discards_everything() {
    let fetch = |_: usize, page: usize, _: usize| -> Result<StoryPage, TaigaAPIError> {
        if page == 1 {
            Ok(page_of(0, 100, (Some("true"), Some("100"), Some("100"))))
        } else {
            Err(TaigaAPIError::ApiError("boom".to_string()))
        }
    };
    let r = session().list_all_stories(1, fetch);
    assert!(matches!(r, Err(TaigaAPIError::ApiError(m)) if m == "boom"));
}

#[test]
fn empty_paginated_page_ends_the_listing() {
    let fetch = |_: usize, _: usize, _: usize| -> Result<StoryPage, TaigaAPIError> {
        Ok(page_of(0, 0, (Some("true"), Some("0"), Some("100"))))
    };
    assert_eq!(session().list_all_stories(1, fetch).unwrap().len(), 0);
}

#[test]
fn headers_are_read_as_numbers() {
    assert!(has_more(&page_of(0, 0, (Some("true"), Some("100"), Some("100"))), PAGE_SIZE));
    assert!(has_more(&page_of(0, 0, (Some("true"), Some("100"), None)), PAGE_SIZE));
    assert!(!has_more(&page_of(0, 0, (Some("true"), Some("abc"), Some("100"))), PAGE_SIZE));
    assert!(!has_more(&page_of(0, 0, (Some("TRUE"), Some("100"), Some("100"))), PAGE_SIZE));
    assert!(!has_more(&page_of(0, 0, (Some("true"), Some("40"), Some("100"))), PAGE_SIZE));
    assert!(has_more(&page_of(0, 0, (Some("true"), Some("50"), Some("50"))), PAGE_SIZE));
}

#[test]
fn get_story_id_lists_then_looks_up() {
    let fetch = |_: usize, page: usize, _: usize| -> Result<StoryPage, TaigaAPIError> {
        if page == 1 {
            Ok(page_of(0, 100, (Some("true"), Some("100"), Some("100"))))
        } else {
            Ok(page_of(100, 5, (Some("true"), Some("5"), Some("100"))))
        }
    };
    assert_eq!(session().get_story_id(1, 103, fetch).unwrap(), 1103);
    let r = session().get_story_id(1, 999, fetch);
    assert!(matches!(r, Err(TaigaAPIError::StoryNotFound(m)) if m == "User story with ref #999 not found."));
}

#[test]
fn wip_resolves_to_in_progress_entry() {
    assert_eq!(Status::Wip.server_name(), "In progress");
    let catalog = vec![
        StatusEntry { id: 11, name: "New".to_string() },
        StatusEntry { id: 12, name: "In progress".to_string() },
        StatusEntry { id: 13, name: "Done".to_string() },
    ];
    assert_eq!(status_id_in(&catalog, Status::Wip).unwrap(), 12);
    assert_eq!(status_id_in(&catalog, Status::New).unwrap(), 11);
    assert_eq!(status_id_in(&catalog, Status::Done).unwrap(), 13);
}

#[test]
fn missing_in_progress_entry_is_an_api_error() {
    let catalog = vec![
        StatusEntry { id: 11, name: "New".to_string() },
        StatusEntry { id: 12, name: "In Progress".to_string() },
        StatusEntry { id: 14, name: "WIP".to_string() },
    ];
    let e = status_id_in(&catalog, Status::Wip).unwrap_err();
    assert_eq!(e.exit_code(), 4);
    match e {
        TaigaAPIError::ApiError(m) => {
            assert!(m.contains("In progress"));
            assert_eq!(m, "Could not find 'In progress' status for project");
        }
        other => panic!("unexpected {other:?}"),
    }
}

#[test]
fn get_status_id_reads_catalog() {
    let fetch = |p: usize| -> Result<Vec<StatusEntry>, TaigaAPIError> {
        assert_eq!(p, 3);
        Ok(vec![StatusEntry { id: 5, name: "Done".to_string() }])
    };
    assert_eq!(session().get_status_id(3, Status::Done, fetch).unwrap(), 5);
    assert!(session().get_status_id(3, Status::New, fetch).is_err());
}

#[test]
fn lookup_twice_gives_same_id() {
    let stories = vec![story(501, 1, "New"), story(502, 2, "Done"), story(503, 3, "WIP")];
    let a = story_id_in(&stories, 2).unwrap();
    let b = story_id_in(&stories, 2).unwrap();
    assert_eq!(a, 502);
    assert_eq!(a, b);
}

#[test]
fn created_story_is_found() {
    let created_reference = 42;
    let stories = vec![story(900, 41, "New"), story(901, created_reference, "New")];
    assert_eq!(story_id_in(&stories, created_reference).unwrap(), 901);
}

#[test]
fn first_matching_reference_wins() {
    let stories = vec![story(1, 5, "New"), story(2, 5, "New")];
    assert_eq!(story_id_in(&stories, 5).unwrap(), 1);
}

#[test]
fn unknown_reference_is_story_not_found() {
    let e = story_id_in(&vec![], 42).unwrap_err();
    assert_eq!(e.exit_code(), 2);
    assert_eq!(e.hint(), Hint::ListStories);
    assert!(matches!(e, TaigaAPIError::StoryNotFound(ref m) if m == "User story with ref #42 not found."));
}

#[test]
fn project_found_by_exact_name() {
    let projects = vec![
        ProjectListEntry { id: 1, name: "backlog".to_string() },
        ProjectListEntry { id: 2, name: "Backlog".to_string() },
    ];
    assert_eq!(project_id_in(&projects, "Backlog").unwrap(), 2);
    let e = project_id_in(&projects, "BACKLOG").unwrap_err();
    assert_eq!(e.exit_code(), 3);
    assert!(matches!(e, TaigaAPIError::ProjectNotFound(ref m)
        if m == "Could not find a project named BACKLOG. Please check the project name."));
}

#[test]
fn unauthorized_answer_maps_to_api_error() {
    let e = expect_status(401, 200, "Fetching the list of stories failed. ", "{\"detail\":\"bad token\"}")
        .unwrap_err();
    assert_eq!(e.exit_code(), 4);
    assert_eq!(e.hint(), Hint::Unauthorized);
    assert!(matches!(e, TaigaAPIError::ApiError(ref m)
        if m == "Fetching the list of stories failed. HTTP 401: {\"detail\":\"bad token\"}"));
}

#[test]
fn expected_status_is_accepted() {
    assert!(expect_status(204, 204, "", "").is_ok());
    assert!(expect_status(201, 201, "Creating new story failed. ", "").is_ok());
}

#[test]
fn auth_answer_without_token_is_parse_failure() {
    let r = TaigaAPI::authenticated(
        "https://api.taiga.io/api/v1".to_string(),
        200,
        "{\"id\": 3}",
        Err("missing field `auth_token`".to_string()),
    );
    let e = r.err().unwrap();
    assert_eq!(e.exit_code(), 5);
    assert_eq!(e.hint(), Hint::ResponseFormat);
}

#[test]
fn auth_refusal_carries_code_and_body() {
    let r = TaigaAPI::authenticated("u".to_string(), 400, "bad credentials", Ok("t".to_string()));
    let e = r.err().unwrap();
    assert_eq!(e.exit_code(), 1);
    assert_eq!(e.hint(), Hint::CheckCredentials);
    assert!(matches!(e, TaigaAPIError::Authentication(ref m) if m == "HTTP 400: bad credentials"));
    assert_eq!(e.describe(), "Authentication failed: HTTP 400: bad credentials");
}

#[test]
fn auth_success_keeps_token() {
    let api = TaigaAPI::authenticated("base".to_string(), 200, "{}", Ok("abc".to_string())).unwrap();
    assert_eq!(api.auth_token, "abc");
    assert_eq!(api.api_url, "base");
}

#[test]
fn failure_message_renders_code() {
    assert_eq!(failure_message("ctx. ", 404, "nf"), "ctx. HTTP 404: nf");
    assert_eq!(failure_message("", -1, ""), "HTTP -1: ");
}

#[test]
fn create_sends_resolved_status() {
    let catalog = |_: usize| -> Result<Vec<StatusEntry>, TaigaAPIError> {
        Ok(vec![StatusEntry { id: 31, name: "New".to_string() }, StatusEntry { id: 32, name: "Done".to_string() }])
    };
    let post = |d: NewStory| -> Result<usize, TaigaAPIError> {
        assert_eq!(d.project, 4);
        assert_eq!(d.subject, "Write docs");
        assert_eq!(d.description, "");
        assert_eq!(d.status, 32);
        Ok(77)
    };
    assert_eq!(session().create_story(4, "Write docs", "", Status::Done, catalog, post).unwrap(), 77);
}

#[test]
fn create_without_status_sends_nothing() {
    let catalog = |_: usize| -> Result<Vec<StatusEntry>, TaigaAPIError> { Ok(vec![]) };
    let post = |_: NewStory| -> Result<usize, TaigaAPIError> { panic!("must not be sent") };
    let e = session().create_story(4, "x", "y", Status::Wip, catalog, post).unwrap_err();
    assert!(matches!(e, TaigaAPIError::ApiError(ref m) if m == "Could not find 'In progress' status for project"));
}

#[test]
fn update_resends_version_unchanged() {
    let catalog = |_: usize| -> Result<Vec<StatusEntry>, TaigaAPIError> {
        Ok(vec![StatusEntry { id: 8, name: "In progress".to_string() }])
    };
    let version = |s: usize| -> Result<usize, TaigaAPIError> {
        assert_eq!(s, 555);
        Ok(12)
    };
    let patch = |c: StatusChange| -> Result<(), TaigaAPIError> {
        assert_eq!(c, StatusChange { story: 555, status: 8, version: 12 });
        Ok(())
    };
    assert!(session().update_story_status(2, 555, Status::Wip, catalog, version, patch).is_ok());
}

#[test]
fn update_conflict_is_reported() {
    let catalog = |_: usize| -> Result<Vec<StatusEntry>, TaigaAPIError> {
        Ok(vec![StatusEntry { id: 9, name: "Done".to_string() }])
    };
    let version = |_: usize| -> Result<usize, TaigaAPIError> { Ok(3) };
    let patch = |_: StatusChange| -> Result<(), TaigaAPIError> {
        Err(TaigaAPIError::ApiError("HTTP 400: version conflict".to_string()))
    };
    let e = session().update_story_status(2, 1, Status::Done, catalog, version, patch).unwrap_err();
    assert_eq!(e.exit_code(), 4);
}
