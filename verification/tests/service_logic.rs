use postdamn::error::{
    ConnectionError, DatabaseErrorInformation, DatabaseErrorKind, PostdamnError, QueryError,
    ERROR_TITLE, INTERNAL_ERROR_TITLE,
};
use postdamn::extract::{invalid_json_problem, ValidatedJson};
use postdamn::models::{Timestamp, User};
use postdamn::params::{Page, Search};
use postdamn::problem::ProblemDetails;
use postdamn::service::Example;
use postdamn::users::{
    like_pattern, user_created_reply, users_list_reply, users_query, CreateUser, UserColumn,
};
use postdamn::weights::{
    file_name_from_segments, weights_file_action, weights_file_name, WeightsFileAction,
    WEIGHTS_URL,
};

fn problem(p: &ProblemDetails) -> (u16, Option<&str>, Option<&str>) {
    (p.status, p.title.as_deref(), p.detail.as_deref())
}

fn violation(kind: DatabaseErrorKind, message: &str, details: Option<&str>) -> PostdamnError {
    PostdamnError::from_query_error(QueryError::DatabaseError(
        kind,
        DatabaseErrorInformation {
            message: message.to_string(),
            details: details.map(|d| d.to_string()),
        },
    ))
}

fn user(id: u128, name: &str) -> User {
    User {
        id,
        created_at: Timestamp { seconds: 0, nanoseconds: 0 },
        updated_at: None,
        name: name.to_string(),
        email: "ann@example.com".to_string(),
        phone: "+14152370800".to_string(),
    }
}

#[test]
fn default_page_is_first_ten_rows() {
    let page = Page::default();
    assert_eq!(page.offset, Some(0));
    assert_eq!(page.limit, Some(10));
}

#[test]
fn query_of_default_page_without_search() {
    let q = users_query(&Page::default(), &Search { q: None });
    assert_eq!(q.order_by, vec![UserColumn::Name, UserColumn::Id]);
    assert_eq!(q.offset, 0);
    assert_eq!(q.limit, 10);
    assert_eq!(q.name_like, None);
}

#[test]
fn query_takes_zero_for_missing_page_fields() {
    let q = users_query(&Page { offset: None, limit: None }, &Search { q: None });
    assert_eq!(q.offset, 0);
    assert_eq!(q.limit, 0);
}

#[test]
fn query_keeps_page_and_filters_on_search_text() {
    let q = users_query(
        &Page { offset: Some(20), limit: Some(5) },
        &Search { q: Some("ali".to_string()) },
    );
    assert_eq!(q.order_by, vec![UserColumn::Name, UserColumn::Id]);
    assert_eq!(q.offset, 20);
    assert_eq!(q.limit, 5);
    assert_eq!(q.name_like.as_deref(), Some("%ali%"));
}

#[test]
fn like_pattern_of_empty_text_matches_everything() {
    assert_eq!(like_pattern(""), "%%");
    assert_eq!(like_pattern("a_b"), "%a_b%");
}

#[test]
fn unique_violation_is_client_error_with_details() {
    let p = violation(DatabaseErrorKind::UniqueViolation, "duplicate key", Some("Key (email) exists."))
        .into_response();
    assert_eq!(problem(&p), (400, Some(ERROR_TITLE), Some("Key (email) exists.")));
}

#[test]
fn foreign_key_violation_without_details_shows_message() {
    let p = violation(DatabaseErrorKind::ForeignKeyViolation, "violates foreign key", None)
        .into_response();
    assert_eq!(problem(&p), (400, Some(ERROR_TITLE), Some("violates foreign key")));
}

#[test]
fn other_database_errors_are_hidden() {
    for kind in [
        DatabaseErrorKind::UnableToSendCommand,
        DatabaseErrorKind::SerializationFailure,
        DatabaseErrorKind::ReadOnlyTransaction,
        DatabaseErrorKind::NotNullViolation,
        DatabaseErrorKind::CheckViolation,
        DatabaseErrorKind::ClosedConnection,
        DatabaseErrorKind::Unknown,
    ] {
        let p = violation(kind, "secret", Some("secret details")).into_response();
        assert_eq!(problem(&p), (500, Some(INTERNAL_ERROR_TITLE), None));
    }
}

#[test]
fn other_query_failures_are_hidden() {
    for e in [
        QueryError::NotFound,
        QueryError::RollbackTransaction,
        QueryError::AlreadyInTransaction,
        QueryError::NotInTransaction,
        QueryError::BrokenTransactionManager,
        QueryError::Other("query builder failed".to_string()),
    ] {
        let p = PostdamnError::from_query_error(e).into_response();
        assert_eq!(problem(&p), (500, Some("Internal server error."), None));
    }
}

#[test]
fn connection_failures_show_their_text() {
    for (e, text) in [
        (ConnectionError::BadConnection("refused".to_string()), "refused"),
        (ConnectionError::InvalidConnectionUrl("bad url".to_string()), "bad url"),
        (ConnectionError::InvalidCString("nul byte".to_string()), "nul byte"),
        (ConnectionError::CouldntSetupConfiguration("setup".to_string()), "setup"),
    ] {
        assert_eq!(e.message(), text);
        let p = PostdamnError::from_connection_error(e).into_response();
        assert_eq!(problem(&p), (500, Some("One or more errors occurred."), Some(text)));
    }
}

#[test]
fn pool_failure_is_bad_connection() {
    let e = PostdamnError::from_pool_error("Timed out in bb8".to_string());
    match &e {
        PostdamnError::ConnectionError(ConnectionError::BadConnection(t)) => {
            assert_eq!(t, "Timed out in bb8")
        }
        _ => panic!("not a bad connection"),
    }
    let p = e.into_response();
    assert_eq!(problem(&p), (500, Some(ERROR_TITLE), Some("Timed out in bb8")));
}

#[test]
fn body_that_is_no_json_is_refused() {
    let p = invalid_json_problem();
    assert_eq!(problem(&p), (400, Some("Invalid json."), Some("Cannot deserialize json.")));
}

#[test]
fn valid_body_is_accepted_unchanged() {
    match ValidatedJson::from_validation(7u32, Ok(())) {
        Ok(ValidatedJson(v)) => assert_eq!(v, 7),
        Err(_) => panic!("refused"),
    }
}

#[test]
fn invalid_body_is_refused_with_text() {
    match ValidatedJson::from_validation(7u32, Err("email: bad".to_string())) {
        Ok(_) => panic!("accepted"),
        Err(p) => assert_eq!(
            problem(&p),
            (400, Some("One ore more validation errors occurred."), Some("email: bad"))
        ),
    }
}

fn body(email: &str, phone: &str) -> CreateUser {
    CreateUser { name: "Ann".to_string(), email: email.to_string(), phone: phone.to_string() }
}

fn errors_of(b: &CreateUser) -> Vec<(&'static str, &'static str, String)> {
    match b.validate() {
        Ok(()) => vec![],
        Err(errors) => errors.into_iter().map(|e| (e.field, e.code, e.value)).collect(),
    }
}

#[test]
fn valid_user_body_passes() {
    assert!(body("ann@example.com", "+1 (415) 237-0800").validate().is_ok());
    assert!(body("weirder-email@here.and.there.com", "+33642926829").validate().is_ok());
}

#[test]
fn bad_email_is_reported() {
    assert_eq!(
        errors_of(&body("abc", "+14152370800")),
        vec![("email", "email", "abc".to_string())]
    );
    assert_eq!(errors_of(&body("", "+14152370800")), vec![("email", "email", String::new())]);
}

#[test]
fn bad_phone_is_reported() {
    assert_eq!(
        errors_of(&body("ann@example.com", "0642926829")),
        vec![("phone", "phone", "0642926829".to_string())]
    );
}

#[test]
fn both_bad_fields_are_reported_in_order() {
    assert_eq!(
        errors_of(&body("something@@somewhere.com", "TEXT")),
        vec![
            ("email", "email", "something@@somewhere.com".to_string()),
            ("phone", "phone", "TEXT".to_string())
        ]
    );
}

#[test]
fn listing_reply_is_ok_with_rows() {
    match users_list_reply(Ok(vec![user(1, "Ann")])) {
        Ok((status, rows)) => {
            assert_eq!(status, 200);
            assert_eq!(rows.len(), 1);
            assert_eq!(rows[0].name, "Ann");
        }
        Err(_) => panic!("failed"),
    }
    match users_list_reply(Err(QueryError::NotFound)) {
        Err(PostdamnError::DatabaseError(QueryError::NotFound)) => {}
        _ => panic!("wrong reply"),
    }
}

#[test]
fn creation_reply_is_created_with_row() {
    match user_created_reply(Ok(user(2, "Bob"))) {
        Ok((status, row)) => {
            assert_eq!(status, 201);
            assert_eq!(row.id, 2);
        }
        Err(_) => panic!("failed"),
    }
    match user_created_reply(Err(QueryError::AlreadyInTransaction)) {
        Err(PostdamnError::DatabaseError(QueryError::AlreadyInTransaction)) => {}
        _ => panic!("wrong reply"),
    }
}

#[test]
fn user_text_shows_hyphenated_id_and_name() {
    let u = user(0xa1a2a3a4b1b2c1c2d1d2d3d4d5d6d7d8, "Ann");
    assert_eq!(u.to_display_string(), "User (Id=a1a2a3a4-b1b2-c1c2-d1d2-d3d4d5d6d7d8, Name=Ann)");
}

#[test]
fn default_example_has_nil_ids() {
    let e = Example::default();
    assert_eq!(e.id, 0);
    assert_eq!(e.other_id, 0);
    assert_eq!(
        e.to_display_string(),
        "Id=00000000-0000-0000-0000-000000000000,other-Id=00000000-0000-0000-0000-000000000000"
    );
}

#[test]
fn example_text_and_reset() {
    let mut e = Example { id: 0x0123456789abcdef0123456789abcdef, other_id: u128::MAX };
    e.reset();
    assert_eq!(e.id, 0x0123456789abcdef0123456789abcdef);
    assert_eq!(e.other_id, u128::MAX);
    assert_eq!(
        e.to_display_string(),
        "Id=01234567-89ab-cdef-0123-456789abcdef,other-Id=ffffffff-ffff-ffff-ffff-ffffffffffff"
    );
}

#[test]
fn weights_file_is_named_after_last_path_segment() {
    assert_eq!(weights_file_name(WEIGHTS_URL).as_deref(), Some("resnet50-0676ba61.pth"));
    assert_eq!(weights_file_name("https://example.com/a/b/c.bin").as_deref(), Some("c.bin"));
}

#[test]
fn weights_file_of_url_without_path_segments_is_fallback() {
    assert_eq!(weights_file_name("mailto:someone@example.com").as_deref(), Some("tmp.pth"));
    assert_eq!(file_name_from_segments(None), "tmp.pth");
    assert_eq!(file_name_from_segments(Some(vec![])), "tmp.pth");
}

#[test]
fn weights_file_of_root_path_is_empty() {
    assert_eq!(weights_file_name("https://example.com/").as_deref(), Some(""));
}

#[test]
fn weights_file_of_no_url_is_none() {
    assert_eq!(weights_file_name("not a url"), None);
}

#[test]
fn weights_are_downloaded_only_when_missing() {
    assert_eq!(weights_file_action(true), WeightsFileAction::OpenExisting);
    assert_eq!(weights_file_action(false), WeightsFileAction::Download);
}
