use borg_vinculum::api_client::{
    bearer_header_value, body_text_error_message, deserialize_error_message, error_path,
    response_kind, stats_path, structured_error_message, unknown_error_message, ResponseKind,
};
use borg_vinculum::handler::{
    bearer_token_of, complete_duration, stat_row, ApiError, ApiErrorResponse, ApiStatusCode,
};
use borg_vinculum::report::{CreateStats, HookStats, StatReport};

#[test]
fn bearer_token_is_extracted_from_a_well_formed_header() {
    assert_eq!(bearer_token_of("Bearer abc123"), Some("abc123".to_string()));
    assert_eq!(bearer_token_of("Bearer "), Some("".to_string()));
}

#[test]
fn malformed_authorization_headers_are_rejected() {
    assert_eq!(bearer_token_of(""), None);
    assert_eq!(bearer_token_of("Bearer"), None);
    assert_eq!(bearer_token_of("Bearerabc"), None);
    assert_eq!(bearer_token_of("Basic abc"), None);
    assert_eq!(bearer_token_of("Bearer a b"), None);
    assert_eq!(bearer_token_of("bearer abc"), None);
}

#[test]
fn status_codes_have_their_documented_numbers() {
    assert_eq!(ApiStatusCode::Unauthenticated.number(), 1000);
    assert_eq!(ApiStatusCode::NotFound.number(), 1001);
    assert_eq!(ApiStatusCode::InvalidJson.number(), 1003);
    assert_eq!(ApiStatusCode::LoginFailed.number(), 1005);
    assert_eq!(ApiStatusCode::InvalidName.number(), 1008);
    assert_eq!(ApiStatusCode::InvalidUuid.number(), 1011);
    assert_eq!(ApiStatusCode::InternalServerError.number(), 2000);
    assert_eq!(ApiStatusCode::DatabaseError.number(), 2001);
    assert_eq!(ApiStatusCode::SessionError.number(), 2002);
}

#[test]
fn client_errors_answer_with_http_400() {
    let (status, body) = ApiError::LoginFailed.response_parts();
    assert_eq!(status, 400);
    assert_eq!(body.status_code, ApiStatusCode::LoginFailed);
    assert_eq!(body.message, "The login was not successful");

    let (status, body) = ApiError::InvalidJson("missing field".to_string()).response_parts();
    assert_eq!(status, 400);
    assert_eq!(body.status_code, ApiStatusCode::InvalidJson);
    assert_eq!(body.message, "Json error: missing field");

    let (status, body) = ApiError::NameAlreadyExists.response_parts();
    assert_eq!(status, 400);
    assert_eq!(body.status_code, ApiStatusCode::NameAlreadyExists);
    assert_eq!(body.message, "There exists already an entity with that name");
}

#[test]
fn server_errors_answer_with_http_500() {
    let (status, body) = ApiError::DatabaseError("connection reset".to_string()).response_parts();
    assert_eq!(status, 500);
    assert_eq!(body.status_code, ApiStatusCode::DatabaseError);
    assert_eq!(body.message, "Database error occurred");

    let (status, body) = ApiError::InvalidHash("bad salt".to_string()).response_parts();
    assert_eq!(status, 500);
    assert_eq!(body.status_code, ApiStatusCode::InternalServerError);
    assert_eq!(body.message, "Internal server error");

    let (status, body) = ApiError::SessionGet("lost".to_string()).response_parts();
    assert_eq!(status, 500);
    assert_eq!(body.status_code, ApiStatusCode::SessionError);
    assert_eq!(body.message, "Session error occurred");
}

#[test]
fn every_error_variant_maps_to_its_status_and_message() {
    let cases: Vec<(ApiError, u16, u16, &str)> = vec![
        (ApiError::Unauthenticated, 400, 1000, "Unauthenticated"),
        (ApiError::NotFound, 400, 1001, "The resource was not found"),
        (ApiError::InvalidContentType, 400, 1002, "Content type error"),
        (ApiError::InvalidJson("eof".to_string()), 400, 1003, "Json error: eof"),
        (ApiError::PayloadOverflow("Payload too large".to_string()), 400, 1004, "Payload too large"),
        (ApiError::LoginFailed, 400, 1005, "The login was not successful"),
        (ApiError::InvalidPassword, 400, 1006, "Invalid password"),
        (ApiError::NameAlreadyExists, 400, 1007, "There exists already an entity with that name"),
        (ApiError::InvalidName, 400, 1008, "Invalid name specified"),
        (
            ApiError::ListRepositoryError("borg failed".to_string()),
            400,
            1009,
            "Error while listing repository: borg failed",
        ),
        (
            ApiError::RepositoryAlreadyExists,
            400,
            1010,
            "There exists already an entity with that repository",
        ),
        (ApiError::InvalidUuid, 400, 1011, "Invalid uuid specified"),
        (ApiError::InternalServerError, 500, 2000, "The resource was not found"),
        (ApiError::DatabaseError("down".to_string()), 500, 2001, "Database error occurred"),
        (ApiError::InvalidHash("salt".to_string()), 500, 2000, "Internal server error"),
        (ApiError::SessionInsert("full".to_string()), 500, 2002, "Session error occurred"),
        (ApiError::SessionGet("lost".to_string()), 500, 2002, "Session error occurred"),
        (ApiError::SessionCorrupt, 500, 2002, "Corrupt session"),
    ];
    for (error, http, code, message) in cases {
        let text = error.message();
        let (status, body) = error.response_parts();
        assert_eq!(status, http, "http status of {error:?}");
        assert_eq!(body.status_code.number(), code, "status code of {error:?}");
        assert_eq!(body.message, message, "message of {error:?}");
        assert_eq!(text, message, "display of {error:?}");
    }
}

#[test]
fn corrupt_session_is_a_server_error() {
    // code 2002 is in the server-error range, so the HTTP status is 500
    let (status, body) = ApiError::SessionCorrupt.response_parts();
    assert_eq!(status, 500);
    assert_eq!(body.status_code, ApiStatusCode::SessionError);
    assert_eq!(body.message, "Corrupt session");
}

#[test]
fn http_status_follows_the_code_ranges() {
    let samples = vec![
        ApiError::Unauthenticated,
        ApiError::InvalidJson("eof".to_string()),
        ApiError::LoginFailed,
        ApiError::InvalidUuid,
        ApiError::InternalServerError,
        ApiError::DatabaseError("down".to_string()),
        ApiError::InvalidHash("salt".to_string()),
        ApiError::SessionInsert("full".to_string()),
        ApiError::SessionGet("lost".to_string()),
        ApiError::SessionCorrupt,
    ];
    for error in samples {
        let (status, body) = error.response_parts();
        let code = body.status_code.number();
        match status {
            400 => assert!((1000..2000).contains(&code), "{error:?}"),
            500 => assert!((2000..3000).contains(&code), "{error:?}"),
            other => panic!("unexpected HTTP status {other} for {error:?}"),
        }
    }
}

#[test]
fn error_response_holds_what_it_was_built_from() {
    let body = ApiErrorResponse::new(ApiStatusCode::PayloadOverflow, "too big".to_string());
    assert_eq!(body.status_code, ApiStatusCode::PayloadOverflow);
    assert_eq!(body.message, "too big");
}

#[test]
fn a_stat_report_is_assembled_from_its_parts() {
    let create_stats = CreateStats {
        original_size: 2,
        compressed_size: 2,
        deduplicated_size: 2,
        nfiles: 2,
        duration: 9,
    };
    let report = StatReport::assemble(Some(HookStats { duration: 1 }), create_stats, None);
    assert_eq!(report.pre_hook_stats, Some(HookStats { duration: 1 }));
    assert_eq!(report.create_stats, create_stats);
    assert_eq!(report.post_hook_stats, None);
}

#[test]
fn complete_duration_adds_whichever_hook_durations_exist() {
    let create_stats = CreateStats {
        original_size: 1,
        compressed_size: 1,
        deduplicated_size: 1,
        nfiles: 1,
        duration: 100,
    };
    let report = StatReport {
        pre_hook_stats: Some(HookStats { duration: 11 }),
        create_stats,
        post_hook_stats: Some(HookStats { duration: 5 }),
    };
    assert_eq!(complete_duration(&report), Some(116));

    let bare = StatReport {
        pre_hook_stats: None,
        create_stats,
        post_hook_stats: None,
    };
    assert_eq!(complete_duration(&bare), Some(100));

    let overflowing = StatReport {
        pre_hook_stats: Some(HookStats { duration: u64::MAX }),
        create_stats,
        post_hook_stats: None,
    };
    assert_eq!(complete_duration(&overflowing), None);
}

#[test]
fn stat_rows_keep_each_hook_duration_in_its_own_column() {
    let create_stats = CreateStats {
        original_size: 4096,
        compressed_size: 1024,
        deduplicated_size: 512,
        nfiles: 3,
        duration: 100,
    };
    let report = StatReport {
        pre_hook_stats: Some(HookStats { duration: 11 }),
        create_stats,
        post_hook_stats: Some(HookStats { duration: 5 }),
    };
    let row = stat_row(&report).expect("every value fits");
    assert_eq!(row.pre_hook_duration, Some(11));
    assert_eq!(row.post_hook_duration, Some(5));
    assert_eq!(row.create_duration, 100);
    assert_eq!(row.complete_duration, 116);
    assert_eq!(row.original_size, 4096);
    assert_eq!(row.compressed_size, 1024);
    assert_eq!(row.deduplicated_size, 512);
    assert_eq!(row.nfiles, 3);

    let bare = StatReport {
        pre_hook_stats: None,
        create_stats,
        post_hook_stats: Some(HookStats { duration: 5 }),
    };
    let row = stat_row(&bare).expect("every value fits");
    assert_eq!(row.pre_hook_duration, None);
    assert_eq!(row.post_hook_duration, Some(5));
    assert_eq!(row.complete_duration, 105);
}

#[test]
fn stat_rows_refuse_values_beyond_the_signed_columns() {
    let oversized = StatReport {
        pre_hook_stats: None,
        create_stats: CreateStats {
            original_size: u64::MAX,
            compressed_size: 1,
            deduplicated_size: 1,
            nfiles: 1,
            duration: 1,
        },
        post_hook_stats: None,
    };
    assert!(stat_row(&oversized).is_none());

    let overlong = StatReport {
        pre_hook_stats: Some(HookStats { duration: u64::MAX }),
        create_stats: CreateStats {
            original_size: 1,
            compressed_size: 1,
            deduplicated_size: 1,
            nfiles: 1,
            duration: 1,
        },
        post_hook_stats: None,
    };
    assert!(stat_row(&overlong).is_none());
}

#[test]
fn vinculum_responses_are_classified_by_status() {
    assert_eq!(response_kind(200), ResponseKind::Success);
    assert_eq!(response_kind(400), ResponseKind::StructuredError);
    assert_eq!(response_kind(500), ResponseKind::StructuredError);
    assert_eq!(response_kind(404), ResponseKind::UnknownError);
    assert_eq!(response_kind(201), ResponseKind::UnknownError);
    assert_eq!(response_kind(503), ResponseKind::UnknownError);
}

#[test]
fn error_strings_follow_the_documented_formats() {
    assert_eq!(
        structured_error_message(1005, "The login was not successful"),
        "Error code 1005: The login was not successful"
    );
    assert_eq!(unknown_error_message("<html>gateway</html>"), "Unknown error returned: <html>gateway</html>");
    assert_eq!(
        deserialize_error_message("expected value at line 1"),
        "Could not deserialize error response: expected value at line 1"
    );
    assert_eq!(
        body_text_error_message("invalid encoding"),
        "Could not convert response to text: invalid encoding"
    );
}

#[test]
fn drone_api_paths_and_header() {
    assert_eq!(stats_path(), "/api/drone/v1/stats");
    assert_eq!(error_path(), "/api/drone/v1/error");
    assert_eq!(bearer_header_value("tok3n"), "Bearer tok3n");
}
