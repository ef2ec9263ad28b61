use notion_crud::handlers::{
    create_spin_result, delete_spin_result, get_root, get_spin_results, resolve_key,
    update_spin_result, StatusCode,
};
use notion_crud::models::SpinResult;
use notion_crud::repository::Error;

fn failures() -> Vec<Error> {
    vec![
        Error::NotionApi("rejected".to_string()),
        Error::Serialization("broken".to_string()),
        Error::HttpClient("down".to_string()),
    ]
}

#[test]
fn root_greets() {
    assert_eq!(get_root(), "Notion API is running");
}

#[test]
fn statuses_have_their_numbers() {
    assert_eq!(StatusCode::Success.as_u16(), 200);
    assert_eq!(StatusCode::Created.as_u16(), 201);
    assert_eq!(StatusCode::NoContent.as_u16(), 204);
    assert_eq!(StatusCode::TooManyRequests.as_u16(), 429);
    assert_eq!(StatusCode::InternalServerError.as_u16(), 500);
}

#[test]
fn create_answers_created() {
    assert_eq!(create_spin_result(Ok(())), Ok(StatusCode::Created));
}

#[test]
fn create_tells_the_limit_from_other_failures() {
    assert_eq!(create_spin_result(Err(Error::SpinLimitReached)), Err(StatusCode::TooManyRequests));
    for failure in failures() {
        assert_eq!(create_spin_result(Err(failure)), Err(StatusCode::InternalServerError));
    }
}

#[test]
fn list_hands_the_records_on() {
    let records = vec![SpinResult {
        key: "u1".to_string(),
        datetime: "2024-05-17T10:00:00+00:00".to_string(),
        number: 2,
        is_win: true,
        checked: false,
        game_type: Some("Wheel".to_string()),
    }];
    assert_eq!(get_spin_results(Ok(records.clone())), Ok(records));
    assert_eq!(get_spin_results(Ok(vec![])), Ok(vec![]));
}

#[test]
fn list_answers_every_failure_alike() {
    assert_eq!(
        get_spin_results(Err(Error::SpinLimitReached)),
        Err(StatusCode::InternalServerError)
    );
    for failure in failures() {
        assert_eq!(get_spin_results(Err(failure)), Err(StatusCode::InternalServerError));
    }
}

#[test]
fn update_answers_ok_or_server_error() {
    assert_eq!(update_spin_result(Ok(())), StatusCode::Success);
    assert_eq!(update_spin_result(Err(Error::SpinLimitReached)), StatusCode::InternalServerError);
    for failure in failures() {
        assert_eq!(update_spin_result(Err(failure)), StatusCode::InternalServerError);
    }
}

#[test]
fn delete_answers_no_content_or_server_error() {
    assert_eq!(delete_spin_result(Ok(())), StatusCode::NoContent);
    assert_eq!(delete_spin_result(Err(Error::SpinLimitReached)), StatusCode::InternalServerError);
    for failure in failures() {
        assert_eq!(delete_spin_result(Err(failure)), StatusCode::InternalServerError);
    }
}

#[test]
fn key_of_the_caller_is_kept() {
    assert_eq!(resolve_key(Some("u1".to_string()), 1_715_940_000_123), "u1");
    assert_eq!(resolve_key(Some(String::new()), 1_715_940_000_123), "");
}

#[test]
fn missing_key_is_the_moment_in_milliseconds() {
    assert_eq!(resolve_key(None, 1_715_940_000_123), "1715940000123");
    assert_eq!(resolve_key(None, 0), "0");
    assert_eq!(resolve_key(None, -5), "-5");
}
