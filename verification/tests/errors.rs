use task_api::utils::text::{eq_either_case, has_prefix, same_text};
use task_api::utils::{AppError, ErrorResponse, ResultExt, Status};

#[test]
fn status_codes() {
    assert_eq!(Status::BadRequest.code(), 400);
    assert_eq!(Status::Unauthorized.code(), 401);
    assert_eq!(Status::Forbidden.code(), 403);
    assert_eq!(Status::NotFound.code(), 404);
    assert_eq!(Status::Conflict.code(), 409);
    assert_eq!(Status::InternalServerError.code(), 500);
}

#[test]
fn app_error_constructors_set_status_and_message() {
    let table = [
        (AppError::bad_request("a"), Status::BadRequest, "a"),
        (AppError::unauthorized("b"), Status::Unauthorized, "b"),
        (AppError::forbidden("c"), Status::Forbidden, "c"),
        (AppError::not_found("d"), Status::NotFound, "d"),
        (AppError::conflict("e"), Status::Conflict, "e"),
        (AppError::internal_error("f"), Status::InternalServerError, "f"),
        (AppError::new(Status::Conflict, ""), Status::Conflict, ""),
    ];
    for (error, status, message) in table {
        assert_eq!(error.status, status);
        assert_eq!(error.message, message);
    }
}

#[test]
fn app_error_response_holds_status_and_message() {
    let (status, body) = AppError::not_found("User not found").into_response();
    assert_eq!(status, Status::NotFound);
    assert_eq!(body, ErrorResponse { message: String::from("User not found") });
}

#[test]
fn result_ext_replaces_the_error() {
    let failed = || -> Result<u8, &'static str> { Err("low-level detail") };
    assert_eq!(failed().internal_error("m1"), Err(AppError::internal_error("m1")));
    assert_eq!(failed().bad_request("m2"), Err(AppError::bad_request("m2")));
    assert_eq!(failed().conflict("m3"), Err(AppError::conflict("m3")));
    assert_eq!(failed().not_found("m4"), Err(AppError::not_found("m4")));
    assert_eq!(failed().forbidden("m5"), Err(AppError::forbidden("m5")));
    assert_eq!(
        failed().app_error(Status::Unauthorized, "m6"),
        Err(AppError::new(Status::Unauthorized, "m6"))
    );
}

#[test]
fn result_ext_keeps_a_success() {
    let fine = || -> Result<u8, &'static str> { Ok(7) };
    assert_eq!(fine().internal_error("m"), Ok(7));
    assert_eq!(fine().bad_request("m"), Ok(7));
    assert_eq!(fine().conflict("m"), Ok(7));
    assert_eq!(fine().not_found("m"), Ok(7));
    assert_eq!(fine().forbidden("m"), Ok(7));
    assert_eq!(fine().app_error(Status::Conflict, "m"), Ok(7));
}

#[test]
fn prefix_and_equality_of_texts() {
    assert!(has_prefix("Bearer abc", "Bearer "));
    assert!(has_prefix("Bearer ", "Bearer "));
    assert!(has_prefix("abc", ""));
    assert!(has_prefix("", ""));
    assert!(!has_prefix("Bearer", "Bearer "));
    assert!(!has_prefix("bearer abc", "Bearer "));
    assert!(!has_prefix("", "a"));
    assert!(has_prefix("\u{e9}t\u{e9}", "\u{e9}t"));
    assert!(same_text("abc", "abc"));
    assert!(same_text("", ""));
    assert!(!same_text("abc", "abd"));
    assert!(!same_text("abc", "ab"));
    assert!(!same_text("ab", "abc"));
}

#[test]
fn texts_equal_up_to_case() {
    assert!(eq_either_case("abc", "abc", "ABC"));
    assert!(eq_either_case("aBc", "abc", "ABC"));
    assert!(eq_either_case("ABC", "abc", "ABC"));
    assert!(eq_either_case("", "", ""));
    assert!(!eq_either_case("abd", "abc", "ABC"));
    assert!(!eq_either_case("ab", "abc", "ABC"));
    assert!(!eq_either_case("abcd", "abc", "ABC"));
}

#[test]
fn shorter_upper_form_allows_the_other_case_only_where_it_reaches() {
    assert!(eq_either_case("Abc", "abc", "A"));
    assert!(eq_either_case("abc", "abc", ""));
    assert!(!eq_either_case("aBc", "abc", "A"));
    assert!(!eq_either_case("ABC", "abc", ""));
}
