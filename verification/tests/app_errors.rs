use realworld_core::app_error::AppError;
use realworld_core::errors::DomainError;

#[test]
fn test_app_error_validation() {
    let err = AppError::validation("Invalid input".to_string());
    assert_eq!(err.message(), "Invalid input");
}

#[test]
fn test_app_error_conflict() {
    let err = AppError::conflict("Resource conflict".to_string());
    assert_eq!(err.message(), "Resource conflict");
}

#[test]
fn test_app_error_unauthorized() {
    let err = AppError::unauthorized("Not authorized".to_string());
    assert_eq!(err.message(), "Not authorized");
}

#[test]
fn test_app_error_not_found() {
    let err = AppError::not_found("Resource not found".to_string());
    assert_eq!(err.message(), "Resource not found");
}

#[test]
fn test_app_error_internal() {
    let err = AppError::internal("Internal error".to_string());
    assert_eq!(err.message(), "Internal error");
}

#[test]
fn test_app_error_from_anyhow() {
    let anyhow_err = anyhow::Error::msg("Test error");
    let app_err = AppError::internal(anyhow_err.to_string());
    assert_eq!(app_err.message(), "Test error");
}

#[test]
fn test_app_error_from_domain_conflict() {
    let domain_err = DomainError::Conflict { entity: "user" };
    let app_err: AppError = domain_err.into();
    let problem = app_err.to_problem();
    assert_eq!(problem.status, 409);
}

#[test]
fn test_app_error_from_domain_not_found() {
    let domain_err = DomainError::NotFound { entity: "user" };
    let app_err: AppError = domain_err.into();
    let problem = app_err.to_problem();
    assert_eq!(problem.status, 404);
}

#[test]
fn test_app_error_from_domain_unauthorized() {
    let domain_err = DomainError::UnauthorizedAction;
    let app_err: AppError = domain_err.into();
    let problem = app_err.to_problem();
    assert_eq!(problem.status, 401);
}

#[test]
fn test_app_error_message_contains_already_registered() {
    let err = AppError::conflict("email already registered".to_string());
    let problem = err.to_problem();
    assert_eq!(problem.status, 409);
}

#[test]
fn test_app_error_message_contains_not_found() {
    let err = AppError::validation("user not found".to_string());
    let problem = err.to_problem();
    assert_eq!(problem.status, 404);
}

#[test]
fn test_app_error_message_contains_invalid_credentials() {
    let err = AppError::validation("invalid credentials".to_string());
    let problem = err.to_problem();
    assert_eq!(problem.status, 401);
}

#[test]
fn test_app_error_message_contains_validation() {
    let err = AppError::validation("validation error".to_string());
    let problem = err.to_problem();
    assert_eq!(problem.status, 422);
}

#[test]
fn test_app_error_generic_error() {
    let err = AppError::internal("Some random error".to_string());
    let problem = err.to_problem();
    assert_eq!(problem.status, 500);
}

#[test]
fn test_app_error_message_contains_cannot_follow() {
    let err = AppError::validation("cannot follow yourself".to_string());
    let problem = err.to_problem();
    assert_eq!(problem.status, 422);
}

#[test]
fn test_app_error_message_contains_already_exists() {
    let err = AppError::internal("resource already exists".to_string());
    let problem = err.to_problem();
    assert_eq!(problem.status, 409);
}

#[test]
fn app_error_problem_carries_title_and_detail() {
    let err = AppError::validation("user not found".to_string());
    let problem = err.to_problem();
    assert_eq!(problem.title, "Not Found");
    assert_eq!(problem.detail.as_deref(), Some("user not found"));
}

#[test]
fn domain_error_messages_render() {
    assert_eq!(
        DomainError::NotFound { entity: "user" }.message(),
        "requested entity `user` was not found"
    );
    assert_eq!(DomainError::Conflict { entity: "email" }.message(), "`email` already exists");
    assert_eq!(DomainError::InvalidEmail.message(), "invalid email address");
    assert_eq!(
        DomainError::Database { message: "boom".to_string() }.message(),
        "database error: boom"
    );
}
