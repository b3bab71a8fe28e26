use sinkron::actors::sinkron::ConnectMessage;
use sinkron::error::{SinkronError, StoreError};
use sinkron::protocol::{ErrorCode, ServerMessage, SyncErrorMessage};
use sinkron::sinkron::{
    auth, auth_plan, check_auth_token, create_collection, default_host, default_port,
    get_collection, handle_connect, http_status, require_affected, update_collection_permissions,
    update_document_permissions, AuthOutcome, AuthPlan, SyncParams,
};
use sinkron::types::Collection;

fn down() -> StoreError {
    StoreError::Failed("down".to_string())
}

fn params() -> SyncParams {
    SyncParams { col: "c1".to_string(), colrev: 3, token: "t0k".to_string() }
}

#[test]
fn defaults() {
    assert_eq!(default_host(), "0.0.0.0");
    assert_eq!(default_port(), 3000);
}

#[test]
fn each_error_code_has_its_status() {
    assert_eq!(http_status(ErrorCode::BadRequest), 400);
    assert_eq!(http_status(ErrorCode::AuthFailed), 401);
    assert_eq!(http_status(ErrorCode::Forbidden), 403);
    assert_eq!(http_status(ErrorCode::NotFound), 404);
    assert_eq!(http_status(ErrorCode::UnprocessableContent), 422);
    assert_eq!(http_status(ErrorCode::InternalServerError), 500);
}

#[test]
fn admin_token_must_match() {
    let token = "secret".to_string();
    assert!(check_auth_token(&token, Some(&"secret".to_string())));
    assert!(!check_auth_token(&token, Some(&"Secret".to_string())));
    assert!(!check_auth_token(&token, Some(&"".to_string())));
    assert!(!check_auth_token(&token, None));
}

#[test]
fn token_is_appended_to_the_auth_address() {
    assert_eq!(auth_plan(&None, "t0k"), AuthPlan::Anonymous);
    assert_eq!(
        auth_plan(&Some("http://auth/check/".to_string()), "t0k"),
        AuthPlan::Ask { url: "http://auth/check/t0k".to_string() }
    );
}

#[test]
fn without_authentication_everyone_is_anonymous() {
    assert_eq!(auth(AuthOutcome::Anonymous), Ok("anonymous".to_string()));
}

#[test]
fn only_status_200_with_a_body_names_a_user() {
    assert_eq!(
        auth(AuthOutcome::Answered { status: 200, body: Some("alice".to_string()) }),
        Ok("alice".to_string())
    );
    let failed = Err(SinkronError::auth_failed("Authentication failed"));
    assert_eq!(auth(AuthOutcome::Answered { status: 200, body: None }), failed);
    assert_eq!(auth(AuthOutcome::Answered { status: 201, body: Some("alice".to_string()) }), failed);
    assert_eq!(auth(AuthOutcome::Answered { status: 401, body: Some("alice".to_string()) }), failed);
    assert_eq!(auth(AuthOutcome::Unreachable), failed);
}

#[test]
fn authenticated_client_is_passed_to_the_root() {
    assert_eq!(
        handle_connect(Ok("alice".to_string()), params()),
        Ok(ConnectMessage { user: "alice".to_string(), col: "c1".to_string(), colrev: 3 })
    );
    assert_eq!(
        handle_connect(Err(SinkronError::auth_failed("Authentication failed")), params()),
        Err(ServerMessage::SyncError(SyncErrorMessage {
            col: "c1".to_string(),
            code: ErrorCode::AuthFailed,
        }))
    );
}

#[test]
fn duplicate_collection_is_unprocessable() {
    assert_eq!(create_collection(Ok(0)), Ok(()));
    assert_eq!(create_collection(Ok(1)), Err(SinkronError::unprocessable("Duplicate collection id")));
    assert_eq!(create_collection(Err(down())), Err(SinkronError::internal("down")));
}

#[test]
fn missing_collection_is_not_found() {
    let col = Collection { id: "c1".to_string(), is_ref: false, colrev: 1, permissions: "{}".to_string() };
    assert_eq!(get_collection(Ok(col.clone())), Ok(col));
    assert_eq!(get_collection(Err(StoreError::NotFound)), Err(SinkronError::not_found("Collection not found")));
    assert_eq!(get_collection(Err(down())), Err(SinkronError::internal("down")));
}

#[test]
fn rewriting_no_row_is_not_found() {
    assert_eq!(require_affected(Ok(2), "gone"), Ok(()));
    assert_eq!(require_affected(Ok(0), "gone"), Err(SinkronError::not_found("gone")));
    assert_eq!(require_affected(Err(down()), "gone"), Err(SinkronError::internal("down")));
    assert_eq!(update_collection_permissions(Ok(1)), Ok(()));
    assert_eq!(update_collection_permissions(Ok(0)), Err(SinkronError::not_found("Collection not found")));
    assert_eq!(update_document_permissions(Ok(1)), Ok(()));
    assert_eq!(update_document_permissions(Ok(0)), Err(SinkronError::not_found("Document not found")));
    assert_eq!(update_document_permissions(Err(down())), Err(SinkronError::internal("down")));
}
