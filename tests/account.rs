use chat_sync::account::{delete_current_user, get_token, CurrentUser, TOKEN_KEY};
use chat_sync::error::{ErrorKind, ToError};
use chat_sync::request::Host;
use chat_sync::sync::SyncState;

fn user(name: Option<&str>) -> CurrentUser {
    CurrentUser {
        id: 1,
        kind: "admin".to_string(),
        email: "a@b.io".to_string(),
        name: name.map(|n| n.to_string()),
        mobile: None,
        laston: None,
        created_at: 0,
        updated_at: None,
    }
}

#[test]
fn session_name_falls_back_to_email() {
    assert_eq!(user(Some("Alice")).session_name(), "Alice");
    assert_eq!(user(None).session_name(), "a@b.io");
}

#[test]
fn session_resolved_once() {
    let mut s = SyncState::new();
    s.resolve_session(&user(None));
    s.resolve_session(&user(Some("Alice")));
    assert_eq!(s.session_id, Some("a@b.io".to_string()));
}

#[test]
fn token_lookup() {
    assert_eq!(get_token(Some("t0k".to_string())), Ok("t0k".to_string()));
    assert_eq!(get_token(None), Err(ErrorKind::OtherError("get token failed".to_string())));
}

#[test]
fn sign_out_keys() {
    assert_eq!(
        delete_current_user(),
        vec![TOKEN_KEY, "current_user", "selected_navbar_name", "selected_navbar_parent_name"]
    );
}

#[test]
fn error_texts() {
    assert_eq!("x".to_basic_error(), ErrorKind::BasicError("x".to_string()));
    assert_eq!("x".to_validation_error(), ErrorKind::ValidationError("x".to_string()));
    assert_eq!("x".to_string().to_server_error(), ErrorKind::ServerError("x".to_string()));
    assert_eq!("x".to_hint(), ErrorKind::Hint("x".to_string()));
    assert_eq!(ErrorKind::OtherError("boom".to_string()).to_text(), "other error: boom");
    assert_eq!(ErrorKind::Hint("h".to_string()).to_text(), "h");
}

#[test]
fn host_urls() {
    assert_eq!(Host::ApiBase.url(), "http://localhost:8881/api");
    assert_eq!(Host::Base.url(), "http://localhost:8881");
}
