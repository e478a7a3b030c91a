use nultr_client::login::{session_from_login, LoginForm, LoginResponse};

#[test]
fn login_form_builds_request() {
    let mut form = LoginForm::new();
    form.username_changed("alice".to_string());
    form.password_changed("secret".to_string());
    let request = form.request();
    assert_eq!(request.username, "alice");
    assert_eq!(request.password, "secret");
}

#[test]
fn login_response_opens_session() {
    let session = session_from_login(LoginResponse { user_id: 42, token: "abc123".to_string() });
    assert_eq!(session.user_id, 42);
    assert_eq!(session.token, "abc123");
}
