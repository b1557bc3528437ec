use rsnapp::auth::services::{
    edit_name_update, insert_user_update, is_invalid_grant, save_item_update, session_reply,
    token_reply, token_request, token_request_form, profile_request, SafeUser, Session, TokenResp, UserChange,
};
use rsnapp::{ApiError, ObjectId};

fn session(id: &str) -> Session {
    Session {
        displayName: "Ada Lovelace".to_string(),
        givenName: "Ada".to_string(),
        id: id.to_string(),
        userPrincipalName: "ada@example.org".to_string(),
    }
}

fn tokens() -> TokenResp {
    TokenResp {
        access_token: "access-1".to_string(),
        token_type: "Bearer".to_string(),
        expires_in: 3599,
        scope: "User.Read".to_string(),
        refresh_token: "refresh-1".to_string(),
    }
}

#[test]
fn safe_user_getters() {
    let saved = vec![
        ObjectId::with_string("5f8a0001abcdef1020309eff").unwrap(),
        ObjectId::with_string("000000000000000000000001").unwrap(),
    ];
    let user = SafeUser { info: session("u1"), admin: true, saved };
    assert_eq!(user.saved(), vec!["5f8a0001abcdef1020309eff".to_string(), "000000000000000000000001".to_string()]);
    assert!(user.admin());
    let info = user.info();
    assert_eq!(info.id, "u1");
    assert_eq!(info.displayName, "Ada Lovelace");
    assert_eq!(info.userPrincipalName, "ada@example.org");
}

#[test]
fn safe_user_without_saved_items() {
    let user = SafeUser { info: session("u2"), admin: false, saved: Vec::new() };
    assert!(user.saved().is_empty());
    assert!(!user.admin());
}

#[test]
fn token_form_fields() {
    let form = token_request_form("the-code");
    let expected = vec![
        ("client_id", "6b45745d-2213-4238-a435-9e8e06e0b974"),
        ("scope", "https://graph.microsoft.com/user.read"),
        ("code", "the-code"),
        ("redirect_uri", "http://localhost:5000/"),
        ("grant_type", "authorization_code"),
        ("code_verifier", "rsn"),
    ];
    let got: Vec<(&str, &str)> = form.iter().map(|(k, v)| (k.as_str(), v.as_str())).collect();
    assert_eq!(got, expected);
}

#[test]
fn token_request_posts_the_form_to_the_token_endpoint() {
    let req = token_request("c0de");
    assert!(matches!(req.method, rsnapp::http::Method::Post));
    assert_eq!(req.url, "https://login.microsoftonline.com/common/oauth2/v2.0/token");
    assert_eq!(req.headers, vec![("origin".to_string(), "http://localhost".to_string())]);
    assert_eq!(req.form, token_request_form("c0de"));
}

#[test]
fn profile_request_sends_the_token_as_it_is() {
    let req = profile_request("eyJ0eXAi.token");
    assert!(matches!(req.method, rsnapp::http::Method::Get));
    assert_eq!(req.url, "https://graph.microsoft.com/v1.0/me");
    assert_eq!(req.headers, vec![("authorization".to_string(), "eyJ0eXAi.token".to_string())]);
    assert!(req.form.is_empty());
}

#[test]
fn invalid_grant_is_recognised_only_exactly() {
    assert!(is_invalid_grant(&Some("invalid_grant".to_string())));
    assert!(!is_invalid_grant(&Some("invalid_request".to_string())));
    assert!(!is_invalid_grant(&Some("INVALID_GRANT".to_string())));
    assert!(!is_invalid_grant(&None));
}

#[test]
fn refused_code_is_invalid() {
    let e = token_reply(Some("invalid_grant".to_string()), None).err().expect("error");
    assert!(matches!(e, ApiError::InvalidCode));
    assert_eq!(e.message(), "Invalid code.");
    assert!(token_reply(Some("invalid_grant".to_string()), Some(tokens())).is_err());
}

#[test]
fn redeemed_code_gives_the_tokens() {
    let t = token_reply(None, Some(tokens())).ok().expect("tokens");
    assert_eq!(t.access_token, "access-1");
    assert_eq!(t.refresh_token, "refresh-1");
    let t = token_reply(Some("other".to_string()), Some(tokens())).ok().expect("tokens");
    assert_eq!(t.expires_in, 3599);
}

#[test]
fn session_reply_passes_a_session_and_refuses_anything_else() {
    assert_eq!(session_reply(Some(session("u3"))).ok().map(|s| s.id), Some("u3".to_string()));
    let e = session_reply(None).err().expect("error");
    assert!(matches!(e, ApiError::InvalidSession));
    assert_eq!(e.message(), "Invalid.");
}

#[test]
fn save_item_pushes_the_parsed_id_for_the_user() {
    let u = save_item_update("user-7".to_string(), "5F8A0001ABCDEF1020309EFF").expect("update");
    assert_eq!(u.info_id, "user-7");
    assert!(!u.upsert);
    match u.change {
        UserChange::PushSaved(oid) => assert_eq!(oid.to_hex(), "5f8a0001abcdef1020309eff"),
        _ => panic!("expected a push"),
    }
    assert!(save_item_update("user-7".to_string(), "not-an-id").is_none());
}

#[test]
fn edit_name_sets_the_display_name_of_the_user() {
    let u = edit_name_update("user-8".to_string(), "Grace".to_string());
    assert_eq!(u.info_id, "user-8");
    assert!(!u.upsert);
    assert!(matches!(u.change, UserChange::SetDisplayName(ref n) if n == "Grace"));
}

#[test]
fn new_user_record_from_the_session() {
    let u = insert_user_update(Some(session("user-9")), "refresh-9").ok().expect("update");
    assert_eq!(u.info_id, "user-9");
    assert!(u.upsert);
    match u.change {
        UserChange::Replace(user) => {
            assert_eq!(user.info.id, "user-9");
            assert_eq!(user.info.givenName, "Ada");
            assert_eq!(user.refresh_token, "refresh-9");
            assert!(!user.admin);
            assert!(user.saved.is_empty());
        }
        _ => panic!("expected a replacement"),
    }
}

#[test]
fn new_user_without_session_fails() {
    let e = insert_user_update(None, "refresh").err().expect("error");
    assert!(matches!(e, ApiError::SessionUnavailable));
    assert_eq!(e.message(), "Failed to get session in user creation.");
}

#[test]
fn update_replies() {
    let push = UserChange::PushSaved(ObjectId::with_bytes([0; 12]));
    let name = UserChange::SetDisplayName("x".to_string());
    assert_eq!(rsnapp::auth::services::update_reply(&push, true).ok(), Some(true));
    assert_eq!(rsnapp::auth::services::update_reply(&name, true).ok(), Some(true));
    assert_eq!(
        rsnapp::auth::services::update_reply(&push, false).err().map(|e| e.message()),
        Some("Failed to add saved item.".to_string())
    );
    assert_eq!(
        rsnapp::auth::services::update_reply(&name, false).err().map(|e| e.message()),
        Some("Failed to edit name.".to_string())
    );
    let replace = insert_user_update(Some(session("u")), "r").ok().unwrap().change;
    assert_eq!(
        rsnapp::auth::services::update_reply(&replace, false).err().map(|e| e.message()),
        Some("Failed to create user.".to_string())
    );
}
