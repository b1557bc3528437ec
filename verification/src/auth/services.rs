//! Sessions, tokens and users, and the requests and updates the auth
//! services make of them.

use crate::error::ApiError;
use crate::http::{pairs_view, HttpRequest, Method};
use crate::object_id::{hex_decode, hex_lower, is_object_id_hex, ObjectId};
use vstd::prelude::*;

verus! {

/// The token endpoint's answer to an authorisation code.
pub struct TokenResp {
    pub access_token: String,
    pub token_type: String,
    pub expires_in: i32,
    pub scope: String,
    pub refresh_token: String,
}

/// The signed-in user's profile, as the identity platform reports it.
#[allow(non_snake_case)]
pub struct Session {
    pub displayName: String,
    pub givenName: String,
    pub id: String,
    pub userPrincipalName: String,
}

impl Clone for Session {
    fn clone(&self) -> (copy: Self)
        ensures
            copy == *self,
    {
        Session {
            displayName: self.displayName.clone(),
            givenName: self.givenName.clone(),
            id: self.id.clone(),
            userPrincipalName: self.userPrincipalName.clone(),
        }
    }
}

/// A stored user, with the refresh token that only the server may see.
pub struct User {
    pub info: Session,
    pub admin: bool,
    pub refresh_token: String,
    pub saved: Vec<ObjectId>,
}

/// A stored user as a client may see it: without the refresh token.
pub struct SafeUser {
    pub info: Session,
    pub admin: bool,
    pub saved: Vec<ObjectId>,
}

impl SafeUser {
    /// The user's profile.
    pub fn info(&self) -> (info: Session)
        ensures
            info == self.info,
    {
        self.info.clone()
    }

    /// Whether the user is an administrator.
    pub fn admin(&self) -> (admin: bool)
        ensures
            admin == self.admin,
    {
        self.admin
    }

    /// The ids of the user's saved articles, each as 24 lowercase hexadecimal
    /// digits, in the order they were saved.
    pub fn saved(&self) -> (ids: Vec<String>)
        ensures
            ids@.len() == self.saved@.len(),
            forall|i: int| 0 <= i < ids@.len() ==> #[trigger] ids@[i]@ == hex_lower(self.saved@[i]@),
    {
        let mut ids: Vec<String> = Vec::new();
        let n = self.saved.len();
        for i in 0..n
            invariant
                n == self.saved@.len(),
                ids@.len() == i,
                forall|j: int| 0 <= j < i ==> #[trigger] ids@[j]@ == hex_lower(self.saved@[j]@),
        {
            ids.push(self.saved[i].to_hex());
        }
        ids
    }
}

/// What an update of a stored user does to the matching user.
pub enum UserChange {
    /// Appends an article id to the user's saved ids.
    PushSaved(ObjectId),
    /// Sets the profile's display name.
    SetDisplayName(String),
    /// Replaces the whole record.
    Replace(User),
}

/// An update of the stored user whose profile id (`info.id`) is `info_id`;
/// with `upsert`, the record is created when no user matches.
pub struct UserUpdate {
    pub info_id: String,
    pub change: UserChange,
    pub upsert: bool,
}

/// Whether the token endpoint's `error` field, where it is a string, is
/// `invalid_grant`.
pub open spec fn spec_is_invalid_grant(error: Option<String>) -> bool {
    error matches Some(e) && e@ == "invalid_grant"@
}

/// Whether the token endpoint's `error` field, where it is a string, is
/// `invalid_grant`.
pub fn is_invalid_grant(error: &Option<String>) -> (invalid: bool)
    ensures
        invalid == spec_is_invalid_grant(*error),
{
    match error {
        Some(e) => *e == String::from_str("invalid_grant"),
        None => false,
    }
}

/// The token endpoint of the identity platform.
pub open spec fn token_endpoint() -> Seq<char> {
    "https://login.microsoftonline.com/common/oauth2/v2.0/token"@
}

/// The Graph endpoint of the signed-in user's profile.
pub open spec fn profile_endpoint() -> Seq<char> {
    "https://graph.microsoft.com/v1.0/me"@
}

/// The form fields posted to the token endpoint to redeem `code`: the
/// application's client id, the Graph `user.read` scope, the code, the
/// redirect URI, the grant type and the PKCE code verifier, in that order.
pub open spec fn token_form(code: Seq<char>) -> Seq<(Seq<char>, Seq<char>)> {
    seq![
        ("client_id"@, "6b45745d-2213-4238-a435-9e8e06e0b974"@),
        ("scope"@, "https://graph.microsoft.com/user.read"@),
        ("code"@, code),
        ("redirect_uri"@, "http://localhost:5000/"@),
        ("grant_type"@, "authorization_code"@),
        ("code_verifier"@, "rsn"@),
    ]
}

/// The request that redeems `code`: a POST of the token form to the token
/// endpoint, with the origin `http://localhost`.
pub open spec fn is_token_request(req: HttpRequest, code: Seq<char>) -> bool {
    &&& req.method is Post
    &&& req.url@ == token_endpoint()
    &&& pairs_view(req.headers@) == seq![("origin"@, "http://localhost"@)]
    &&& pairs_view(req.form@) == token_form(code)
}

/// The request for the profile of the holder of `access_token`: a GET of the
/// profile endpoint whose `Authorization` header is the access token as it
/// is, with no form.
pub open spec fn is_profile_request(req: HttpRequest, access_token: Seq<char>) -> bool {
    &&& req.method is Get
    &&& req.url@ == profile_endpoint()
    &&& pairs_view(req.headers@) == seq![("authorization"@, access_token)]
    &&& req.form@.len() == 0
}

/// The token form sends the code it redeems whole, whatever its length: its
/// third of six fields is named `code` and holds exactly the given code, and
/// the other fields do not depend on the code.
pub proof fn law_token_form_sends_code_whole(code: Seq<char>, other: Seq<char>)
    ensures
        token_form(code).len() == 6,
        token_form(code)[2] == ("code"@, code),
        forall|i: int| 0 <= i < 6 && i != 2 ==> #[trigger] token_form(code)[i] == token_form(other)[i],
{
}

/// A request that redeems `code` is a POST to the token endpoint with the
/// origin `http://localhost`, and its form's `code` field is exactly `code`,
/// for codes of every length.
pub proof fn law_token_request_sends_code_whole(req: HttpRequest, code: Seq<char>)
    requires
        is_token_request(req, code),
    ensures
        req.method is Post,
        req.url@ == "https://login.microsoftonline.com/common/oauth2/v2.0/token"@,
        req.headers@.len() == 1,
        req.headers@[0].0@ == "origin"@,
        req.headers@[0].1@ == "http://localhost"@,
        req.form@.len() == 6,
        req.form@[2].0@ == "code"@,
        req.form@[2].1@ == code,
{
    assert(pairs_view(req.headers@).len() == 1);
    assert(pairs_view(req.headers@)[0] == (req.headers@[0].0@, req.headers@[0].1@));
    assert(pairs_view(req.form@).len() == 6);
    assert(pairs_view(req.form@)[2] == (req.form@[2].0@, req.form@[2].1@));
}

/// The profile request sends the access token whole as its only header,
/// `authorization`, for tokens of every length, with a GET of the profile
/// endpoint and no form.
pub proof fn law_profile_request_sends_token_whole(req: HttpRequest, access_token: Seq<char>)
    requires
        is_profile_request(req, access_token),
    ensures
        req.method is Get,
        req.url@ == "https://graph.microsoft.com/v1.0/me"@,
        req.headers@.len() == 1,
        req.headers@[0].0@ == "authorization"@,
        req.headers@[0].1@ == access_token,
        req.form@.len() == 0,
{
    assert(pairs_view(req.headers@).len() == 1);
    assert(pairs_view(req.headers@)[0] == (req.headers@[0].0@, req.headers@[0].1@));
}

/// The form fields posted to the token endpoint to redeem `code`.
pub fn token_request_form(code: &str) -> (form: Vec<(String, String)>)
    ensures
        pairs_view(form@) == token_form(code@),
{
    let mut form: Vec<(String, String)> = Vec::new();
    form.push((String::from_str("client_id"), String::from_str("6b45745d-2213-4238-a435-9e8e06e0b974")));
    form.push((String::from_str("scope"), String::from_str("https://graph.microsoft.com/user.read")));
    form.push((String::from_str("code"), String::from_str(code)));
    form.push((String::from_str("redirect_uri"), String::from_str("http://localhost:5000/")));
    form.push((String::from_str("grant_type"), String::from_str("authorization_code")));
    form.push((String::from_str("code_verifier"), String::from_str("rsn")));
    assert(pairs_view(form@) =~= token_form(code@));
    form
}

/// The request that redeems `code` at the token endpoint.
pub fn token_request(code: &str) -> (req: HttpRequest)
    ensures
        is_token_request(req, code@),
{
    let mut headers: Vec<(String, String)> = Vec::new();
    headers.push((String::from_str("origin"), String::from_str("http://localhost")));
    assert(pairs_view(headers@) =~= seq![("origin"@, "http://localhost"@)]);
    HttpRequest {
        method: Method::Post,
        url: String::from_str("https://login.microsoftonline.com/common/oauth2/v2.0/token"),
        headers,
        form: token_request_form(code),
    }
}

/// The request for the profile of the holder of `access_token`.
pub fn profile_request(access_token: &str) -> (req: HttpRequest)
    ensures
        is_profile_request(req, access_token@),
{
    let mut headers: Vec<(String, String)> = Vec::new();
    headers.push((String::from_str("authorization"), String::from_str(access_token)));
    assert(pairs_view(headers@) =~= seq![("authorization"@, access_token@)]);
    HttpRequest {
        method: Method::Get,
        url: String::from_str("https://graph.microsoft.com/v1.0/me"),
        headers,
        form: Vec::new(),
    }
}

/// The outcome of redeeming a code, given the answer's `error` field (where
/// it is a string) and the answer read as tokens: the error "Invalid code."
/// when the error is `invalid_grant`, else the tokens (the answer must then
/// be tokens).
pub fn token_reply(error: Option<String>, tokens: Option<TokenResp>) -> (res: Result<TokenResp, ApiError>)
    requires
        spec_is_invalid_grant(error) || tokens is Some,
    ensures
        spec_is_invalid_grant(error) ==> res == Err::<TokenResp, ApiError>(ApiError::InvalidCode),
        !spec_is_invalid_grant(error) ==> res == Ok::<TokenResp, ApiError>(tokens->0),
{
    if is_invalid_grant(&error) {
        Err(ApiError::InvalidCode)
    } else {
        match tokens {
            Some(t) => Ok(t),
            None => Err(ApiError::InvalidCode),
        }
    }
}

/// The outcome of asking for the signed-in user's profile, given the answer
/// read as a session (`None` where it is not one): the session, or the
/// error "Invalid.".
pub fn session_reply(session: Option<Session>) -> (res: Result<Session, ApiError>)
    ensures
        res is Ok <==> session is Some,
        res matches Ok(s) ==> s == session->0,
        res matches Err(e) ==> e == ApiError::InvalidSession,
{
    match session {
        Some(s) => Ok(s),
        None => Err(ApiError::InvalidSession),
    }
}

/// The update that `saveItem` sends: append the article id `id` to the saved
/// ids of the user whose profile id is `user`. `None` where `id` is not the
/// text of an object id.
pub fn save_item_update(user: String, id: &str) -> (update: Option<UserUpdate>)
    ensures
        update is Some <==> is_object_id_hex(id@),
        update matches Some(u) ==> {
            &&& u.info_id == user
            &&& u.change matches UserChange::PushSaved(oid) && oid@ == hex_decode(id@)
            &&& !u.upsert
        },
{
    match ObjectId::with_string(id) {
        Some(oid) => Some(UserUpdate { info_id: user, change: UserChange::PushSaved(oid), upsert: false }),
        None => None,
    }
}

/// The update that `editName` sends: set the display name of the user whose
/// profile id is `id` to `name`.
pub fn edit_name_update(id: String, name: String) -> (update: UserUpdate)
    ensures
        update.info_id == id,
        update.change == UserChange::SetDisplayName(name),
        !update.upsert,
{
    UserUpdate { info_id: id, change: UserChange::SetDisplayName(name), upsert: false }
}

/// The update that stores a signed-in user, given the session fetched for the
/// access token (`None` where none could be had): replace, or create, the
/// record of the user with the session's id by one that holds the session,
/// the refresh token, no administrator right and no saved ids. Without a
/// session, the error "Failed to get session in user creation.".
pub fn insert_user_update(session: Option<Session>, refresh_token: &str) -> (res: Result<UserUpdate, ApiError>)
    ensures
        res is Ok <==> session is Some,
        res matches Err(e) ==> e == ApiError::SessionUnavailable,
        res matches Ok(u) ==> {
            &&& u.info_id == session->0.id
            &&& u.upsert
            &&& u.change matches UserChange::Replace(user) && {
                &&& user.info == session->0
                &&& user.refresh_token@ == refresh_token@
                &&& !user.admin
                &&& user.saved@.len() == 0
            }
        },
{
    match session {
        Some(s) => {
            let info_id = s.id.clone();
            let user = User {
                info: s,
                refresh_token: String::from_str(refresh_token),
                admin: false,
                saved: Vec::new(),
            };
            Ok(UserUpdate { info_id, change: UserChange::Replace(user), upsert: true })
        },
        None => Err(ApiError::SessionUnavailable),
    }
}

/// The answer to a mutation that updated a user, given whether the database
/// accepted the update: `true`, or the error of that mutation ("Failed to add
/// saved item.", "Failed to edit name." or "Failed to create user.").
pub fn update_reply(change: &UserChange, accepted: bool) -> (res: Result<bool, ApiError>)
    ensures
        res is Ok <==> accepted,
        res matches Ok(b) ==> b,
        res matches Err(e) ==> e == match change {
            UserChange::PushSaved(_) => ApiError::SaveItemFailed,
            UserChange::SetDisplayName(_) => ApiError::EditNameFailed,
            UserChange::Replace(_) => ApiError::CreateUserFailed,
        },
{
    if accepted {
        Ok(true)
    } else {
        match change {
            UserChange::PushSaved(_) => Err(ApiError::SaveItemFailed),
            UserChange::SetDisplayName(_) => Err(ApiError::EditNameFailed),
            UserChange::Replace(_) => Err(ApiError::CreateUserFailed),
        }
    }
}

} // verus!
