//! The mutation root: what its mutations answer for each outcome of the
//! work they hand to the file system, the identity platform and the database.

use crate::auth::services::{
    insert_user_update, spec_is_invalid_grant, token_reply, token_request, profile_request, is_token_request, is_profile_request, Session, TokenResp,
    UserChange, UserUpdate,
};
use crate::encoding::{
    base64_decode, base64_encode, base64_len, base64_standard, lemma_base64_length, lemma_base64_round_trip,
};
use crate::error::ApiError;
use crate::http::HttpRequest;
use vstd::prelude::*;

verus! {

/// Where a sign-in (`authenticate`) stands.
pub enum SignIn {
    /// The code was posted to the token endpoint.
    AwaitingTokens,
    /// The code was redeemed for `tokens`; the profile was asked for.
    AwaitingProfile { tokens: TokenResp },
    /// The user record was sent to the database.
    AwaitingStore { tokens: TokenResp },
    /// The mutation has answered.
    Done,
}

/// What the outside work of a sign-in reported.
pub enum SignInEvent {
    /// The token endpoint answered: its `error` field where that is a string,
    /// and the answer read as tokens (`None` where it is not tokens).
    TokensAnswered { error: Option<String>, tokens: Option<TokenResp> },
    /// The token request failed or its answer was not JSON, with that error's message.
    TokensFailed(String),
    /// The profile request answered, read as a session (`None` where it
    /// failed or was not a session).
    ProfileAnswered(Option<Session>),
    /// The database accepted the user record, or not.
    StoreAnswered(bool),
}

/// The work a sign-in asks for next.
pub enum SignInAction {
    /// Send this request to the token endpoint.
    RedeemCode(HttpRequest),
    /// Send this request for the profile.
    GetProfile(HttpRequest),
    /// Send this update of the stored users.
    StoreUser(UserUpdate),
    /// Answer the mutation.
    Reply(Result<String, ApiError>),
}

/// Whether `event` is a report of the work that `state` waits for.
pub open spec fn sign_in_expects(state: SignIn, event: SignInEvent) -> bool {
    match state {
        SignIn::AwaitingTokens => match event {
            SignInEvent::TokensAnswered { error, tokens } => spec_is_invalid_grant(error) || tokens is Some,
            SignInEvent::TokensFailed(_) => true,
            _ => false,
        },
        SignIn::AwaitingProfile { .. } => event is ProfileAnswered,
        SignIn::AwaitingStore { .. } => event is StoreAnswered,
        SignIn::Done => false,
    }
}

/// One step of a sign-in: from `state`, on `event`, to `next`, asking for `action`.
/// - Redeeming the code fails with the transport's error, or with "Invalid
///   code." on `invalid_grant`; else the profile is asked for with the access token.
/// - Without a profile, "Failed to insert user."; with one, the user record
///   is stored as `insert_user_update` makes it with the redeemed refresh token.
/// - Once stored, the answer is the access token; else "Failed to insert user.".
pub open spec fn sign_in_transition(state: SignIn, event: SignInEvent, next: SignIn, action: SignInAction) -> bool {
    match (state, event) {
        (SignIn::AwaitingTokens, SignInEvent::TokensFailed(message)) =>
            next is Done && action == SignInAction::Reply(Err(ApiError::Upstream(message))),
        (SignIn::AwaitingTokens, SignInEvent::TokensAnswered { error, tokens }) =>
            if spec_is_invalid_grant(error) {
                next is Done && action == SignInAction::Reply(Err(ApiError::InvalidCode))
            } else {
                &&& tokens is Some
                &&& next == SignIn::AwaitingProfile { tokens: tokens->0 }
                &&& action matches SignInAction::GetProfile(req) && is_profile_request(req, tokens->0.access_token@)
            },
        (SignIn::AwaitingProfile { tokens }, SignInEvent::ProfileAnswered(profile)) =>
            match profile {
                None => next is Done && action == SignInAction::Reply(Err(ApiError::InsertUserFailed)),
                Some(session) => {
                    &&& next == SignIn::AwaitingStore { tokens }
                    &&& action matches SignInAction::StoreUser(u) && {
                        &&& u.info_id == session.id
                        &&& u.upsert
                        &&& u.change matches UserChange::Replace(user) && {
                            &&& user.info == session
                            &&& user.refresh_token@ == tokens.refresh_token@
                            &&& !user.admin
                            &&& user.saved@.len() == 0
                        }
                    }
                },
            },
        (SignIn::AwaitingStore { tokens }, SignInEvent::StoreAnswered(stored)) =>
            next is Done && if stored {
                action == SignInAction::Reply(Ok(tokens.access_token))
            } else {
                action == SignInAction::Reply(Err(ApiError::InsertUserFailed))
            },
        _ => false,
    }
}

/// A sign-in that answers with a token went the whole way: the code was
/// redeemed (not refused as `invalid_grant`) for tokens, a profile was had
/// for them, a record of that user holding the redeemed refresh token was
/// sent to the database and accepted, and the answer is the redeemed access
/// token; the profile was asked for with that access token. Stated of the three steps after the start of `authenticate`.
pub proof fn law_sign_in_token_only_after_store(
    e0: SignInEvent,
    s1: SignIn,
    a1: SignInAction,
    e1: SignInEvent,
    s2: SignIn,
    a2: SignInAction,
    e2: SignInEvent,
    s3: SignIn,
    token: String,
)
    requires
        sign_in_transition(SignIn::AwaitingTokens, e0, s1, a1),
        sign_in_transition(s1, e1, s2, a2),
        sign_in_transition(s2, e2, s3, SignInAction::Reply(Ok(token))),
    ensures
        e0 matches SignInEvent::TokensAnswered { error, tokens } && {
            &&& !spec_is_invalid_grant(error)
            &&& tokens matches Some(tk) && {
                &&& token == tk.access_token
                &&& a1 matches SignInAction::GetProfile(req) && is_profile_request(req, tk.access_token@)
                &&& e1 matches SignInEvent::ProfileAnswered(Some(session)) && {
                    &&& a2 matches SignInAction::StoreUser(u) && {
                        &&& u.info_id == session.id
                        &&& u.change matches UserChange::Replace(user)
                            && user.info == session && user.refresh_token@ == tk.refresh_token@
                    }
                }
            }
        },
        e2 == SignInEvent::StoreAnswered(true),
{
    assert(s2 is AwaitingStore) by {
        if !(s2 is AwaitingStore) {
            assert(!sign_in_transition(s2, e2, s3, SignInAction::Reply(Ok(token))));
        }
    }
    assert(s1 is AwaitingProfile) by {
        if !(s1 is AwaitingProfile) {
            assert(!sign_in_transition(s1, e1, s2, a2));
        }
    }
    let tk = s1->AwaitingProfile_tokens;
    assert(e0 matches SignInEvent::TokensAnswered { error, tokens } && !spec_is_invalid_grant(error) && tokens == Some(tk));
    assert(s2 == SignIn::AwaitingStore { tokens: tk });
    assert(SignInAction::Reply(Ok(token)) == SignInAction::Reply(Ok::<String, ApiError>(tk.access_token)));
}

/// A sign-in takes every report of the work it waits for: any failure of the
/// token request, any answer that is a refusal or holds tokens, any profile
/// answer, and any store answer.
pub proof fn law_sign_in_takes_every_report(
    tokens: TokenResp,
    message: String,
    error: Option<String>,
    answered: TokenResp,
    profile: Option<Session>,
    stored: bool,
)
    ensures
        sign_in_expects(SignIn::AwaitingTokens, SignInEvent::TokensFailed(message)),
        sign_in_expects(SignIn::AwaitingTokens, SignInEvent::TokensAnswered { error, tokens: Some(answered) }),
        sign_in_expects(SignIn::AwaitingProfile { tokens }, SignInEvent::ProfileAnswered(profile)),
        sign_in_expects(SignIn::AwaitingStore { tokens }, SignInEvent::StoreAnswered(stored)),
{
}

/// Once a profile is had, whatever its fields, the sign-in stores that user:
/// it goes on to wait for the store, keeping the tokens, and sends an upsert
/// (so a first-time user's record is created) of the user with the session's
/// id, holding the session, the redeemed refresh token, no administrator
/// right and no saved ids.
pub proof fn law_sign_in_stores_every_profiled_user(
    tokens: TokenResp,
    session: Session,
    next: SignIn,
    action: SignInAction,
)
    requires
        sign_in_transition(SignIn::AwaitingProfile { tokens }, SignInEvent::ProfileAnswered(Some(session)), next, action),
    ensures
        next == (SignIn::AwaitingStore { tokens }),
        action is StoreUser,
        action->StoreUser_0.upsert,
        action->StoreUser_0.info_id == session.id,
        action->StoreUser_0.change matches UserChange::Replace(user) && {
            &&& user.info == session
            &&& user.refresh_token@ == tokens.refresh_token@
            &&& !user.admin
            &&& user.saved@.len() == 0
        },
{
}

/// Once the store is accepted, the sign-in ends and answers the access token
/// it redeemed, whole, for tokens of every length; once refused, it ends with
/// "Failed to insert user.".
pub proof fn law_sign_in_answers_token_after_accepted_store(
    tokens: TokenResp,
    stored: bool,
    next: SignIn,
    action: SignInAction,
)
    requires
        sign_in_transition(SignIn::AwaitingStore { tokens }, SignInEvent::StoreAnswered(stored), next, action),
    ensures
        next is Done,
        stored ==> action == SignInAction::Reply(Ok(tokens.access_token)),
        !stored ==> action == SignInAction::Reply(Err(ApiError::InsertUserFailed)),
{
}

/// The root of the GraphQL mutations.
pub struct Mutation;

impl Mutation {
    /// The answer to `encodeFile`, given the file's contents (`None` where it
    /// could not be read): the contents as standard padded base64, or the
    /// error "Failed to find & encode file.".
    pub fn encode_file(&self, contents: Option<Vec<u8>>) -> (res: Result<String, ApiError>)
        requires
            contents matches Some(d) ==> base64_len(d@.len() as int) <= isize::MAX,
        ensures
            res is Ok <==> contents is Some,
            res matches Ok(text) ==> {
                &&& text@ == base64_standard(contents->0@)
                &&& base64_decode(text@) == contents->0@
                &&& text@.len() == base64_len(contents->0@.len() as int)
            },
            res matches Err(e) ==> e == ApiError::EncodeFileFailed,
    {
        match contents {
            Some(d) => {
                proof {
                    lemma_base64_round_trip(d@);
                    lemma_base64_length(d@);
                }
                Ok(base64_encode(d.as_slice()))
            },
            None => Err(ApiError::EncodeFileFailed),
        }
    }

    /// Starts `authenticate`: redeem the code at the token endpoint.
    pub fn authenticate(&self, code: &str) -> (start: (SignIn, SignInAction))
        ensures
            start.0 is AwaitingTokens,
            start.1 matches SignInAction::RedeemCode(req) && is_token_request(req, code@),
    {
        (SignIn::AwaitingTokens, SignInAction::RedeemCode(token_request(code)))
    }

    /// Takes a sign-in one step on with the report of the work it waited for.
    pub fn authenticate_step(&self, state: SignIn, event: SignInEvent) -> (res: (SignIn, SignInAction))
        requires
            sign_in_expects(state, event),
        ensures
            sign_in_transition(state, event, res.0, res.1),
    {
        match state {
            SignIn::AwaitingTokens => match event {
                SignInEvent::TokensFailed(message) => (SignIn::Done, SignInAction::Reply(Err(ApiError::Upstream(message)))),
                SignInEvent::TokensAnswered { error, tokens } => match token_reply(error, tokens) {
                    Ok(t) => {
                        let req = profile_request(t.access_token.as_str());
                        (SignIn::AwaitingProfile { tokens: t }, SignInAction::GetProfile(req))
                    },
                    Err(e) => (SignIn::Done, SignInAction::Reply(Err(e))),
                },
                _ => (SignIn::Done, SignInAction::Reply(Err(ApiError::InsertUserFailed))),
            },
            SignIn::AwaitingProfile { tokens } => match event {
                SignInEvent::ProfileAnswered(profile) => match insert_user_update(profile, tokens.refresh_token.as_str()) {
                    Ok(u) => (SignIn::AwaitingStore { tokens }, SignInAction::StoreUser(u)),
                    Err(_) => (SignIn::Done, SignInAction::Reply(Err(ApiError::InsertUserFailed))),
                },
                _ => (SignIn::Done, SignInAction::Reply(Err(ApiError::InsertUserFailed))),
            },
            SignIn::AwaitingStore { tokens } => match event {
                SignInEvent::StoreAnswered(stored) => if stored {
                    (SignIn::Done, SignInAction::Reply(Ok(tokens.access_token)))
                } else {
                    (SignIn::Done, SignInAction::Reply(Err(ApiError::InsertUserFailed)))
                },
                _ => (SignIn::Done, SignInAction::Reply(Err(ApiError::InsertUserFailed))),
            },
            SignIn::Done => (SignIn::Done, SignInAction::Reply(Err(ApiError::InsertUserFailed))),
        }
    }
}

} // verus!
