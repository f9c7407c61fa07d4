//! Refreshing the tokens of a ChatGPT login.

use vstd::prelude::*;

use crate::auth::{AuthDotJson, AuthModel, IdTokenInfo, TokenModel};
use crate::identity::chatgpt_account_of;
use crate::text::concat2;
use crate::time::{days_before, Timestamp};
use crate::usage::{http_status_text, is_success_status, status_text};

verus! {

/// Where tokens are refreshed, unless the environment says otherwise.
pub const REFRESH_TOKEN_URL: &'static str = "https://auth.openai.com/oauth/token";

/// How many days old tokens may grow before they are refreshed.
pub const TOKEN_REFRESH_INTERVAL_DAYS: i64 = 8;

/// Where tokens are refreshed: where the environment says, if it does.
pub fn refresh_token_endpoint(configured: Option<String>) -> (url: String)
    ensures
        match configured {
            Some(value) => url == value,
            None => url@ == REFRESH_TOKEN_URL@,
        },
{
    match configured {
        Some(value) => value,
        None => REFRESH_TOKEN_URL.to_owned(),
    }
}

/// Whether tokens are to be refreshed before they are used: when the access
/// token has expired or, where it does not say when it expires, when the last
/// refresh lies too far back.
pub open spec fn needs_refresh(
    auth: AuthModel,
    access_token_expires_at: Option<Timestamp>,
    now: Timestamp,
) -> bool {
    if auth.tokens is Some && access_token_expires_at is Some {
        !now.earlier_than(access_token_expires_at->0)
    } else {
        match auth.last_refresh {
            Some(last_refresh) => last_refresh.earlier_than(
                now.minus_days(TOKEN_REFRESH_INTERVAL_DAYS as int),
            ),
            None => false,
        }
    }
}

/// Whether the tokens of `auth` are to be refreshed before they are used.
/// `access_token_expires_at` is when the access token says that it expires, if
/// it does.
pub fn should_refresh_proactively(
    auth: &AuthDotJson,
    access_token_expires_at: Option<Timestamp>,
    now: Timestamp,
) -> (refresh: bool)
    requires
        now.is_clock_reading(),
    ensures
        refresh == needs_refresh(auth.deep_view(), access_token_expires_at, now),
{
    if let (Some(_), Some(expires_at)) = (&auth.tokens, access_token_expires_at) {
        return !now.is_earlier_than(&expires_at);
    }
    match auth.last_refresh {
        Some(last_refresh) => last_refresh.is_earlier_than(
            &days_before(now, TOKEN_REFRESH_INTERVAL_DAYS),
        ),
        None => false,
    }
}

/// A request for fresh tokens.
#[derive(Debug, PartialEq, Eq)]
pub struct RefreshRequest {
    pub client_id: String,
    pub grant_type: String,
    pub refresh_token: String,
}

/// The refresh token of some credentials, or why they cannot be refreshed.
pub open spec fn refresh_token_of(auth: AuthModel) -> Result<Seq<char>, Seq<char>> {
    match auth.tokens {
        Some(tokens) => if tokens.refresh_token.len() == 0 {
            Err("credentials cannot be refreshed"@)
        } else {
            Ok(tokens.refresh_token)
        },
        None => Err("token data is not available"@),
    }
}

/// The request for fresh tokens for `auth`.
pub fn refresh_request(auth: &AuthDotJson, client_id: &str) -> (request: Result<
    RefreshRequest,
    String,
>)
    ensures
        match refresh_token_of(auth.deep_view()) {
            Ok(token) => request matches Ok(request) && request.client_id@ == client_id@
                && request.grant_type@ == "refresh_token"@ && request.refresh_token@ == token,
            Err(reason) => request matches Err(error) && error@ == reason,
        },
{
    match &auth.tokens {
        Some(tokens) => {
            if tokens.refresh_token.as_str().is_empty() {
                return Err("credentials cannot be refreshed".to_owned());
            }
            Ok(
                RefreshRequest {
                    client_id: client_id.to_owned(),
                    grant_type: "refresh_token".to_owned(),
                    refresh_token: tokens.refresh_token.clone(),
                },
            )
        },
        None => Err("token data is not available".to_owned()),
    }
}

/// Fresh tokens. What is not there stays as it was. `id_token` is what parsing
/// the ID token came to.
#[derive(Debug, PartialEq, Eq)]
pub struct RefreshResponse {
    pub id_token: Option<Result<IdTokenInfo, String>>,
    pub access_token: Option<String>,
    pub refresh_token: Option<String>,
}

/// What came of a request for fresh tokens.
#[derive(Debug, PartialEq, Eq)]
pub enum RefreshReply {
    /// It could not be sent.
    Unsent(String),
    /// It was answered. `decoded` is what decoding the body came to.
    Answered { status: u16, decoded: Result<RefreshResponse, String> },
}

impl RefreshReply {
    /// Whether the status is one that HTTP knows.
    pub open spec fn is_valid(self) -> bool {
        self matches RefreshReply::Answered { status, .. } ==> 100 <= status < 1000
    }
}

/// The words for a refresh that was refused with a status, given as a number
/// and in words.
pub fn refresh_refusal(status: u16, status_text: &str) -> (error: String)
    ensures
        error@ == if status == 401 {
            "credentials expired"@
        } else {
            "token refresh failed: "@ + status_text@
        },
{
    if status == 401 {
        "credentials expired".to_owned()
    } else {
        concat2("token refresh failed: ", status_text)
    }
}

/// The tokens with the fresh ones in their place.
pub open spec fn tokens_with(tokens: TokenModel, fresh: RefreshResponse) -> TokenModel {
    TokenModel {
        id_token: match fresh.id_token {
            Some(Ok(claims)) => claims.deep_view(),
            _ => tokens.id_token,
        },
        access_token: match fresh.access_token {
            Some(token) => token@,
            None => tokens.access_token,
        },
        refresh_token: match fresh.refresh_token {
            Some(token) => token@,
            None => tokens.refresh_token,
        },
        account_id: tokens.account_id,
    }
}

/// Credentials after a refresh at `now` that was answered by `reply`, or why
/// the refresh failed.
pub open spec fn refreshed(auth: AuthModel, reply: RefreshReply, now: Timestamp) -> Result<
    AuthModel,
    Seq<char>,
> {
    match (refresh_token_of(auth), reply) {
        (Err(reason), _) => Err(reason),
        (Ok(_), RefreshReply::Unsent(error)) => Err(error@),
        (Ok(_), RefreshReply::Answered { status, decoded }) => if !is_success_status(status) {
            Err(
                if status == 401 {
                    "credentials expired"@
                } else {
                    "token refresh failed: "@ + http_status_text(status)
                },
            )
        } else {
            match decoded {
                Err(error) => Err("failed to decode refreshed credentials: "@ + error@),
                Ok(fresh) => match fresh.id_token {
                    Some(Err(error)) => Err("failed to parse refreshed ID token: "@ + error@),
                    _ => Ok(
                        AuthModel {
                            tokens: Some(tokens_with(auth.tokens->0, fresh)),
                            last_refresh: Some(now),
                            ..auth
                        },
                    ),
                },
            }
        },
    }
}

/// Refreshes `auth` with what `reply` brought at `now`. Where that fails,
/// `auth` stays as it was.
pub fn refresh_saved_chatgpt_auth(auth: &mut AuthDotJson, reply: RefreshReply, now: Timestamp) -> (
result: Result<(), String>)
    requires
        reply.is_valid(),
    ensures
        match refreshed(old(auth).deep_view(), reply, now) {
            Ok(model) => result is Ok && final(auth).deep_view() == model,
            Err(reason) => result matches Err(error) && error@ == reason
                && *final(auth) == *old(auth),
        },
{
    match &auth.tokens {
        Some(tokens) => {
            if tokens.refresh_token.as_str().is_empty() {
                return Err("credentials cannot be refreshed".to_owned());
            }
        },
        None => {
            return Err("token data is not available".to_owned());
        },
    }
    let decoded: Result<RefreshResponse, String> = match reply {
        RefreshReply::Unsent(error) => {
            return Err(error);
        },
        RefreshReply::Answered { status, decoded } => {
            if !(200 <= status && status < 300) {
                let text: String = status_text(status);
                return Err(refresh_refusal(status, text.as_str()));
            }
            decoded
        },
    };
    let fresh: RefreshResponse = match decoded {
        Ok(fresh) => fresh,
        Err(error) => {
            return Err(concat2("failed to decode refreshed credentials: ", error.as_str()));
        },
    };
    let id_token: Option<IdTokenInfo> = match fresh.id_token {
        Some(Ok(claims)) => Some(claims),
        Some(Err(error)) => {
            return Err(concat2("failed to parse refreshed ID token: ", error.as_str()));
        },
        None => None,
    };
    if let Some(mut tokens) = auth.tokens.take() {
        if let Some(claims) = id_token {
            tokens.id_token = claims;
        }
        if let Some(access_token) = fresh.access_token {
            tokens.access_token = access_token;
        }
        if let Some(refresh_token) = fresh.refresh_token {
            tokens.refresh_token = refresh_token;
        }
        auth.tokens = Some(tokens);
    }
    auth.last_refresh = Some(now);
    Ok(())
}

/// A refresh that succeeds changes tokens, and when they were last refreshed:
/// how the credentials sign in, the account stored with the tokens, the API key
/// and the agent stay as they were.
pub proof fn a_refresh_keeps_the_account(auth: AuthModel, reply: RefreshReply, now: Timestamp)
    ensures
        refreshed(auth, reply, now) matches Ok(after) ==> {
            &&& auth.tokens is Some
            &&& after.tokens is Some
            &&& after.tokens->0.account_id == auth.tokens->0.account_id
            &&& after.auth_mode == auth.auth_mode
            &&& after.openai_api_key == auth.openai_api_key
            &&& after.agent_identity == auth.agent_identity
            &&& after.last_refresh == Some(now)
            &&& auth.tokens->0.account_id is Some ==> chatgpt_account_of(after)
                == chatgpt_account_of(auth)
        },
{
}

/// Right after a refresh, tokens that do not say when they expire need no
/// other.
pub proof fn a_refresh_is_not_needed_twice(auth: AuthModel, reply: RefreshReply, now: Timestamp)
    requires
        now.is_clock_reading(),
    ensures
        refreshed(auth, reply, now) matches Ok(after) ==> !needs_refresh(after, None, now),
{
}

/// An access token that says when it expires is refreshed from that moment on,
/// and not before, whenever the last refresh was.
pub proof fn expired_tokens_are_refreshed(auth: AuthModel, expires_at: Timestamp, now: Timestamp)
    requires
        auth.tokens is Some,
    ensures
        needs_refresh(auth, Some(expires_at), now) <==> expires_at == now
            || expires_at.earlier_than(now),
{
}

/// Where nothing says when the access token expires, tokens are refreshed once
/// the last refresh lies more than eight days back. Tokens that were never
/// refreshed are left alone.
pub proof fn tokens_grow_old_in_eight_days(
    auth: AuthModel,
    expires_at: Option<Timestamp>,
    now: Timestamp,
)
    requires
        now.is_clock_reading(),
        auth.tokens is None || expires_at is None,
    ensures
        match auth.last_refresh {
            Some(last) => needs_refresh(auth, expires_at, now) <==> {
                ||| last.secs + 8 * 24 * 3600 < now.secs
                ||| last.secs + 8 * 24 * 3600 == now.secs && last.nanos < now.nanos
            },
            None => !needs_refresh(auth, expires_at, now),
        },
{
}

/// A refresh that brings tokens puts each of them in its place, whichever
/// others it brings, and leaves each in place that it does not bring. It
/// changes nothing else of the credentials but when they were last refreshed.
pub proof fn a_refresh_replaces_each_token_that_it_brings(
    auth: AuthModel,
    status: u16,
    fresh: RefreshResponse,
    now: Timestamp,
)
    requires
        auth.tokens is Some,
        auth.tokens->0.refresh_token.len() > 0,
        200 <= status <= 299,
        fresh.id_token is None || fresh.id_token->0 is Ok,
    ensures
        ({
            let before = auth.tokens->0;
            let reply = RefreshReply::Answered { status, decoded: Ok(fresh) };
            &&& refreshed(auth, reply, now) matches Ok(after)
            &&& after.tokens matches Some(tokens)
            &&& match fresh.access_token {
                Some(token) => tokens.access_token == token@,
                None => tokens.access_token == before.access_token,
            }
            &&& match fresh.refresh_token {
                Some(token) => tokens.refresh_token == token@,
                None => tokens.refresh_token == before.refresh_token,
            }
            &&& match fresh.id_token {
                Some(claims) => tokens.id_token == claims->Ok_0.deep_view(),
                None => tokens.id_token == before.id_token,
            }
            &&& tokens.account_id == before.account_id
            &&& after.last_refresh == Some(now)
            &&& after.auth_mode == auth.auth_mode
            &&& after.openai_api_key == auth.openai_api_key
            &&& after.agent_identity == auth.agent_identity
        }),
{
}

/// A refresh fails for the first of these reasons that holds: there are no
/// tokens; there is no refresh token; the request was not sent; it was refused,
/// and if with status 401 then because the credentials expired; the answer
/// could not be decoded; the ID token in it could not be parsed. If none holds
/// it succeeds.
pub proof fn a_refresh_fails_for_the_first_reason(
    auth: AuthModel,
    reply: RefreshReply,
    now: Timestamp,
)
    ensures
        ({
            let result = refreshed(auth, reply, now);
            match auth.tokens {
                None => result == Err::<AuthModel, Seq<char>>("token data is not available"@),
                Some(tokens) => if tokens.refresh_token.len() == 0 {
                    result == Err::<AuthModel, Seq<char>>("credentials cannot be refreshed"@)
                } else {
                    match reply {
                        RefreshReply::Unsent(reason) => result == Err::<AuthModel, Seq<char>>(
                            reason@,
                        ),
                        RefreshReply::Answered { status, decoded } => {
                            &&& status == 401 ==> result == Err::<AuthModel, Seq<char>>(
                                "credentials expired"@,
                            )
                            &&& (status < 200 || 299 < status) && status != 401 ==> result == Err::<
                                AuthModel,
                                Seq<char>,
                            >("token refresh failed: "@ + http_status_text(status))
                            &&& 200 <= status <= 299 && decoded is Err ==> result == Err::<
                                AuthModel,
                                Seq<char>,
                            >("failed to decode refreshed credentials: "@ + decoded->Err_0@)
                            &&& 200 <= status <= 299 && decoded is Ok && decoded->Ok_0.id_token is Some
                                && decoded->Ok_0.id_token->0 is Err ==> result == Err::<
                                AuthModel,
                                Seq<char>,
                            >(
                                "failed to parse refreshed ID token: "@
                                    + decoded->Ok_0.id_token->0->Err_0@,
                            )
                            &&& result is Ok <==> 200 <= status <= 299 && decoded is Ok && (
                            decoded->Ok_0.id_token is None || decoded->Ok_0.id_token->0 is Ok)
                        },
                    }
                },
            }
        }),
{
}

/// Fresh tokens are asked for with the refresh token, unless a refresh would
/// fail without asking.
pub proof fn fresh_tokens_are_asked_for_with_the_refresh_token(auth: AuthModel)
    ensures
        match (auth.tokens, refresh_token_of(auth)) {
            (Some(tokens), Ok(token)) => tokens.refresh_token.len() > 0 && token
                == tokens.refresh_token,
            (Some(tokens), Err(reason)) => tokens.refresh_token.len() == 0 && reason
                == "credentials cannot be refreshed"@,
            (None, Ok(_)) => false,
            (None, Err(reason)) => reason == "token data is not available"@,
        },
{
}

} // verus!
