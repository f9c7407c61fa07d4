//! The requests for an account's usage: where they go, what they carry, and
//! what becomes of the replies.

use vstd::prelude::*;

use crate::auth::{AuthDotJson, AuthModel, TokenData, TokenModel};
use crate::limits::RateLimitStatusPayload;
use crate::text::{
    concat2, concat4, contains_text, has_part, stands_at, starts_with_text, trim_end, trimmed_end,
};

verus! {

/// The address that a base address stands for: without slashes at its end, and
/// with the path of the backend where it is that of ChatGPT itself.
pub open spec fn backend_base(base_url: Option<Seq<char>>) -> Seq<char> {
    let base = trimmed_end(
        match base_url {
            Some(url) => url,
            None => "https://chatgpt.com"@,
        },
        '/',
    );
    let hosted = stands_at(base, "https://chatgpt.com"@, 0) || stands_at(
        base,
        "https://chat.openai.com"@,
        0,
    );
    if hosted && !has_part(base, "/backend-api"@) {
        base + "/backend-api"@
    } else {
        base
    }
}

/// Where the usage of an account is asked for.
pub open spec fn usage_url_of(base_url: Option<Seq<char>>) -> Seq<char> {
    let base = backend_base(base_url);
    if has_part(base, "/backend-api"@) {
        base + "/wham/usage"@
    } else {
        base + "/api/codex/usage"@
    }
}

/// An optional text, by its model.
pub open spec fn optional_text(text: Option<&str>) -> Option<Seq<char>> {
    match text {
        Some(text) => Some(text@),
        None => None,
    }
}

/// Where the usage of an account is asked for.
pub fn usage_request_url(chatgpt_base_url: Option<&str>) -> (url: String)
    ensures
        url@ == usage_url_of(optional_text(chatgpt_base_url)),
{
    let mut base_url: String = trim_end(
        match chatgpt_base_url {
            Some(url) => url,
            None => "https://chatgpt.com",
        },
        '/',
    );
    let hosted: bool = starts_with_text(base_url.as_str(), "https://chatgpt.com")
        || starts_with_text(base_url.as_str(), "https://chat.openai.com");
    if hosted && !contains_text(base_url.as_str(), "/backend-api") {
        base_url = concat2(base_url.as_str(), "/backend-api");
    }
    if contains_text(base_url.as_str(), "/backend-api") {
        concat2(base_url.as_str(), "/wham/usage")
    } else {
        concat2(base_url.as_str(), "/api/codex/usage")
    }
}

/// `http`'s map of header names to values.
#[verifier::external_type_specification]
#[verifier::external_body]
#[verifier::reject_recursive_types(T)]
pub struct ExHeaderMap<T>(reqwest::header::HeaderMap<T>);

/// The values that a header map holds under each name, in order.
pub uninterp spec fn header_contents(
    headers: reqwest::header::HeaderMap<reqwest::header::HeaderValue>,
) -> Map<Seq<char>, Seq<Seq<char>>>;

/// `http`'s header value.
#[verifier::external_type_specification]
#[verifier::external_body]
pub struct ExHeaderValue(reqwest::header::HeaderValue);

/// What a header map without headers holds.
pub open spec fn no_headers() -> Map<Seq<char>, Seq<Seq<char>>> {
    Map::empty()
}

/// `HeaderMap::new`: a map that holds nothing.
#[verifier::external_body]
pub(crate) fn new_headers() -> (headers: reqwest::header::HeaderMap)
    ensures
        header_contents(headers) == no_headers(),
{
    reqwest::header::HeaderMap::new()
}

/// Whether a text can be the value of a header: it holds no control characters
/// but the tab.
pub open spec fn is_header_text(text: Seq<char>) -> bool {
    forall|i: int|
        0 <= i < text.len() ==> (#[trigger] text[i]) == '\t' || (text[i] >= ' ' && text[i]
            != '\u{7f}')
}

/// Whether a text is the name of a header, written in small letters and
/// hyphens alone, and short.
pub open spec fn is_plain_header_name(text: Seq<char>) -> bool {
    &&& 0 < text.len() <= 64
    &&& forall|i: int|
        0 <= i < text.len() ==> (#[trigger] text[i]) == '-' || 'a' <= text[i] <= 'z'
}

/// Whether `HeaderValue::from_str` of `http` accepts `text`: it takes every
/// byte from 32 on but 127, and the tab, so every character but the ASCII
/// controls, and of these the tab.
#[verifier::external_body]
pub(crate) fn is_header_value(text: &str) -> (accepted: bool)
    ensures
        accepted == is_header_text(text@),
{
    reqwest::header::HeaderValue::from_str(text).is_ok()
}

/// `HeaderMap::insert` of `http`: `value` takes the place of all that stood
/// under `name`. It panics where the map outgrows 32,768 slots, from which a
/// map of fewer than 1,000 names is far. The conversions are
/// `HeaderName::from_bytes`, which keeps a name in small letters as it is, and
/// `HeaderValue::from_str`.
#[verifier::external_body]
pub(crate) fn insert_header(headers: &mut reqwest::header::HeaderMap, name: &str, value: &str)
    requires
        is_plain_header_name(name@),
        is_header_text(value@),
        header_contents(*old(headers)).dom().finite(),
        header_contents(*old(headers)).dom().len() < 1_000,
    ensures
        header_contents(*final(headers)) == header_contents(*old(headers)).insert(
            name@,
            seq![value@],
        ),
{
    headers.insert(
        reqwest::header::HeaderName::from_bytes(name.as_bytes()).unwrap(),
        reqwest::header::HeaderValue::from_str(value).unwrap(),
    );
}

/// The headers with one more, where its value can be one.
pub open spec fn with_header(
    headers: Map<Seq<char>, Seq<Seq<char>>>,
    name: Seq<char>,
    value: Seq<char>,
) -> Map<Seq<char>, Seq<Seq<char>>> {
    if is_header_text(value) {
        headers.insert(name, seq![value])
    } else {
        headers
    }
}

/// Adds a header, where `value` can be the value of one.
fn set_header(headers: &mut reqwest::header::HeaderMap, name: &str, value: &str)
    requires
        is_plain_header_name(name@),
        header_contents(*old(headers)).dom().finite(),
        header_contents(*old(headers)).dom().len() < 999,
    ensures
        header_contents(*final(headers)) == with_header(
            header_contents(*old(headers)),
            name@,
            value@,
        ),
        header_contents(*final(headers)).dom().finite(),
        header_contents(*final(headers)).dom().len() <= header_contents(*old(headers)).dom().len()
            + 1,
{
    if is_header_value(value) {
        insert_header(headers, name, value);
    }
}

/// The account that usage is asked for: that of the agent, or else the one
/// stored with the tokens, or else the one that the ID token names.
pub open spec fn usage_account_of(auth: AuthModel, tokens: TokenModel) -> Option<Seq<char>> {
    match auth.agent_identity {
        Some(record) => Some(record.account_id),
        None => match tokens.account_id {
            Some(id) => Some(id),
            None => tokens.id_token.chatgpt_account_id,
        },
    }
}

/// Whether the agent or the tokens belong to a FedRAMP account.
pub open spec fn is_fedramp(auth: AuthModel, tokens: TokenModel) -> bool {
    (match auth.agent_identity {
        Some(record) => record.chatgpt_account_is_fedramp,
        None => false,
    }) || tokens.id_token.chatgpt_account_is_fedramp
}

/// The headers of a request for usage.
pub open spec fn usage_headers_of(
    auth: AuthModel,
    tokens: TokenModel,
    user_agent: Seq<char>,
) -> Map<Seq<char>, Seq<Seq<char>>> {
    let agent = with_header(no_headers(), "user-agent"@, user_agent);
    let bearer = with_header(agent, "authorization"@, "Bearer "@ + tokens.access_token);
    let account = match usage_account_of(auth, tokens) {
        Some(id) => with_header(bearer, "chatgpt-account-id"@, id),
        None => bearer,
    };
    if is_fedramp(auth, tokens) {
        account.insert("x-openai-fedramp"@, seq!["true"@])
    } else {
        account
    }
}

/// The headers of a request for the usage of the account that `auth` and
/// `tokens` belong to.
pub fn usage_headers(auth: &AuthDotJson, tokens: &TokenData, user_agent: &str) -> (headers:
    reqwest::header::HeaderMap)
    ensures
        header_contents(headers) == usage_headers_of(
            auth.deep_view(),
            tokens.deep_view(),
            user_agent@,
        ),
{
    proof {
        reveal_strlit("user-agent");
        reveal_strlit("authorization");
        reveal_strlit("chatgpt-account-id");
        reveal_strlit("x-openai-fedramp");
        reveal_strlit("true");
    }
    let mut headers: reqwest::header::HeaderMap = new_headers();
    set_header(&mut headers, "user-agent", user_agent);
    let authorization: String = concat2("Bearer ", tokens.access_token.as_str());
    set_header(&mut headers, "authorization", authorization.as_str());
    let account_id: Option<&String> = match &auth.agent_identity {
        Some(record) => Some(&record.account_id),
        None => match &tokens.account_id {
            Some(id) => Some(id),
            None => tokens.id_token.chatgpt_account_id.as_ref(),
        },
    };
    if let Some(id) = account_id {
        set_header(&mut headers, "chatgpt-account-id", id.as_str());
    }
    let agent_is_fedramp: bool = match &auth.agent_identity {
        Some(record) => record.chatgpt_account_is_fedramp,
        None => false,
    };
    if agent_is_fedramp || tokens.id_token.chatgpt_account_is_fedramp {
        set_header(&mut headers, "x-openai-fedramp", "true");
    }
    headers
}

/// Why the usage of an account could not be had.
#[derive(Debug, PartialEq, Eq)]
pub enum UsageFetchError {
    /// The credentials were not accepted.
    Unauthorized,
    /// Anything else, in words.
    Other(String),
}

/// The model of `UsageFetchError`.
pub enum UsageErrorModel {
    Unauthorized,
    Other(Seq<char>),
}

impl DeepView for UsageFetchError {
    type V = UsageErrorModel;

    open spec fn deep_view(&self) -> UsageErrorModel {
        match self {
            UsageFetchError::Unauthorized => UsageErrorModel::Unauthorized,
            UsageFetchError::Other(error) => UsageErrorModel::Other(error@),
        }
    }
}

/// A request for the usage of an account.
#[derive(Debug)]
pub struct UsageRequest {
    pub url: String,
    pub headers: reqwest::header::HeaderMap,
}

/// The request for the usage of the account that `auth` belongs to. Without
/// tokens there is none.
pub fn usage_request(
    auth: &AuthDotJson,
    chatgpt_base_url: Option<&str>,
    user_agent: &str,
) -> (request: Result<UsageRequest, UsageFetchError>)
    ensures
        match auth.deep_view().tokens {
            Some(tokens) => request matches Ok(request) && request.url@ == usage_url_of(
                optional_text(chatgpt_base_url),
            ) && header_contents(request.headers) == usage_headers_of(
                auth.deep_view(),
                tokens,
                user_agent@,
            ),
            None => request matches Err(error) && error.deep_view() == UsageErrorModel::Other(
                "token data is not available"@,
            ),
        },
{
    match &auth.tokens {
        Some(tokens) => Ok(
            UsageRequest {
                url: usage_request_url(chatgpt_base_url),
                headers: usage_headers(auth, tokens, user_agent),
            },
        ),
        None => Err(UsageFetchError::Other("token data is not available".to_owned())),
    }
}

/// An HTTP status with its reason, in words.
pub uninterp spec fn http_status_text(code: u16) -> Seq<char>;

/// `http`'s `Display` of a `StatusCode`: the number and its standard reason.
/// `StatusCode::from_u16` accepts the codes from 100 to 999.
#[verifier::external_body]
pub(crate) fn status_text(code: u16) -> (text: String)
    requires
        100 <= code < 1000,
    ensures
        text@ == http_status_text(code),
{
    reqwest::StatusCode::from_u16(code).unwrap().to_string()
}

/// Whether a status says that a request succeeded.
pub open spec fn is_success_status(code: u16) -> bool {
    200 <= code < 300
}

/// What came of a request for usage.
#[derive(Debug, PartialEq, Eq)]
pub enum UsageReply {
    /// It could not be sent.
    Unsent(String),
    /// It was answered. `decoded` is what decoding the body came to.
    Answered {
        status: u16,
        content_type: String,
        decoded: Result<RateLimitStatusPayload, String>,
    },
}

impl UsageReply {
    /// Whether the status is one that HTTP knows.
    pub open spec fn is_valid(self) -> bool {
        self matches UsageReply::Answered { status, .. } ==> 100 <= status < 1000
    }
}

/// The words for a request for usage that was refused with a status, given in
/// words too.
pub fn usage_refusal(status: &str, content_type: &str) -> (error: String)
    ensures
        error@ == "usage request failed: "@ + status@ + "; content-type="@ + content_type@,
{
    concat4("usage request failed: ", status, "; content-type=", content_type)
}

/// Why a reply to a request for usage does not give it, if it does not.
pub open spec fn usage_error_of(reply: UsageReply) -> Option<UsageErrorModel> {
    match reply {
        UsageReply::Unsent(error) => Some(UsageErrorModel::Other(error@)),
        UsageReply::Answered { status, content_type, decoded } => if status == 401 {
            Some(UsageErrorModel::Unauthorized)
        } else if !is_success_status(status) {
            Some(
                UsageErrorModel::Other(
                    "usage request failed: "@ + http_status_text(status) + "; content-type="@
                        + content_type@,
                ),
            )
        } else {
            match decoded {
                Ok(_) => None,
                Err(error) => Some(
                    UsageErrorModel::Other(
                        "failed to decode usage payload: "@ + error@ + "; content-type="@
                            + content_type@,
                    ),
                ),
            }
        },
    }
}

/// The usage in a reply, or why it is not there.
pub fn request_usage_payload(reply: UsageReply) -> (payload: Result<
    RateLimitStatusPayload,
    UsageFetchError,
>)
    requires
        reply.is_valid(),
    ensures
        match usage_error_of(reply) {
            Some(error) => payload matches Err(e) && e.deep_view() == error,
            None => payload matches Ok(p) && reply matches UsageReply::Answered { decoded, .. }
                && decoded == Ok::<RateLimitStatusPayload, String>(p),
        },
{
    match reply {
        UsageReply::Unsent(error) => Err(UsageFetchError::Other(error)),
        UsageReply::Answered { status, content_type, decoded } => {
            if status == 401 {
                return Err(UsageFetchError::Unauthorized);
            }
            if !(200 <= status && status < 300) {
                let text: String = status_text(status);
                return Err(
                    UsageFetchError::Other(usage_refusal(text.as_str(), content_type.as_str())),
                );
            }
            match decoded {
                Ok(payload) => Ok(payload),
                Err(error) => Err(
                    UsageFetchError::Other(
                        concat4(
                            "failed to decode usage payload: ",
                            error.as_str(),
                            "; content-type=",
                            content_type.as_str(),
                        ),
                    ),
                ),
            }
        },
    }
}

/// A slash at the end of the base address makes no difference.
pub proof fn a_trailing_slash_makes_no_difference(base_url: Seq<char>)
    ensures
        usage_url_of(Some(base_url.push('/'))) == usage_url_of(Some(base_url)),
{
    assert(base_url.push('/').drop_last() =~= base_url);
}

/// The address ends in one of two paths: that of the backend where the base
/// address has it or is that of ChatGPT, and that of Codex everywhere else.
pub proof fn usage_is_asked_for_under_one_of_two_paths(base_url: Option<Seq<char>>)
    ensures
        has_part(backend_base(base_url), "/backend-api"@) ==> usage_url_of(base_url)
            == backend_base(base_url) + "/wham/usage"@,
        !has_part(backend_base(base_url), "/backend-api"@) ==> usage_url_of(base_url)
            == backend_base(base_url) + "/api/codex/usage"@,
        stands_at(backend_base(base_url), "https://chatgpt.com"@, 0) ==> has_part(
            backend_base(base_url),
            "/backend-api"@,
        ),
        stands_at(backend_base(base_url), "https://chat.openai.com"@, 0) ==> has_part(
            backend_base(base_url),
            "/backend-api"@,
        ),
{
    let base = trimmed_end(
        match base_url {
            Some(url) => url,
            None => "https://chatgpt.com"@,
        },
        '/',
    );
    let part = "/backend-api"@;
    assert((base + part).subrange(base.len() as int, (base + part).len() as int) =~= part);
    assert(stands_at(base + part, part, base.len() as int));
}

/// A base address without slashes at its end is kept whole. Behind it comes the
/// path for usage, which has the backend in it where the address names it or
/// belongs to ChatGPT.
pub proof fn the_base_address_is_kept_whole(base: Seq<char>)
    requires
        base.len() > 0 ==> base.last() != '/',
    ensures
        has_part(base, "/backend-api"@) ==> usage_url_of(Some(base)) == base + "/wham/usage"@,
        !has_part(base, "/backend-api"@) && (stands_at(base, "https://chatgpt.com"@, 0)
            || stands_at(base, "https://chat.openai.com"@, 0)) ==> usage_url_of(Some(base)) == base
            + "/backend-api"@ + "/wham/usage"@,
        !has_part(base, "/backend-api"@) && !stands_at(base, "https://chatgpt.com"@, 0)
            && !stands_at(base, "https://chat.openai.com"@, 0) ==> usage_url_of(Some(base)) == base
            + "/api/codex/usage"@,
{
    let part = "/backend-api"@;
    assert((base + part).subrange(base.len() as int, (base + part).len() as int) =~= part);
    assert(stands_at(base + part, part, base.len() as int));
}

/// Without a base address usage is asked for at that of ChatGPT.
pub proof fn usage_is_asked_for_at_chatgpt_by_default()
    ensures
        usage_url_of(None) == usage_url_of(Some("https://chatgpt.com"@)),
{
}

/// The user agent and the access token go into headers of their own, each
/// wherever it can stand in a header, whatever becomes of the other.
pub proof fn requests_say_who_asks(auth: AuthModel, tokens: TokenModel, user_agent: Seq<char>)
    ensures
        ({
            let headers = usage_headers_of(auth, tokens, user_agent);
            let bearer = "Bearer "@ + tokens.access_token;
            &&& headers.contains_key("user-agent"@) <==> is_header_text(user_agent)
            &&& is_header_text(user_agent) ==> headers["user-agent"@] == seq![user_agent]
            &&& headers.contains_key("authorization"@) <==> is_header_text(bearer)
            &&& is_header_text(bearer) ==> headers["authorization"@] == seq![bearer]
        }),
{
    header_names_differ();
}

/// Usage is asked for the account of the agent, whatever the tokens say; or
/// else for the one stored with the tokens; or else for the one that the ID
/// token names; or else for none.
pub proof fn requests_say_for_which_account(
    auth: AuthModel,
    tokens: TokenModel,
    user_agent: Seq<char>,
)
    ensures
        ({
            let headers = usage_headers_of(auth, tokens, user_agent);
            let name = "chatgpt-account-id"@;
            let agent = match auth.agent_identity {
                Some(record) => Some(record.account_id),
                None => None,
            };
            match (agent, tokens.account_id, tokens.id_token.chatgpt_account_id) {
                (Some(id), _, _) | (None, Some(id), _) | (None, None, Some(id)) => {
                    &&& headers.contains_key(name) <==> is_header_text(id)
                    &&& is_header_text(id) ==> headers[name] == seq![id]
                },
                (None, None, None) => !headers.contains_key(name),
            }
        }),
{
    header_names_differ();
}

/// A request is marked if the agent or the tokens belong to a FedRAMP account,
/// and only then. No request carries any other header.
pub proof fn requests_are_marked_for_fedramp(
    auth: AuthModel,
    tokens: TokenModel,
    user_agent: Seq<char>,
    name: Seq<char>,
)
    ensures
        ({
            let headers = usage_headers_of(auth, tokens, user_agent);
            let mark = "x-openai-fedramp"@;
            &&& headers.contains_key(mark) <==> tokens.id_token.chatgpt_account_is_fedramp || (
            auth.agent_identity is Some && auth.agent_identity->0.chatgpt_account_is_fedramp)
            &&& headers.contains_key(mark) ==> headers[mark] == seq!["true"@]
            &&& headers.contains_key(name) ==> name == "user-agent"@ || name == "authorization"@
                || name == "chatgpt-account-id"@ || name == mark
        }),
{
    header_names_differ();
}

/// The four names of headers differ.
proof fn header_names_differ()
    ensures
        "user-agent"@ != "authorization"@,
        "user-agent"@ != "chatgpt-account-id"@,
        "user-agent"@ != "x-openai-fedramp"@,
        "authorization"@ != "chatgpt-account-id"@,
        "authorization"@ != "x-openai-fedramp"@,
        "chatgpt-account-id"@ != "x-openai-fedramp"@,
{
    reveal_strlit("user-agent");
    reveal_strlit("authorization");
    reveal_strlit("chatgpt-account-id");
    reveal_strlit("x-openai-fedramp");
    assert("user-agent"@[0] == 'u');
    assert("authorization"@[0] == 'a');
    assert("chatgpt-account-id"@[0] == 'c');
    assert("x-openai-fedramp"@[0] == 'x');
}

/// A reply gives the usage if, and only if, it was a success and could be
/// decoded. Credentials were not accepted if, and only if, the status says so,
/// whatever else came with it. Every other failure is told with its reason, and
/// one that was answered also with the type of what came.
pub proof fn a_reply_gives_the_usage_or_a_reason(reply: UsageReply)
    ensures
        match reply {
            UsageReply::Unsent(reason) => usage_error_of(reply) == Some(
                UsageErrorModel::Other(reason@),
            ),
            UsageReply::Answered { status, content_type, decoded } => {
                &&& usage_error_of(reply) is None <==> 200 <= status <= 299 && decoded is Ok
                &&& usage_error_of(reply) == Some(UsageErrorModel::Unauthorized) <==> status == 401
                &&& (status < 200 || 299 < status) && status != 401 ==> usage_error_of(reply)
                    == Some(
                    UsageErrorModel::Other(
                        "usage request failed: "@ + http_status_text(status) + "; content-type="@
                            + content_type@,
                    ),
                )
                &&& 200 <= status <= 299 && decoded is Err ==> usage_error_of(reply) == Some(
                    UsageErrorModel::Other(
                        "failed to decode usage payload: "@ + decoded->Err_0@ + "; content-type="@
                            + content_type@,
                    ),
                )
            },
        },
{
}

/// A text can stand in a header if, and only if, each of its characters can: a
/// tab, or anything else but a control character of ASCII.
pub proof fn control_characters_cannot_stand_in_headers(text: Seq<char>)
    ensures
        is_header_text(text) <==> forall|i: int|
            0 <= i < text.len() ==> {
                let code = #[trigger] text[i] as int;
                code == 9 || 32 <= code < 127 || 128 <= code
            },
{
    assert forall|i: int| 0 <= i < text.len() implies (text[i] == '\t' <==> (#[trigger] text[i])
        as int == 9) && (text[i] >= ' ' <==> text[i] as int >= 32) && (text[i] == '\u{7f}'
        <==> text[i] as int == 127) by {}
}

} // verus!
