//! Which account a set of credentials belongs to.

use vstd::prelude::*;

use crate::auth::{
    known_plan_name, plan_name, AccountPlanType, ApiAuthMode, AuthDotJson, AuthModel,
    InternalKnownPlan, InternalPlanModel, InternalPlanType,
};
use crate::error::{result_view, AccountsError, AccountsErrorModel};
use crate::text::{concat2, concat3, last_chars, last_chars_of};

verus! {

/// The SHA-256 digest of some bytes, written in hexadecimal digits.
pub uninterp spec fn sha256_hex_of(bytes: Seq<u8>) -> Seq<char>;

/// Whether `c` is a digit of a hexadecimal number written in small letters.
pub open spec fn is_hex_digit(c: char) -> bool {
    '0' <= c <= '9' || 'a' <= c <= 'f'
}

/// `sha2`'s `Sha256` over `bytes`, with the digest written by its `{:x}`: two
/// small hexadecimal digits for each of its 32 bytes. Which digits these are
/// is named, not stated.
#[verifier::external_body]
pub(crate) fn sha256_hex(bytes: &[u8]) -> (hex: String)
    ensures
        hex@ == sha256_hex_of(bytes@),
        hex@.len() == 64,
        forall|i: int| 0 <= i < hex@.len() ==> is_hex_digit(#[trigger] hex@[i]),
{
    let digest = <sha2::Sha256 as sha2::Digest>::digest(bytes);
    format!("{digest:x}")
}

/// The first 16 digits of a digest written out.
pub fn hash_prefix(hex: &str) -> (prefix: String)
    requires
        hex@.len() >= 16,
    ensures
        prefix@ == hex@.take(16),
{
    assert(hex@.subrange(0, 16) =~= hex@.take(16));
    hex.substring_char(0, 16).to_owned()
}

/// The short hash of some bytes: the first 16 hexadecimal digits of their
/// SHA-256 digest.
pub open spec fn short_hash_of(bytes: Seq<u8>) -> Seq<char> {
    sha256_hex_of(bytes).take(16)
}

/// The short hash of `bytes`: 16 hexadecimal digits.
pub fn short_hash(bytes: &[u8]) -> (hash: String)
    ensures
        hash@ == short_hash_of(bytes@),
        hash@.len() == 16,
        forall|i: int| 0 <= i < 16 ==> is_hex_digit(#[trigger] hash@[i]),
{
    let hex: String = sha256_hex(bytes);
    hash_prefix(hex.as_str())
}

/// How credentials sign in: as they say, or else by what they hold.
pub open spec fn mode_of(auth: AuthModel) -> ApiAuthMode {
    match auth.auth_mode {
        Some(mode) => mode,
        None => if auth.openai_api_key is Some {
            ApiAuthMode::ApiKey
        } else if auth.agent_identity is Some {
            ApiAuthMode::AgentIdentity
        } else {
            ApiAuthMode::Chatgpt
        },
    }
}

/// How `auth` signs in.
pub fn resolved_auth_mode(auth: &AuthDotJson) -> (mode: ApiAuthMode)
    ensures
        mode == mode_of(auth.deep_view()),
{
    if let Some(mode) = auth.auth_mode {
        return mode;
    }
    if auth.openai_api_key.is_some() {
        return ApiAuthMode::ApiKey;
    }
    if auth.agent_identity.is_some() {
        return ApiAuthMode::AgentIdentity;
    }
    ApiAuthMode::Chatgpt
}

/// The account that ChatGPT tokens are for: the one stored with them, or else
/// the one that the ID token names.
pub open spec fn chatgpt_account_of(auth: AuthModel) -> Option<Seq<char>> {
    match auth.tokens {
        Some(tokens) => match tokens.account_id {
            Some(id) => Some(id),
            None => tokens.id_token.chatgpt_account_id,
        },
        None => None,
    }
}

/// The email address in the ID token.
pub open spec fn token_email_of(auth: AuthModel) -> Option<Seq<char>> {
    match auth.tokens {
        Some(tokens) => tokens.id_token.email,
        None => None,
    }
}

/// The key and the label of the account that credentials belong to, when they
/// sign in by `mode`. `serialized` is what serializing the credentials came
/// to, which is read for a ChatGPT login without an account.
pub open spec fn identity_of(
    auth: AuthModel,
    mode: ApiAuthMode,
    serialized: Result<Seq<u8>, Seq<char>>,
) -> Result<(Seq<char>, Seq<char>), AccountsErrorModel> {
    match mode {
        ApiAuthMode::ApiKey => match auth.openai_api_key {
            Some(key) => Ok(
                (
                    "api:"@ + short_hash_of(vstd::utf8::encode_utf8(key)),
                    "API key (..."@ + last_chars_of(key, 4) + ")"@,
                ),
            ),
            None => Err(AccountsErrorModel::MissingKeyMaterial),
        },
        ApiAuthMode::AgentIdentity => match auth.agent_identity {
            Some(record) => Ok(("agent:"@ + record.account_id, record.email)),
            None => Err(AccountsErrorModel::MissingAgentIdentity),
        },
        ApiAuthMode::Chatgpt | ApiAuthMode::ChatgptAuthTokens => {
            let label = match token_email_of(auth) {
                Some(email) => email,
                None => match chatgpt_account_of(auth) {
                    Some(id) => id,
                    None => "ChatGPT account"@,
                },
            };
            match chatgpt_account_of(auth) {
                Some(id) => Ok(("chatgpt:"@ + id, label)),
                None => match serialized {
                    Ok(bytes) => Ok(("chatgpt:"@ + short_hash_of(bytes), label)),
                    Err(error) => Err(AccountsErrorModel::Serialize(error)),
                },
            }
        },
    }
}

/// Whether a key is one of an account with an API key: a prefix and 16
/// hexadecimal digits.
pub open spec fn is_api_account_key(key: Seq<char>) -> bool {
    &&& key.len() == 20
    &&& key.take(4) == "api:"@
    &&& forall|i: int| 4 <= i < 20 ==> is_hex_digit(#[trigger] key[i])
}

/// What serializing credentials came to, by its model.
pub open spec fn serialized_view(serialized: Result<Vec<u8>, String>) -> Result<
    Seq<u8>,
    Seq<char>,
> {
    match serialized {
        Ok(bytes) => Ok(bytes@),
        Err(error) => Err(error@),
    }
}

/// The key and the label of the account that `auth` belongs to, when it signs
/// in by `auth_mode`.
pub fn account_identity(
    auth: &AuthDotJson,
    auth_mode: ApiAuthMode,
    serialized: &Result<Vec<u8>, String>,
) -> (identity: Result<(String, String), AccountsError>)
    ensures
        result_view(identity) == identity_of(
            auth.deep_view(),
            auth_mode,
            serialized_view(*serialized),
        ),
        auth_mode == ApiAuthMode::ApiKey ==> (identity matches Ok((key, _)) ==> is_api_account_key(
            key@,
        )),
{
    match auth_mode {
        ApiAuthMode::ApiKey => match &auth.openai_api_key {
            Some(api_key) => {
                proof {
                    reveal_strlit("api:");
                }
                let suffix: String = last_chars(api_key.as_str(), 4);
                let hash: String = short_hash(api_key.as_str().as_bytes());
                let key: String = concat2("api:", hash.as_str());
                assert(key@.take(4) =~= "api:"@);
                assert forall|i: int| 4 <= i < 20 implies is_hex_digit(#[trigger] key@[i]) by {
                    assert(key@[i] == hash@[i - 4]);
                }
                Ok((key, concat3("API key (...", suffix.as_str(), ")")))
            },
            None => Err(AccountsError::MissingKeyMaterial),
        },
        ApiAuthMode::AgentIdentity => match &auth.agent_identity {
            Some(record) => Ok(
                (concat2("agent:", record.account_id.as_str()), record.email.clone()),
            ),
            None => Err(AccountsError::MissingAgentIdentity),
        },
        ApiAuthMode::Chatgpt | ApiAuthMode::ChatgptAuthTokens => {
            let account_id: Option<String> = match &auth.tokens {
                Some(tokens) => match &tokens.account_id {
                    Some(id) => Some(id.clone()),
                    None => tokens.id_token.chatgpt_account_id.clone(),
                },
                None => None,
            };
            let email: Option<String> = match &auth.tokens {
                Some(tokens) => tokens.id_token.email.clone(),
                None => None,
            };
            let key: String = match &account_id {
                Some(id) => concat2("chatgpt:", id.as_str()),
                None => match serialized {
                    Ok(bytes) => concat2("chatgpt:", short_hash(bytes.as_slice()).as_str()),
                    Err(error) => {
                        return Err(AccountsError::Serialize(error.clone()));
                    },
                },
            };
            let label: String = match email {
                Some(email) => email,
                None => match account_id {
                    Some(id) => id,
                    None => "ChatGPT account".to_owned(),
                },
            };
            Ok((key, label))
        },
    }
}

/// The account that credentials are to be saved under: its key and its label.
/// Tokens that are managed elsewhere are not saved.
pub open spec fn account_to_save_of(
    auth: AuthModel,
    serialized: Result<Seq<u8>, Seq<char>>,
) -> Result<Option<(Seq<char>, Seq<char>)>, AccountsErrorModel> {
    if mode_of(auth) == ApiAuthMode::ChatgptAuthTokens {
        Ok(None)
    } else {
        match identity_of(auth, mode_of(auth), serialized) {
            Ok(identity) => Ok(Some(identity)),
            Err(error) => Err(error),
        }
    }
}

/// The key and the label of the account that `auth` is to be saved under, if
/// it is to be saved at all.
pub fn account_to_save(auth: &AuthDotJson, serialized: &Result<Vec<u8>, String>) -> (account:
    Result<Option<(String, String)>, AccountsError>)
    ensures
        result_view(account) == account_to_save_of(auth.deep_view(), serialized_view(*serialized)),
{
    let auth_mode: ApiAuthMode = resolved_auth_mode(auth);
    if auth_mode == ApiAuthMode::ChatgptAuthTokens {
        return Ok(None);
    }
    match account_identity(auth, auth_mode, serialized) {
        Ok(identity) => Ok(Some(identity)),
        Err(error) => Err(error),
    }
}

/// The email address of an account: that of the agent, or else that in the ID
/// token.
pub open spec fn email_of(auth: AuthModel) -> Option<Seq<char>> {
    match auth.agent_identity {
        Some(record) => Some(record.email),
        None => token_email_of(auth),
    }
}

/// The email address of the account that `auth` belongs to.
pub fn account_email(auth: &AuthDotJson) -> (email: Option<String>)
    ensures
        email.deep_view() == email_of(auth.deep_view()),
{
    match &auth.agent_identity {
        Some(record) => Some(record.email.clone()),
        None => match &auth.tokens {
            Some(tokens) => tokens.id_token.email.clone(),
            None => None,
        },
    }
}

/// The plan that is shown for a plan that an ID token names. A name that is
/// not known here is shown as such.
pub open spec fn shown_plan_of(plan: InternalPlanModel) -> AccountPlanType {
    match plan {
        InternalPlanModel::Known(InternalKnownPlan::Free) => AccountPlanType::Free,
        InternalPlanModel::Known(InternalKnownPlan::Go) => AccountPlanType::Go,
        InternalPlanModel::Known(InternalKnownPlan::Plus) => AccountPlanType::Plus,
        InternalPlanModel::Known(InternalKnownPlan::Pro) => AccountPlanType::Pro,
        InternalPlanModel::Known(InternalKnownPlan::ProLite) => AccountPlanType::ProLite,
        InternalPlanModel::Known(InternalKnownPlan::Team) => AccountPlanType::Team,
        InternalPlanModel::Known(InternalKnownPlan::SelfServeBusinessUsageBased) =>
            AccountPlanType::SelfServeBusinessUsageBased,
        InternalPlanModel::Known(InternalKnownPlan::Business) => AccountPlanType::Business,
        InternalPlanModel::Known(InternalKnownPlan::EnterpriseCbpUsageBased) =>
            AccountPlanType::EnterpriseCbpUsageBased,
        InternalPlanModel::Known(InternalKnownPlan::Enterprise) => AccountPlanType::Enterprise,
        InternalPlanModel::Known(InternalKnownPlan::Edu) => AccountPlanType::Edu,
        InternalPlanModel::Unknown(_) => AccountPlanType::Unknown,
    }
}

/// The plan that is shown for a plan that an ID token names.
pub fn map_internal_plan_type(plan_type: &InternalPlanType) -> (shown: AccountPlanType)
    ensures
        shown == shown_plan_of(plan_type.deep_view()),
{
    match plan_type {
        InternalPlanType::Known(known_plan) => match known_plan {
            InternalKnownPlan::Free => AccountPlanType::Free,
            InternalKnownPlan::Go => AccountPlanType::Go,
            InternalKnownPlan::Plus => AccountPlanType::Plus,
            InternalKnownPlan::Pro => AccountPlanType::Pro,
            InternalKnownPlan::ProLite => AccountPlanType::ProLite,
            InternalKnownPlan::Team => AccountPlanType::Team,
            InternalKnownPlan::SelfServeBusinessUsageBased =>
                AccountPlanType::SelfServeBusinessUsageBased,
            InternalKnownPlan::Business => AccountPlanType::Business,
            InternalKnownPlan::EnterpriseCbpUsageBased => AccountPlanType::EnterpriseCbpUsageBased,
            InternalKnownPlan::Enterprise => AccountPlanType::Enterprise,
            InternalKnownPlan::Edu => AccountPlanType::Edu,
        },
        InternalPlanType::Unknown(_) => AccountPlanType::Unknown,
    }
}

/// The plan of an account: that of the agent, or else the one that the ID
/// token names.
pub open spec fn plan_of(auth: AuthModel) -> Option<AccountPlanType> {
    match auth.agent_identity {
        Some(record) => Some(record.plan_type),
        None => match auth.tokens {
            Some(tokens) => match tokens.id_token.chatgpt_plan_type {
                Some(plan) => Some(shown_plan_of(plan)),
                None => None,
            },
            None => None,
        },
    }
}

/// The plan of the account that `auth` belongs to.
pub fn account_plan_type(auth: &AuthDotJson) -> (plan_type: Option<AccountPlanType>)
    ensures
        plan_type == plan_of(auth.deep_view()),
{
    if let Some(record) = &auth.agent_identity {
        return Some(record.plan_type);
    }
    match &auth.tokens {
        Some(tokens) => match &tokens.id_token.chatgpt_plan_type {
            Some(plan) => Some(map_internal_plan_type(plan)),
            None => None,
        },
        None => None,
    }
}

/// The account that an API key stands for, its key and its label, depends on
/// that API key alone.
pub proof fn an_api_key_stands_for_one_account(
    a: AuthModel,
    b: AuthModel,
    a_serialized: Result<Seq<u8>, Seq<char>>,
    b_serialized: Result<Seq<u8>, Seq<char>>,
)
    requires
        a.openai_api_key is Some,
        a.openai_api_key == b.openai_api_key,
    ensures
        identity_of(a, ApiAuthMode::ApiKey, a_serialized) is Ok,
        identity_of(a, ApiAuthMode::ApiKey, a_serialized) == identity_of(
            b,
            ApiAuthMode::ApiKey,
            b_serialized,
        ),
{
}

/// The key of a ChatGPT account depends on its account alone, where that is
/// known, and not on the tokens.
pub proof fn chatgpt_accounts_are_told_apart_by_their_account(
    a: AuthModel,
    b: AuthModel,
    a_serialized: Result<Seq<u8>, Seq<char>>,
    b_serialized: Result<Seq<u8>, Seq<char>>,
)
    requires
        chatgpt_account_of(a) is Some,
        chatgpt_account_of(b) is Some,
    ensures
        identity_of(a, ApiAuthMode::Chatgpt, a_serialized) matches Ok(a_identity) && identity_of(
            b,
            ApiAuthMode::Chatgpt,
            b_serialized,
        ) matches Ok(b_identity) && (a_identity.0 == b_identity.0 <==> chatgpt_account_of(a)
            == chatgpt_account_of(b)),
{
    let a_id = chatgpt_account_of(a)->0;
    let b_id = chatgpt_account_of(b)->0;
    let prefix = "chatgpt:"@;
    assert((prefix + a_id).skip(prefix.len() as int) =~= a_id);
    assert((prefix + b_id).skip(prefix.len() as int) =~= b_id);
}

/// The label of an account saved with an API key shows at most the last four
/// characters of that API key.
pub proof fn api_key_labels_show_four_characters(
    auth: AuthModel,
    serialized: Result<Seq<u8>, Seq<char>>,
)
    requires
        auth.openai_api_key is Some,
    ensures
        ({
            let key = auth.openai_api_key->0;
            let shown = last_chars_of(key, 4);
            &&& shown.len() <= 4
            &&& exists|hidden: Seq<char>| #[trigger] (hidden + shown) == key
            &&& identity_of(auth, ApiAuthMode::ApiKey, serialized) matches Ok(identity)
            &&& identity.1 == "API key (..."@ + shown + ")"@
        }),
{
    let key = auth.openai_api_key->0;
    let shown = last_chars_of(key, 4);
    let hidden = key.take(key.len() - shown.len());
    assert(hidden + shown =~= key);
}

/// Credentials whose tokens are managed elsewhere, and no others, are left
/// unsaved without an error.
pub proof fn only_external_tokens_are_left_unsaved(
    auth: AuthModel,
    serialized: Result<Seq<u8>, Seq<char>>,
)
    ensures
        account_to_save_of(auth, serialized) == Ok::<
            Option<(Seq<char>, Seq<char>)>,
            AccountsErrorModel,
        >(None) <==> mode_of(auth) == ApiAuthMode::ChatgptAuthTokens,
{
}

/// What credentials say of how they sign in counts, whatever they hold.
pub proof fn what_credentials_say_counts_first(auth: AuthModel, mode: ApiAuthMode)
    requires
        auth.auth_mode == Some(mode),
    ensures
        mode_of(auth) == mode,
{
}

/// Credentials that do not say how they sign in do so by an API key if they
/// hold one, or else as an agent if they hold one, or else by ChatGPT, and
/// never by tokens that are managed elsewhere.
pub proof fn without_a_word_the_contents_decide(auth: AuthModel)
    requires
        auth.auth_mode is None,
    ensures
        mode_of(auth) == ApiAuthMode::ApiKey <==> auth.openai_api_key is Some,
        mode_of(auth) == ApiAuthMode::AgentIdentity <==> auth.openai_api_key is None
            && auth.agent_identity is Some,
        mode_of(auth) == ApiAuthMode::Chatgpt <==> auth.openai_api_key is None
            && auth.agent_identity is None,
{
}

/// An account with an API key is saved under a prefix and the first 16 digits
/// of the digest of that API key. Without an API key there is no such account,
/// whatever else the credentials hold.
pub proof fn api_key_accounts_are_saved_under_a_digest(
    auth: AuthModel,
    serialized: Result<Seq<u8>, Seq<char>>,
)
    ensures
        match identity_of(auth, ApiAuthMode::ApiKey, serialized) {
            Ok((key, _)) => {
                &&& auth.openai_api_key matches Some(api_key)
                &&& key.take(4) == "api:"@
                &&& key.skip(4) == sha256_hex_of(vstd::utf8::encode_utf8(api_key)).take(16)
            },
            Err(error) => auth.openai_api_key is None && error
                == AccountsErrorModel::MissingKeyMaterial,
        },
{
    reveal_strlit("api:");
    if auth.openai_api_key is Some {
        let hash = short_hash_of(vstd::utf8::encode_utf8(auth.openai_api_key->0));
        assert(("api:"@ + hash).take(4) =~= "api:"@);
        assert(("api:"@ + hash).skip(4) =~= hash);
    }
}

/// The account of an agent is saved under a prefix and the agent's account, and
/// called by its email address, whatever else the credentials hold.
pub proof fn agents_are_saved_under_their_account(
    auth: AuthModel,
    serialized: Result<Seq<u8>, Seq<char>>,
)
    ensures
        match identity_of(auth, ApiAuthMode::AgentIdentity, serialized) {
            Ok((key, label)) => {
                &&& auth.agent_identity matches Some(agent)
                &&& key.take(6) == "agent:"@
                &&& key.skip(6) == agent.account_id
                &&& label == agent.email
            },
            Err(error) => auth.agent_identity is None && error
                == AccountsErrorModel::MissingAgentIdentity,
        },
{
    reveal_strlit("agent:");
    if auth.agent_identity is Some {
        let id = auth.agent_identity->0.account_id;
        assert(("agent:"@ + id).take(6) =~= "agent:"@);
        assert(("agent:"@ + id).skip(6) =~= id);
    }
}

/// A ChatGPT account is saved under a prefix and the account that is stored
/// with its tokens, whatever their ID token names; or else under the one that
/// the ID token names; or else under a digest of the credentials.
pub proof fn chatgpt_accounts_are_saved_under_their_account(
    auth: AuthModel,
    mode: ApiAuthMode,
    serialized: Result<Seq<u8>, Seq<char>>,
)
    requires
        mode == ApiAuthMode::Chatgpt || mode == ApiAuthMode::ChatgptAuthTokens,
    ensures
        ({
            let identity = identity_of(auth, mode, serialized);
            let is_under = |rest: Seq<char>|
                identity is Ok && identity->Ok_0.0.take(8) == "chatgpt:"@
                    && identity->Ok_0.0.skip(8) == rest;
            let stored = match auth.tokens {
                Some(tokens) => tokens.account_id,
                None => None,
            };
            let named = match auth.tokens {
                Some(tokens) => tokens.id_token.chatgpt_account_id,
                None => None,
            };
            match (stored, named, serialized) {
                (Some(id), _, _) => is_under(id),
                (None, Some(id), _) => is_under(id),
                (None, None, Ok(bytes)) => is_under(sha256_hex_of(bytes).take(16)),
                (None, None, Err(reason)) => identity is Err && identity->Err_0
                    == AccountsErrorModel::Serialize(reason),
            }
        }),
{
    reveal_strlit("chatgpt:");
    let prefix = "chatgpt:"@;
    assert forall|rest: Seq<char>| (#[trigger] (prefix + rest)).take(8) == prefix && (prefix
        + rest).skip(8) == rest by {
        assert((prefix + rest).take(8) =~= prefix);
        assert((prefix + rest).skip(8) =~= rest);
    }
}

/// A ChatGPT account is called by the email address in its ID token, whatever
/// its account; or else by its account; or else by what it is.
pub proof fn chatgpt_accounts_are_called_by_their_email_address(
    auth: AuthModel,
    mode: ApiAuthMode,
    serialized: Result<Seq<u8>, Seq<char>>,
)
    requires
        mode == ApiAuthMode::Chatgpt || mode == ApiAuthMode::ChatgptAuthTokens,
        identity_of(auth, mode, serialized) is Ok,
    ensures
        ({
            let label = identity_of(auth, mode, serialized)->Ok_0.1;
            match auth.tokens {
                Some(tokens) => match (
                    tokens.id_token.email,
                    tokens.account_id,
                    tokens.id_token.chatgpt_account_id,
                ) {
                    (Some(email), _, _) => label == email,
                    (None, Some(stored), _) => label == stored,
                    (None, None, Some(named)) => label == named,
                    (None, None, None) => label == "ChatGPT account"@,
                },
                None => label == "ChatGPT account"@,
            }
        }),
{
}

/// Accounts that sign in by an API key, as an agent or by ChatGPT are never
/// saved under the same key.
pub proof fn ways_of_signing_in_do_not_share_keys(
    a: AuthModel,
    a_serialized: Result<Seq<u8>, Seq<char>>,
    b: AuthModel,
    b_serialized: Result<Seq<u8>, Seq<char>>,
    c: AuthModel,
    c_serialized: Result<Seq<u8>, Seq<char>>,
)
    requires
        identity_of(a, ApiAuthMode::ApiKey, a_serialized) is Ok,
        identity_of(b, ApiAuthMode::AgentIdentity, b_serialized) is Ok,
        identity_of(c, ApiAuthMode::Chatgpt, c_serialized) is Ok,
    ensures
        ({
            let by_key = identity_of(a, ApiAuthMode::ApiKey, a_serialized)->Ok_0.0;
            let as_agent = identity_of(b, ApiAuthMode::AgentIdentity, b_serialized)->Ok_0.0;
            let by_chatgpt = identity_of(c, ApiAuthMode::Chatgpt, c_serialized)->Ok_0.0;
            by_key != as_agent && by_key != by_chatgpt && as_agent != by_chatgpt
        }),
{
    reveal_strlit("api:");
    reveal_strlit("agent:");
    reveal_strlit("chatgpt:");
    let by_key = identity_of(a, ApiAuthMode::ApiKey, a_serialized)->Ok_0.0;
    let as_agent = identity_of(b, ApiAuthMode::AgentIdentity, b_serialized)->Ok_0.0;
    let by_chatgpt = identity_of(c, ApiAuthMode::Chatgpt, c_serialized)->Ok_0.0;
    assert(by_key[1] == 'p');
    assert(as_agent[1] == 'g');
    assert(by_chatgpt[1] == 'h');
}

/// Credentials are saved under the account that they belong to by the way they
/// sign in, unless their tokens are managed elsewhere, and fail to be for the
/// same reason.
pub proof fn credentials_are_saved_under_their_account(
    auth: AuthModel,
    serialized: Result<Seq<u8>, Seq<char>>,
)
    requires
        mode_of(auth) != ApiAuthMode::ChatgptAuthTokens,
    ensures
        match (account_to_save_of(auth, serialized), identity_of(auth, mode_of(auth), serialized)) {
            (Ok(saved), Ok(identity)) => saved == Some(identity),
            (Err(reason), Err(error)) => reason == error,
            _ => false,
        },
{
}

/// The email address and the plan of an agent are shown, whatever tokens there
/// are.
pub proof fn agents_are_shown_as_they_are(auth: AuthModel)
    requires
        auth.agent_identity is Some,
    ensures
        email_of(auth) == Some(auth.agent_identity->0.email),
        plan_of(auth) == Some(auth.agent_identity->0.plan_type),
{
}

/// Without an agent, the email address and the plan are those in the ID token,
/// each whether or not the other is there. Without tokens there are none.
pub proof fn tokens_are_shown_by_their_claims(auth: AuthModel)
    requires
        auth.agent_identity is None,
    ensures
        match auth.tokens {
            Some(tokens) => {
                &&& email_of(auth) == tokens.id_token.email
                &&& plan_of(auth) is Some <==> tokens.id_token.chatgpt_plan_type is Some
                &&& tokens.id_token.chatgpt_plan_type matches Some(InternalPlanModel::Known(plan))
                    ==> plan_name(plan_of(auth)->0) == known_plan_name(plan)
                &&& tokens.id_token.chatgpt_plan_type matches Some(InternalPlanModel::Unknown(_))
                    ==> plan_of(auth) == Some(AccountPlanType::Unknown)
            },
            None => email_of(auth) is None && plan_of(auth) is None,
        },
{
}

/// A plan that is known is shown under its own name, and every other as
/// unknown, whatever it is called.
pub proof fn plans_keep_their_names(plan: InternalPlanModel)
    ensures
        match plan {
            InternalPlanModel::Known(known) => plan_name(shown_plan_of(plan)) == known_plan_name(
                known,
            ),
            InternalPlanModel::Unknown(_) => shown_plan_of(plan) == AccountPlanType::Unknown,
        },
{
}

/// The short hash of some bytes is the beginning of their digest.
pub proof fn short_hashes_begin_the_digest(bytes: Seq<u8>)
    ensures
        short_hash_of(bytes) == sha256_hex_of(bytes).take(16),
{
}

} // verus!
