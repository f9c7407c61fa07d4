//! Stored credentials and the plans they belong to.

use vstd::prelude::*;

use crate::text::same_optional_text;
use crate::time::Timestamp;

verus! {

/// How an account signs in.
#[derive(Debug, Clone, Copy, PartialEq, Eq, Structural)]
pub enum ApiAuthMode {
    ApiKey,
    Chatgpt,
    ChatgptAuthTokens,
    AgentIdentity,
}

impl DeepView for ApiAuthMode {
    type V = ApiAuthMode;

    open spec fn deep_view(&self) -> ApiAuthMode {
        *self
    }
}

/// The plan of an account, as it is shown.
#[derive(Debug, Clone, Copy, PartialEq, Eq, Structural)]
pub enum AccountPlanType {
    Free,
    Go,
    Plus,
    Pro,
    ProLite,
    Team,
    SelfServeBusinessUsageBased,
    Business,
    EnterpriseCbpUsageBased,
    Enterprise,
    Edu,
    Unknown,
}

impl DeepView for AccountPlanType {
    type V = AccountPlanType;

    open spec fn deep_view(&self) -> AccountPlanType {
        *self
    }
}

/// A plan that an ID token names and that is known here.
#[derive(Debug, Clone, Copy, PartialEq, Eq, Structural)]
pub enum InternalKnownPlan {
    Free,
    Go,
    Plus,
    Pro,
    ProLite,
    Team,
    SelfServeBusinessUsageBased,
    Business,
    EnterpriseCbpUsageBased,
    Enterprise,
    Edu,
}

/// The plan that an ID token names.
#[derive(Debug, PartialEq, Eq)]
pub enum InternalPlanType {
    Known(InternalKnownPlan),
    Unknown(String),
}

/// The model of `InternalPlanType`.
pub enum InternalPlanModel {
    Known(InternalKnownPlan),
    Unknown(Seq<char>),
}

impl DeepView for InternalPlanType {
    type V = InternalPlanModel;

    open spec fn deep_view(&self) -> InternalPlanModel {
        match self {
            InternalPlanType::Known(plan) => InternalPlanModel::Known(*plan),
            InternalPlanType::Unknown(name) => InternalPlanModel::Unknown(name@),
        }
    }
}

impl Clone for InternalPlanType {
    fn clone(&self) -> (copy: Self)
        ensures
            copy == *self,
    {
        match self {
            InternalPlanType::Known(plan) => InternalPlanType::Known(*plan),
            InternalPlanType::Unknown(name) => InternalPlanType::Unknown(name.clone()),
        }
    }
}

impl InternalPlanType {
    /// Whether two plans are the same.
    pub fn same(&self, other: &Self) -> (same: bool)
        ensures
            same == (self.deep_view() == other.deep_view()),
    {
        match (self, other) {
            (InternalPlanType::Known(a), InternalPlanType::Known(b)) => *a == *b,
            (InternalPlanType::Unknown(a), InternalPlanType::Unknown(b)) => *a == *b,
            _ => false,
        }
    }
}

/// The claims of an ID token.
#[derive(Debug, PartialEq, Eq)]
pub struct IdTokenInfo {
    pub email: Option<String>,
    pub chatgpt_plan_type: Option<InternalPlanType>,
    pub chatgpt_user_id: Option<String>,
    pub chatgpt_account_id: Option<String>,
    pub chatgpt_account_is_fedramp: bool,
    pub raw_jwt: String,
}

/// The model of `IdTokenInfo`.
pub struct IdTokenModel {
    pub email: Option<Seq<char>>,
    pub chatgpt_plan_type: Option<InternalPlanModel>,
    pub chatgpt_user_id: Option<Seq<char>>,
    pub chatgpt_account_id: Option<Seq<char>>,
    pub chatgpt_account_is_fedramp: bool,
    pub raw_jwt: Seq<char>,
}

impl DeepView for IdTokenInfo {
    type V = IdTokenModel;

    open spec fn deep_view(&self) -> IdTokenModel {
        IdTokenModel {
            email: self.email.deep_view(),
            chatgpt_plan_type: self.chatgpt_plan_type.deep_view(),
            chatgpt_user_id: self.chatgpt_user_id.deep_view(),
            chatgpt_account_id: self.chatgpt_account_id.deep_view(),
            chatgpt_account_is_fedramp: self.chatgpt_account_is_fedramp,
            raw_jwt: self.raw_jwt@,
        }
    }
}

impl Clone for IdTokenInfo {
    fn clone(&self) -> (copy: Self)
        ensures
            copy == *self,
    {
        IdTokenInfo {
            email: self.email.clone(),
            chatgpt_plan_type: self.chatgpt_plan_type.clone(),
            chatgpt_user_id: self.chatgpt_user_id.clone(),
            chatgpt_account_id: self.chatgpt_account_id.clone(),
            chatgpt_account_is_fedramp: self.chatgpt_account_is_fedramp,
            raw_jwt: self.raw_jwt.clone(),
        }
    }
}

impl IdTokenInfo {
    /// Whether two sets of claims are the same.
    pub fn same(&self, other: &Self) -> (same: bool)
        ensures
            same == (self.deep_view() == other.deep_view()),
    {
        let same_plan: bool = match (&self.chatgpt_plan_type, &other.chatgpt_plan_type) {
            (Some(a), Some(b)) => a.same(b),
            (None, None) => true,
            _ => false,
        };
        same_plan && same_optional_text(&self.email, &other.email) && same_optional_text(
            &self.chatgpt_user_id,
            &other.chatgpt_user_id,
        ) && same_optional_text(&self.chatgpt_account_id, &other.chatgpt_account_id)
            && self.chatgpt_account_is_fedramp == other.chatgpt_account_is_fedramp
            && self.raw_jwt == other.raw_jwt
    }
}

/// The tokens of a ChatGPT login.
#[derive(Debug, PartialEq, Eq)]
pub struct TokenData {
    pub id_token: IdTokenInfo,
    pub access_token: String,
    pub refresh_token: String,
    pub account_id: Option<String>,
}

/// The model of `TokenData`.
pub struct TokenModel {
    pub id_token: IdTokenModel,
    pub access_token: Seq<char>,
    pub refresh_token: Seq<char>,
    pub account_id: Option<Seq<char>>,
}

impl DeepView for TokenData {
    type V = TokenModel;

    open spec fn deep_view(&self) -> TokenModel {
        TokenModel {
            id_token: self.id_token.deep_view(),
            access_token: self.access_token@,
            refresh_token: self.refresh_token@,
            account_id: self.account_id.deep_view(),
        }
    }
}

impl Clone for TokenData {
    fn clone(&self) -> (copy: Self)
        ensures
            copy == *self,
    {
        TokenData {
            id_token: self.id_token.clone(),
            access_token: self.access_token.clone(),
            refresh_token: self.refresh_token.clone(),
            account_id: self.account_id.clone(),
        }
    }
}

impl TokenData {
    /// Whether two sets of tokens are the same.
    pub fn same(&self, other: &Self) -> (same: bool)
        ensures
            same == (self.deep_view() == other.deep_view()),
    {
        self.id_token.same(&other.id_token) && self.access_token == other.access_token
            && self.refresh_token == other.refresh_token && same_optional_text(
            &self.account_id,
            &other.account_id,
        )
    }
}

/// The record of an agent identity login.
#[derive(Debug, PartialEq, Eq)]
pub struct AgentIdentityAuthRecord {
    pub agent_runtime_id: String,
    pub agent_private_key: String,
    pub account_id: String,
    pub chatgpt_user_id: String,
    pub email: String,
    pub plan_type: AccountPlanType,
    pub chatgpt_account_is_fedramp: bool,
}

/// The model of `AgentIdentityAuthRecord`.
pub struct AgentIdentityModel {
    pub agent_runtime_id: Seq<char>,
    pub agent_private_key: Seq<char>,
    pub account_id: Seq<char>,
    pub chatgpt_user_id: Seq<char>,
    pub email: Seq<char>,
    pub plan_type: AccountPlanType,
    pub chatgpt_account_is_fedramp: bool,
}

impl DeepView for AgentIdentityAuthRecord {
    type V = AgentIdentityModel;

    open spec fn deep_view(&self) -> AgentIdentityModel {
        AgentIdentityModel {
            agent_runtime_id: self.agent_runtime_id@,
            agent_private_key: self.agent_private_key@,
            account_id: self.account_id@,
            chatgpt_user_id: self.chatgpt_user_id@,
            email: self.email@,
            plan_type: self.plan_type,
            chatgpt_account_is_fedramp: self.chatgpt_account_is_fedramp,
        }
    }
}

impl Clone for AgentIdentityAuthRecord {
    fn clone(&self) -> (copy: Self)
        ensures
            copy == *self,
    {
        AgentIdentityAuthRecord {
            agent_runtime_id: self.agent_runtime_id.clone(),
            agent_private_key: self.agent_private_key.clone(),
            account_id: self.account_id.clone(),
            chatgpt_user_id: self.chatgpt_user_id.clone(),
            email: self.email.clone(),
            plan_type: self.plan_type,
            chatgpt_account_is_fedramp: self.chatgpt_account_is_fedramp,
        }
    }
}

impl AgentIdentityAuthRecord {
    /// Whether two records are the same.
    pub fn same(&self, other: &Self) -> (same: bool)
        ensures
            same == (self.deep_view() == other.deep_view()),
    {
        self.agent_runtime_id == other.agent_runtime_id && self.agent_private_key
            == other.agent_private_key && self.account_id == other.account_id
            && self.chatgpt_user_id == other.chatgpt_user_id && self.email == other.email
            && self.plan_type == other.plan_type && self.chatgpt_account_is_fedramp
            == other.chatgpt_account_is_fedramp
    }
}

/// The credentials of one login.
#[derive(Debug, PartialEq, Eq)]
pub struct AuthDotJson {
    pub auth_mode: Option<ApiAuthMode>,
    pub openai_api_key: Option<String>,
    pub tokens: Option<TokenData>,
    pub last_refresh: Option<Timestamp>,
    pub agent_identity: Option<AgentIdentityAuthRecord>,
}

/// The model of `AuthDotJson`.
pub struct AuthModel {
    pub auth_mode: Option<ApiAuthMode>,
    pub openai_api_key: Option<Seq<char>>,
    pub tokens: Option<TokenModel>,
    pub last_refresh: Option<Timestamp>,
    pub agent_identity: Option<AgentIdentityModel>,
}

impl DeepView for AuthDotJson {
    type V = AuthModel;

    open spec fn deep_view(&self) -> AuthModel {
        AuthModel {
            auth_mode: self.auth_mode,
            openai_api_key: self.openai_api_key.deep_view(),
            tokens: self.tokens.deep_view(),
            last_refresh: self.last_refresh,
            agent_identity: self.agent_identity.deep_view(),
        }
    }
}

impl Clone for AuthDotJson {
    fn clone(&self) -> (copy: Self)
        ensures
            copy == *self,
    {
        AuthDotJson {
            auth_mode: self.auth_mode,
            openai_api_key: self.openai_api_key.clone(),
            tokens: self.tokens.clone(),
            last_refresh: self.last_refresh,
            agent_identity: self.agent_identity.clone(),
        }
    }
}

impl AuthDotJson {
    /// Whether two sets of credentials are the same.
    pub fn same(&self, other: &Self) -> (same: bool)
        ensures
            same == (self.deep_view() == other.deep_view()),
    {
        let same_mode: bool = match (&self.auth_mode, &other.auth_mode) {
            (Some(a), Some(b)) => *a == *b,
            (None, None) => true,
            _ => false,
        };
        let same_tokens: bool = match (&self.tokens, &other.tokens) {
            (Some(a), Some(b)) => a.same(b),
            (None, None) => true,
            _ => false,
        };
        let same_refresh: bool = match (&self.last_refresh, &other.last_refresh) {
            (Some(a), Some(b)) => *a == *b,
            (None, None) => true,
            _ => false,
        };
        let same_identity: bool = match (&self.agent_identity, &other.agent_identity) {
            (Some(a), Some(b)) => a.same(b),
            (None, None) => true,
            _ => false,
        };
        same_mode && same_tokens && same_refresh && same_identity && same_optional_text(
            &self.openai_api_key,
            &other.openai_api_key,
        )
    }
}

/// The name of a plan.
pub open spec fn plan_name(plan: AccountPlanType) -> Seq<char> {
    match plan {
        AccountPlanType::Free => "free"@,
        AccountPlanType::Go => "go"@,
        AccountPlanType::Plus => "plus"@,
        AccountPlanType::Pro => "pro"@,
        AccountPlanType::ProLite => "prolite"@,
        AccountPlanType::Team => "team"@,
        AccountPlanType::SelfServeBusinessUsageBased => "self_serve_business_usage_based"@,
        AccountPlanType::Business => "business"@,
        AccountPlanType::EnterpriseCbpUsageBased => "enterprise_cbp_usage_based"@,
        AccountPlanType::Enterprise => "enterprise"@,
        AccountPlanType::Edu => "edu"@,
        AccountPlanType::Unknown => "unknown"@,
    }
}

/// The name of a plan in an ID token.
pub open spec fn known_plan_name(plan: InternalKnownPlan) -> Seq<char> {
    match plan {
        InternalKnownPlan::Free => "free"@,
        InternalKnownPlan::Go => "go"@,
        InternalKnownPlan::Plus => "plus"@,
        InternalKnownPlan::Pro => "pro"@,
        InternalKnownPlan::ProLite => "prolite"@,
        InternalKnownPlan::Team => "team"@,
        InternalKnownPlan::SelfServeBusinessUsageBased => "self_serve_business_usage_based"@,
        InternalKnownPlan::Business => "business"@,
        InternalKnownPlan::EnterpriseCbpUsageBased => "enterprise_cbp_usage_based"@,
        InternalKnownPlan::Enterprise => "enterprise"@,
        InternalKnownPlan::Edu => "edu"@,
    }
}

} // verus!
