//! What models keep: all that the values hold. Contracts and laws speak of
//! models, so what a model left out nothing would be said of.

use vstd::prelude::*;

use crate::auth::{
    AgentIdentityAuthRecord, AuthDotJson, IdTokenInfo, InternalPlanModel, InternalPlanType,
    TokenData,
};
use crate::entry::{SavedAccountEntry, SavedAccountsFile};
use crate::error::{attempt_view, result_view, AccountsError, AccountsErrorModel};
use crate::fetch::{usage_view, FetchPhase, PhaseModel};
use crate::identity::serialized_view;
use crate::limits::{snapshots_of, CreditsSnapshot, RateLimitSnapshot, RateLimitStatusPayload};
use crate::popup::{
    AccountsPopupStatusState, ActionModel, AppEvent, EventModel, PopupOutcome, PopupOutcomeModel,
    PopupStateModel, RemoveResultModel, RemoveSavedAccountResult, SelectionAction, SelectionItem,
    SelectionViewParams,
};
use crate::render::{
    DataModel, RenderedModel, RenderedSavedAccount, SavedAccountsState, ShownStatus, StateModel,
    StatusLine, StatusRateLimitData, StatusRateLimitRow, StatusRateLimitValue, ValueModel,
};
use crate::round::{StatusJob, StatusRound};
use crate::status::{
    fetched_view, FetchedSavedAccountStatus, RateLimitsModel, SavedAccountRateLimits,
    SavedAccountStatus,
};
use crate::store::{RemovalModel, RemoveSavedAccountResultInternal, SavedAccountSummary};
use crate::usage::{optional_text, UsageErrorModel, UsageFetchError};

verus! {

/// The model of `InternalPlanType` has all that it holds.
pub proof fn internal_plan_type_has_a_full_model(value: InternalPlanType)
    ensures
        match value {
            InternalPlanType::Known(plan) => value.deep_view() == InternalPlanModel::Known(plan),
            InternalPlanType::Unknown(name) => value.deep_view()
                == InternalPlanModel::Unknown(name@),
        },
{
}

/// The model of `IdTokenInfo` has all that it holds.
pub proof fn id_token_info_has_a_full_model(value: IdTokenInfo)
    ensures
        value.deep_view().email == value.email.deep_view(),
        value.deep_view().chatgpt_plan_type == value.chatgpt_plan_type.deep_view(),
        value.deep_view().chatgpt_user_id == value.chatgpt_user_id.deep_view(),
        value.deep_view().chatgpt_account_id == value.chatgpt_account_id.deep_view(),
        value.deep_view().chatgpt_account_is_fedramp == value.chatgpt_account_is_fedramp,
        value.deep_view().raw_jwt == value.raw_jwt@,
{
}

/// The model of `TokenData` has all that it holds.
pub proof fn token_data_has_a_full_model(value: TokenData)
    ensures
        value.deep_view().id_token == value.id_token.deep_view(),
        value.deep_view().access_token == value.access_token@,
        value.deep_view().refresh_token == value.refresh_token@,
        value.deep_view().account_id == value.account_id.deep_view(),
{
}

/// The model of `AgentIdentityAuthRecord` has all that it holds.
pub proof fn agent_identity_auth_record_has_a_full_model(value: AgentIdentityAuthRecord)
    ensures
        value.deep_view().agent_runtime_id == value.agent_runtime_id@,
        value.deep_view().agent_private_key == value.agent_private_key@,
        value.deep_view().account_id == value.account_id@,
        value.deep_view().chatgpt_user_id == value.chatgpt_user_id@,
        value.deep_view().email == value.email@,
        value.deep_view().plan_type == value.plan_type,
        value.deep_view().chatgpt_account_is_fedramp == value.chatgpt_account_is_fedramp,
{
}

/// The model of `AuthDotJson` has all that it holds.
pub proof fn auth_dot_json_has_a_full_model(value: AuthDotJson)
    ensures
        value.deep_view().auth_mode == value.auth_mode,
        value.deep_view().openai_api_key == value.openai_api_key.deep_view(),
        value.deep_view().tokens == value.tokens.deep_view(),
        value.deep_view().last_refresh == value.last_refresh,
        value.deep_view().agent_identity == value.agent_identity.deep_view(),
{
}

/// The model of `SavedAccountEntry` has all that it holds.
pub proof fn saved_account_entry_has_a_full_model(value: SavedAccountEntry)
    ensures
        value.deep_view().key == value.key@,
        value.deep_view().label == value.label@,
        value.deep_view().auth_mode == value.auth_mode,
        value.deep_view().auth == value.auth.deep_view(),
        value.deep_view().updated_at == value.updated_at,
{
}

/// The model of `SavedAccountsFile` has all that it holds.
pub proof fn saved_accounts_file_has_a_full_model(value: SavedAccountsFile)
    ensures
        value.deep_view().version == value.version,
        value.deep_view().active == value.active_account_key.deep_view(),
        value.deep_view().accounts == value.accounts.deep_view(),
{
}

/// The model of `AccountsError` has all that it holds.
pub proof fn accounts_error_has_a_full_model(value: AccountsError)
    ensures
        match value {
            AccountsError::MissingKeyMaterial => value.deep_view()
                == AccountsErrorModel::MissingKeyMaterial,
            AccountsError::MissingAgentIdentity => value.deep_view()
                == AccountsErrorModel::MissingAgentIdentity,
            AccountsError::Serialize(error) => value.deep_view()
                == AccountsErrorModel::Serialize(error@),
            AccountsError::NotFound(key) => value.deep_view() == AccountsErrorModel::NotFound(key@),
            AccountsError::StatusTaskFailed(error) => value.deep_view()
                == AccountsErrorModel::StatusTaskFailed(error@),
            AccountsError::MissingStatus => value.deep_view() == AccountsErrorModel::MissingStatus,
        },
{
}

/// The model of `SavedAccountSummary` has all that it holds.
pub proof fn saved_account_summary_has_a_full_model(value: SavedAccountSummary)
    ensures
        value.deep_view().key == value.key@,
        value.deep_view().label == value.label@,
        value.deep_view().auth_mode == value.auth_mode,
        value.deep_view().is_active == value.is_active,
{
}

/// The model of `RemoveSavedAccountResultInternal` has all that it holds.
pub proof fn remove_saved_account_result_internal_has_a_full_model(value: RemoveSavedAccountResultInternal)
    ensures
        match value {
            RemoveSavedAccountResultInternal::Inactive { removed } => value.deep_view()
                == (RemovalModel::Inactive { removed: removed.deep_view(), }),
            RemoveSavedAccountResultInternal::ActiveSwitched { removed, replacement, replacement_auth, } =>
                value.deep_view() == (RemovalModel::ActiveSwitched { removed: removed.deep_view(), replacement: replacement.deep_view(), replacement_auth: replacement_auth.deep_view(), }),
            RemoveSavedAccountResultInternal::LastActive { removed } => value.deep_view()
                == (RemovalModel::LastActive { removed: removed.deep_view(), }),
        },
{
}

/// The model of `CreditsSnapshot` has all that it holds.
pub proof fn credits_snapshot_has_a_full_model(value: CreditsSnapshot)
    ensures
        value.deep_view().has_credits == value.has_credits,
        value.deep_view().unlimited == value.unlimited,
        value.deep_view().balance == value.balance.deep_view(),
{
}

/// The model of `RateLimitSnapshot` has all that it holds.
pub proof fn rate_limit_snapshot_has_a_full_model(value: RateLimitSnapshot)
    ensures
        value.deep_view().limit_id == value.limit_id.deep_view(),
        value.deep_view().limit_name == value.limit_name.deep_view(),
        value.deep_view().primary == value.primary,
        value.deep_view().secondary == value.secondary,
        value.deep_view().credits == value.credits.deep_view(),
        value.deep_view().plan_type == value.plan_type,
        value.deep_view().rate_limit_reached_type == value.rate_limit_reached_type,
{
}

/// The model of `SavedAccountRateLimits` has all that it holds.
pub proof fn saved_account_rate_limits_has_a_full_model(value: SavedAccountRateLimits)
    ensures
        match value {
            SavedAccountRateLimits::Available(snapshots) => value.deep_view()
                == RateLimitsModel::Available( snapshots.deep_view(), ),
            SavedAccountRateLimits::Unsupported { reason } => value.deep_view()
                == (RateLimitsModel::Unsupported { reason: reason@, }),
            SavedAccountRateLimits::Unavailable { error } => value.deep_view()
                == (RateLimitsModel::Unavailable { error: error@, }),
        },
{
}

/// The model of `SavedAccountStatus` has all that it holds.
pub proof fn saved_account_status_has_a_full_model(value: SavedAccountStatus)
    ensures
        value.deep_view().summary == value.summary.deep_view(),
        value.deep_view().email == value.email.deep_view(),
        value.deep_view().plan_type == value.plan_type,
        value.deep_view().rate_limits == value.rate_limits.deep_view(),
{
}

/// The model of `FetchedSavedAccountStatus` has all that it holds.
pub proof fn fetched_saved_account_status_has_a_full_model(value: FetchedSavedAccountStatus)
    ensures
        value.deep_view().status == value.status.deep_view(),
        value.deep_view().updated_auth == value.updated_auth.deep_view(),
{
}

/// The model of `FetchPhase` has all that it holds.
pub proof fn fetch_phase_has_a_full_model(value: FetchPhase)
    ensures
        match value {
            FetchPhase::RefreshFirst => value.deep_view() == PhaseModel::RefreshFirst,
            FetchPhase::FirstRequest => value.deep_view() == PhaseModel::FirstRequest,
            FetchPhase::RefreshAgain => value.deep_view() == PhaseModel::RefreshAgain,
            FetchPhase::SecondRequest => value.deep_view() == PhaseModel::SecondRequest,
            FetchPhase::Done(fetched) => value.deep_view()
                == PhaseModel::Done(fetched_view(fetched)),
        },
{
}

/// The model of `StatusJob` has all that it holds.
pub proof fn status_job_has_a_full_model(value: StatusJob)
    ensures
        value.deep_view().index == value.index as int,
        value.deep_view().entry == value.entry.deep_view(),
        value.deep_view().summary == value.summary.deep_view(),
        value.deep_view().email == value.email.deep_view(),
        value.deep_view().plan_type == value.plan_type,
{
}

/// The model of `StatusRound` has all that it holds.
pub proof fn status_round_has_a_full_model(value: StatusRound)
    ensures
        value.deep_view().saved == value.saved.deep_view(),
        value.deep_view().ordered == value.ordered.deep_view(),
        value.deep_view().statuses == value.statuses.deep_view(),
{
}

/// The model of `StatusRateLimitValue` has all that it holds.
pub proof fn status_rate_limit_value_has_a_full_model(value: StatusRateLimitValue)
    ensures
        match value {
            StatusRateLimitValue::Window { remaining, resets_at } => value.deep_view()
                == (ValueModel::Window { remaining: remaining@, resets_at: resets_at.deep_view(), }),
            StatusRateLimitValue::Text(text) => value.deep_view() == ValueModel::Text(text@),
        },
{
}

/// The model of `StatusRateLimitRow` has all that it holds.
pub proof fn status_rate_limit_row_has_a_full_model(value: StatusRateLimitRow)
    ensures
        value.deep_view().label == value.label@,
        value.deep_view().value == value.value.deep_view(),
{
}

/// The model of `StatusRateLimitData` has all that it holds.
pub proof fn status_rate_limit_data_has_a_full_model(value: StatusRateLimitData)
    ensures
        match value {
            StatusRateLimitData::Available(rows) => value.deep_view()
                == DataModel::Available(rows.deep_view()),
            StatusRateLimitData::Stale(rows) => value.deep_view()
                == DataModel::Stale(rows.deep_view()),
            StatusRateLimitData::Unavailable => value.deep_view() == DataModel::Unavailable,
            StatusRateLimitData::Missing => value.deep_view() == DataModel::Missing,
        },
{
}

/// The model of `ShownStatus` has all that it holds.
pub proof fn shown_status_has_a_full_model(value: ShownStatus)
    ensures
        value.deep_view().status == value.status.deep_view(),
        value.deep_view().plan_name == value.plan_name@,
        value.deep_view().limits == value.limits.deep_view(),
{
}

/// The model of `SavedAccountsState` has all that it holds.
pub proof fn saved_accounts_state_has_a_full_model(value: SavedAccountsState)
    ensures
        match value {
            SavedAccountsState::Hidden => value.deep_view() == StateModel::Hidden,
            SavedAccountsState::Loading => value.deep_view() == StateModel::Loading,
            SavedAccountsState::Failed(error) => value.deep_view() == StateModel::Failed(error@),
            SavedAccountsState::Loaded(accounts) => value.deep_view()
                == StateModel::Loaded(accounts.deep_view()),
        },
{
}

/// The model of `RenderedSavedAccount` has all that it holds.
pub proof fn rendered_saved_account_has_a_full_model<'a>(value: RenderedSavedAccount<'a>)
    ensures
        match value {
            RenderedSavedAccount::Message(message) => value.deep_view()
                == RenderedModel::Message(message@),
            RenderedSavedAccount::Account(account) => value.deep_view()
                == RenderedModel::Account(account.deep_view()),
        },
{
}

/// The model of `StatusLine` has all that it holds.
pub proof fn status_line_has_a_full_model(value: StatusLine)
    ensures
        value.deep_view().label == value.label.deep_view(),
        value.deep_view().text == value.text@,
{
}

/// The model of `SelectionAction` has all that it holds.
pub proof fn selection_action_has_a_full_model(value: SelectionAction)
    ensures
        match value {
            SelectionAction::OpenAccountActions { account_key } => value.deep_view()
                == (ActionModel::OpenAccountActions { account_key: account_key@ }),
            SelectionAction::SwitchAccount { account_key, label } => value.deep_view()
                == (ActionModel::SwitchAccount { account_key: account_key@, label: label@, }),
            SelectionAction::OpenRemoveConfirmation { account_key } => value.deep_view()
                == (ActionModel::OpenRemoveConfirmation { account_key: account_key@ }),
            SelectionAction::RemoveAccount { account_key } => value.deep_view()
                == (ActionModel::RemoveAccount { account_key: account_key@, }),
            SelectionAction::AddAccount => value.deep_view() == ActionModel::AddAccount,
        },
{
}

/// The model of `SelectionItem` has all that it holds.
pub proof fn selection_item_has_a_full_model(value: SelectionItem)
    ensures
        value.deep_view().name == value.name@,
        value.deep_view().description == value.description.deep_view(),
        value.deep_view().selected_description == value.selected_description.deep_view(),
        value.deep_view().is_current == value.is_current,
        value.deep_view().is_disabled == value.is_disabled,
        value.deep_view().disabled_reason == value.disabled_reason.deep_view(),
        value.deep_view().action == value.action.deep_view(),
        value.deep_view().dismiss_on_select == value.dismiss_on_select,
{
}

/// The model of `SelectionViewParams` has all that it holds.
pub proof fn selection_view_params_has_a_full_model(value: SelectionViewParams)
    ensures
        value.deep_view().view_id == value.view_id@,
        value.deep_view().title == value.title@,
        value.deep_view().subtitle == value.subtitle@,
        value.deep_view().has_footer_hint == value.has_footer_hint,
        value.deep_view().items == value.items.deep_view(),
        value.deep_view().initial_selected_idx == value.initial_selected_idx,
{
}

/// The model of `AccountsPopupStatusState` has all that it holds.
pub proof fn accounts_popup_status_state_has_a_full_model(value: AccountsPopupStatusState)
    ensures
        match value {
            AccountsPopupStatusState::Loading => value.deep_view() == PopupStateModel::Loading,
            AccountsPopupStatusState::Loaded => value.deep_view() == PopupStateModel::Loaded,
            AccountsPopupStatusState::Failed(error) => value.deep_view()
                == PopupStateModel::Failed(error@),
        },
{
}

/// The model of `PopupOutcome` has all that it holds.
pub proof fn popup_outcome_has_a_full_model(value: PopupOutcome)
    ensures
        match value {
            PopupOutcome::Show(params) => value.deep_view()
                == PopupOutcomeModel::Show(params.deep_view()),
            PopupOutcome::ErrorMessage(message) => value.deep_view()
                == PopupOutcomeModel::ErrorMessage(message@),
        },
{
}

/// The model of `AppEvent` has all that it holds.
pub proof fn app_event_has_a_full_model(value: AppEvent)
    ensures
        match value {
            AppEvent::Info(message) => value.deep_view() == EventModel::Info(message@),
            AppEvent::Error(message) => value.deep_view() == EventModel::Error(message@),
            AppEvent::DismissBottomPaneViews => value.deep_view()
                == EventModel::DismissBottomPaneViews,
            AppEvent::Exit => value.deep_view() == EventModel::Exit,
        },
{
}

/// The model of `RemoveSavedAccountResult` has all that it holds.
pub proof fn remove_saved_account_result_has_a_full_model(value: RemoveSavedAccountResult)
    ensures
        match value {
            RemoveSavedAccountResult::RemovedInactive { removed_label } => value.deep_view()
                == (RemoveResultModel::RemovedInactive { removed_label: removed_label@ }),
            RemoveSavedAccountResult::RemovedActiveSwitched { removed_label, replacement_label } =>
                value.deep_view() == (RemoveResultModel::RemovedActiveSwitched { removed_label: removed_label@, replacement_label: replacement_label@, }),
            RemoveSavedAccountResult::RemovedLastActive { removed_label } => value.deep_view()
                == (RemoveResultModel::RemovedLastActive { removed_label: removed_label@ }),
        },
{
}

/// The model of `UsageFetchError` has all that it holds.
pub proof fn usage_fetch_error_has_a_full_model(value: UsageFetchError)
    ensures
        match value {
            UsageFetchError::Unauthorized => value.deep_view() == UsageErrorModel::Unauthorized,
            UsageFetchError::Other(error) => value.deep_view() == UsageErrorModel::Other(error@),
        },
{
}

/// What an attempt came to, by its model, succeeds where it did and else has its
/// reason.
pub proof fn attempts_have_full_models(result: Result<(), String>)
    ensures
        match result {
            Ok(()) => attempt_view(result) is Ok,
            Err(error) => attempt_view(result) == Err::<(), Seq<char>>(error@),
        },
{
}

/// A result, by its model, has the model of its value or of its error.
pub proof fn results_have_full_models<T: DeepView, E: DeepView>(result: Result<T, E>)
    ensures
        match result {
            Ok(value) => result_view(result) == Ok::<T::V, E::V>(value.deep_view()),
            Err(error) => result_view(result) == Err::<T::V, E::V>(error.deep_view()),
        },
{
}

/// What serializing came to, by its model, has the bytes or the reason.
pub proof fn serialized_credentials_have_full_models(serialized: Result<Vec<u8>, String>)
    ensures
        match serialized {
            Ok(bytes) => serialized_view(serialized) == Ok::<Seq<u8>, Seq<char>>(bytes@),
            Err(error) => serialized_view(serialized) == Err::<Seq<u8>, Seq<char>>(error@),
        },
{
}

/// What a fetch came to, by its model, has the models of the snapshots or the
/// reason.
pub proof fn fetched_limits_have_full_models(fetched: Result<Vec<RateLimitSnapshot>, String>)
    ensures
        match fetched {
            Ok(snapshots) => fetched_view(fetched) is Ok && fetched_view(fetched)->Ok_0
                == snapshots.deep_view(),
            Err(error) => fetched_view(fetched) is Err && fetched_view(fetched)->Err_0 == error@,
        },
{
}

/// What a request for usage came to, by its model, has the snapshots of the
/// report or the model of the error.
pub proof fn requested_usage_has_a_full_model(
    usage: Result<RateLimitStatusPayload, UsageFetchError>,
)
    ensures
        match usage {
            Ok(payload) => usage_view(usage) is Ok && usage_view(usage)->Ok_0 == snapshots_of(
                payload,
            ),
            Err(error) => usage_view(usage) is Err && usage_view(usage)->Err_0 == error.deep_view(),
        },
{
}

/// An optional text, by its model, is there where the text is.
pub proof fn optional_texts_have_full_models(text: Option<&str>)
    ensures
        match text {
            Some(text_there) => optional_text(text) == Some(text_there@),
            None => optional_text(text) is None,
        },
{
}

} // verus!
