//! The popups in which saved accounts are listed, switched, removed and added,
//! and what their actions lead to.

use vstd::prelude::*;

use crate::auth::ApiAuthMode;
use crate::entry::AccountsModel;
use crate::error::attempt_view;
use crate::render::{
    account_detail, account_display_name, SavedAccountRateLimitSummaryMode, ShownStatus,
};
use crate::store::{
    has_key, removal_of, RemovalModel, RemoveSavedAccountResultInternal, SavedAccountSummary,
    SummaryModel,
};
use crate::text::{concat2, concat3, concat4, same_text};
use crate::time::Timestamp;

verus! {

/// The identifier of the accounts popup, by which it is found again.
pub const ACCOUNTS_POPUP_VIEW_ID: &'static str = "accounts-popup";

/// What choosing an item does.
#[derive(Debug, PartialEq, Eq)]
pub enum SelectionAction {
    /// Open the popup with the actions for an account.
    OpenAccountActions { account_key: String },
    /// Make an account the active one.
    SwitchAccount { account_key: String, label: String },
    /// Ask whether an account is to be removed.
    OpenRemoveConfirmation { account_key: String },
    /// Remove an account.
    RemoveAccount { account_key: String },
    /// Sign in with another account.
    AddAccount,
}

/// The model of `SelectionAction`.
pub enum ActionModel {
    OpenAccountActions { account_key: Seq<char> },
    SwitchAccount { account_key: Seq<char>, label: Seq<char> },
    OpenRemoveConfirmation { account_key: Seq<char> },
    RemoveAccount { account_key: Seq<char> },
    AddAccount,
}

impl DeepView for SelectionAction {
    type V = ActionModel;

    open spec fn deep_view(&self) -> ActionModel {
        match self {
            SelectionAction::OpenAccountActions { account_key } =>
                ActionModel::OpenAccountActions { account_key: account_key@ },
            SelectionAction::SwitchAccount { account_key, label } => ActionModel::SwitchAccount {
                account_key: account_key@,
                label: label@,
            },
            SelectionAction::OpenRemoveConfirmation { account_key } =>
                ActionModel::OpenRemoveConfirmation { account_key: account_key@ },
            SelectionAction::RemoveAccount { account_key } => ActionModel::RemoveAccount {
                account_key: account_key@,
            },
            SelectionAction::AddAccount => ActionModel::AddAccount,
        }
    }
}

/// An item of a popup.
#[derive(Debug, PartialEq, Eq)]
pub struct SelectionItem {
    pub name: String,
    pub description: Option<String>,
    pub selected_description: Option<String>,
    pub is_current: bool,
    pub is_disabled: bool,
    pub disabled_reason: Option<String>,
    pub action: Option<SelectionAction>,
    pub dismiss_on_select: bool,
}

/// The model of `SelectionItem`.
pub struct ItemModel {
    pub name: Seq<char>,
    pub description: Option<Seq<char>>,
    pub selected_description: Option<Seq<char>>,
    pub is_current: bool,
    pub is_disabled: bool,
    pub disabled_reason: Option<Seq<char>>,
    pub action: Option<ActionModel>,
    pub dismiss_on_select: bool,
}

impl DeepView for SelectionItem {
    type V = ItemModel;

    open spec fn deep_view(&self) -> ItemModel {
        ItemModel {
            name: self.name@,
            description: self.description.deep_view(),
            selected_description: self.selected_description.deep_view(),
            is_current: self.is_current,
            is_disabled: self.is_disabled,
            disabled_reason: self.disabled_reason.deep_view(),
            action: self.action.deep_view(),
            dismiss_on_select: self.dismiss_on_select,
        }
    }
}

/// An item with a name, a description and an action, and nothing else.
pub open spec fn plain_item(
    name: Seq<char>,
    description: Seq<char>,
    action: Option<ActionModel>,
    dismiss_on_select: bool,
) -> ItemModel {
    ItemModel {
        name,
        description: Some(description),
        selected_description: None,
        is_current: false,
        is_disabled: false,
        disabled_reason: None,
        action,
        dismiss_on_select,
    }
}

/// An item with a name, a description and an action, and nothing else.
fn make_item(
    name: String,
    description: &str,
    action: Option<SelectionAction>,
    dismiss_on_select: bool,
) -> (item: SelectionItem)
    ensures
        item.deep_view() == plain_item(
            name@,
            description@,
            action.deep_view(),
            dismiss_on_select,
        ),
{
    SelectionItem {
        name,
        description: Some(description.to_owned()),
        selected_description: None,
        is_current: false,
        is_disabled: false,
        disabled_reason: None,
        action,
        dismiss_on_select,
    }
}

/// A popup. `has_footer_hint` says whether the hint that all popups share, on
/// the keys that they take, stands at its foot.
#[derive(Debug, PartialEq, Eq)]
pub struct SelectionViewParams {
    pub view_id: String,
    pub title: String,
    pub subtitle: String,
    pub has_footer_hint: bool,
    pub items: Vec<SelectionItem>,
    pub initial_selected_idx: Option<usize>,
}

/// The model of `SelectionViewParams`.
pub struct ViewModel {
    pub view_id: Seq<char>,
    pub title: Seq<char>,
    pub subtitle: Seq<char>,
    pub has_footer_hint: bool,
    pub items: Seq<ItemModel>,
    pub initial_selected_idx: Option<usize>,
}

impl DeepView for SelectionViewParams {
    type V = ViewModel;

    open spec fn deep_view(&self) -> ViewModel {
        ViewModel {
            view_id: self.view_id@,
            title: self.title@,
            subtitle: self.subtitle@,
            has_footer_hint: self.has_footer_hint,
            items: self.items.deep_view(),
            initial_selected_idx: self.initial_selected_idx,
        }
    }
}

/// How far the statuses in the accounts popup have come.
#[derive(Debug, PartialEq, Eq)]
pub enum AccountsPopupStatusState {
    Loading,
    Loaded,
    Failed(String),
}

/// The model of `AccountsPopupStatusState`.
pub enum PopupStateModel {
    Loading,
    Loaded,
    Failed(Seq<char>),
}

impl DeepView for AccountsPopupStatusState {
    type V = PopupStateModel;

    open spec fn deep_view(&self) -> PopupStateModel {
        match self {
            AccountsPopupStatusState::Loading => PopupStateModel::Loading,
            AccountsPopupStatusState::Loaded => PopupStateModel::Loaded,
            AccountsPopupStatusState::Failed(error) => PopupStateModel::Failed(error@),
        }
    }
}

/// What a way of signing in is called.
pub open spec fn mode_label_of(auth_mode: ApiAuthMode) -> Seq<char> {
    match auth_mode {
        ApiAuthMode::ApiKey => "API key"@,
        ApiAuthMode::Chatgpt => "ChatGPT"@,
        ApiAuthMode::ChatgptAuthTokens => "ChatGPT (external)"@,
        ApiAuthMode::AgentIdentity => "Agent identity"@,
    }
}

/// What a way of signing in is called.
pub fn saved_account_mode_label(auth_mode: ApiAuthMode) -> (label: &'static str)
    ensures
        label@ == mode_label_of(auth_mode),
{
    match auth_mode {
        ApiAuthMode::ApiKey => "API key",
        ApiAuthMode::Chatgpt => "ChatGPT",
        ApiAuthMode::ChatgptAuthTokens => "ChatGPT (external)",
        ApiAuthMode::AgentIdentity => "Agent identity",
    }
}

/// An account that the accounts popup can list: with its status or without.
pub trait AccountsPopupAccount: Sized {
    /// What is shown of the account, by its model.
    spec fn summary_model(&self) -> SummaryModel;

    /// The words for the status of the account.
    spec fn description_model(&self, state: PopupStateModel) -> Seq<char>;

    /// The name of the account.
    spec fn name_model(&self) -> Seq<char>;

    /// What is shown of the account.
    fn summary(&self) -> (summary: &SavedAccountSummary)
        ensures
            summary.deep_view() == self.summary_model(),
    ;

    /// The words for the status of the account.
    fn status_description(&self, state: &AccountsPopupStatusState) -> (description: String)
        ensures
            description@ == self.description_model(state.deep_view()),
    ;

    /// The name of the account.
    fn display_name(&self) -> (name: String)
        ensures
            name@ == self.name_model(),
    ;
}

impl AccountsPopupAccount for SavedAccountSummary {
    open spec fn summary_model(&self) -> SummaryModel {
        self.deep_view()
    }

    open spec fn description_model(&self, state: PopupStateModel) -> Seq<char> {
        match state {
            PopupStateModel::Loading => "loading limits..."@,
            PopupStateModel::Loaded => mode_label_of(self.auth_mode),
            PopupStateModel::Failed(error) => "failed to load limits: "@ + error,
        }
    }

    open spec fn name_model(&self) -> Seq<char> {
        self.label@
    }

    fn summary(&self) -> (summary: &SavedAccountSummary) {
        self
    }

    fn status_description(&self, state: &AccountsPopupStatusState) -> (description: String) {
        match state {
            AccountsPopupStatusState::Loading => "loading limits...".to_owned(),
            AccountsPopupStatusState::Loaded => saved_account_mode_label(self.auth_mode).to_owned(),
            AccountsPopupStatusState::Failed(error) => concat2(
                "failed to load limits: ",
                error.as_str(),
            ),
        }
    }

    fn display_name(&self) -> (name: String) {
        self.label.clone()
    }
}

impl AccountsPopupAccount for ShownStatus {
    open spec fn summary_model(&self) -> SummaryModel {
        self.deep_view().status.summary
    }

    open spec fn description_model(&self, state: PopupStateModel) -> Seq<char> {
        self.deep_view().detail(SavedAccountRateLimitSummaryMode::WithResets)
    }

    open spec fn name_model(&self) -> Seq<char> {
        self.deep_view().name()
    }

    fn summary(&self) -> (summary: &SavedAccountSummary) {
        &self.status.summary
    }

    fn status_description(&self, _state: &AccountsPopupStatusState) -> (description: String) {
        account_detail(self, SavedAccountRateLimitSummaryMode::WithResets)
    }

    fn display_name(&self) -> (name: String) {
        account_display_name(self)
    }
}

/// The item for an account in the accounts popup.
pub open spec fn account_item_of(
    summary: SummaryModel,
    description: Seq<char>,
    name: Seq<char>,
) -> ItemModel {
    let detail = mode_label_of(summary.auth_mode) + " · "@ + description;
    ItemModel {
        name,
        description: Some(
            if summary.is_active {
                "Active · "@ + detail
            } else {
                detail
            },
        ),
        selected_description: if summary.is_active {
            Some("Currently active account · "@ + detail)
        } else {
            None
        },
        is_current: summary.is_active,
        is_disabled: false,
        disabled_reason: None,
        action: Some(ActionModel::OpenAccountActions { account_key: summary.key }),
        dismiss_on_select: false,
    }
}

/// The item for `account` in the accounts popup.
pub fn account_item<T: AccountsPopupAccount>(account: &T, state: &AccountsPopupStatusState) -> (item:
    SelectionItem)
    ensures
        item.deep_view() == account_item_of(
            account.summary_model(),
            account.description_model(state.deep_view()),
            account.name_model(),
        ),
{
    let summary: &SavedAccountSummary = account.summary();
    let mode_label: &'static str = saved_account_mode_label(summary.auth_mode);
    let status_description: String = account.status_description(state);
    let detail: String = concat3(mode_label, " · ", status_description.as_str());
    let description: String = if summary.is_active {
        concat2("Active · ", detail.as_str())
    } else {
        detail.clone()
    };
    let selected_description: Option<String> = if summary.is_active {
        Some(concat2("Currently active account · ", detail.as_str()))
    } else {
        None
    };
    SelectionItem {
        name: account.display_name(),
        description: Some(description),
        selected_description,
        is_current: summary.is_active,
        is_disabled: false,
        disabled_reason: None,
        action: Some(SelectionAction::OpenAccountActions { account_key: summary.key.clone() }),
        dismiss_on_select: false,
    }
}

/// The item that adds an account.
pub open spec fn add_account_item_model() -> ItemModel {
    plain_item(
        "Add account"@,
        "Sign in with another account in your browser"@,
        Some(ActionModel::AddAccount),
        true,
    )
}

/// The item that adds an account.
pub fn add_account_item() -> (item: SelectionItem)
    ensures
        item.deep_view() == add_account_item_model(),
{
    make_item(
        "Add account".to_owned(),
        "Sign in with another account in your browser",
        Some(SelectionAction::AddAccount),
        true,
    )
}

/// The accounts popup: an item for each account, then the one that adds one.
pub open spec fn accounts_view<T: AccountsPopupAccount>(
    accounts: Seq<T>,
    state: PopupStateModel,
    initial_selected_idx: Option<usize>,
) -> ViewModel {
    let items = accounts.map_values(
        |account: T|
            account_item_of(
                account.summary_model(),
                account.description_model(state),
                account.name_model(),
            ),
    );
    ViewModel {
        view_id: ACCOUNTS_POPUP_VIEW_ID@,
        title: "Accounts"@,
        subtitle: "Switch the active account, remove a saved login, or add another account"@,
        has_footer_hint: true,
        items: items.push(add_account_item_model()),
        initial_selected_idx,
    }
}

/// The accounts popup.
pub fn accounts_popup_params<T: AccountsPopupAccount>(
    saved_accounts: &Vec<T>,
    state: &AccountsPopupStatusState,
    initial_selected_idx: Option<usize>,
) -> (params: SelectionViewParams)
    ensures
        params.deep_view() == accounts_view(
            saved_accounts@,
            state.deep_view(),
            initial_selected_idx,
        ),
{
    let ghost wanted = accounts_view(saved_accounts@, state.deep_view(), initial_selected_idx);
    let mut items: Vec<SelectionItem> = Vec::new();
    let mut i: usize = 0;
    while i < saved_accounts.len()
        invariant
            wanted == accounts_view(saved_accounts@, state.deep_view(), initial_selected_idx),
            i <= saved_accounts.len(),
            items.len() == i,
            forall|j: int| 0 <= j < i ==> #[trigger] items.deep_view()[j] == wanted.items[j],
        decreases saved_accounts.len() - i,
    {
        let ghost before = items.deep_view();
        items.push(account_item(&saved_accounts[i], state));
        assert(forall|j: int| 0 <= j < i ==> #[trigger] items.deep_view()[j] == before[j]);
        i += 1;
    }
    let ghost listed = items.deep_view();
    items.push(add_account_item());
    assert(items.deep_view() =~= listed.push(add_account_item_model()));
    assert(items.deep_view() =~= wanted.items);
    SelectionViewParams {
        view_id: ACCOUNTS_POPUP_VIEW_ID.to_owned(),
        title: "Accounts".to_owned(),
        subtitle: "Switch the active account, remove a saved login, or add another account"
            .to_owned(),
        has_footer_hint: true,
        items,
        initial_selected_idx,
    }
}

/// What a request to open a popup leads to: the popup, or an error message.
#[derive(Debug, PartialEq, Eq)]
pub enum PopupOutcome {
    Show(SelectionViewParams),
    ErrorMessage(String),
}

/// The model of `PopupOutcome`.
pub enum PopupOutcomeModel {
    Show(ViewModel),
    ErrorMessage(Seq<char>),
}

impl DeepView for PopupOutcome {
    type V = PopupOutcomeModel;

    open spec fn deep_view(&self) -> PopupOutcomeModel {
        match self {
            PopupOutcome::Show(params) => PopupOutcomeModel::Show(params.deep_view()),
            PopupOutcome::ErrorMessage(message) => PopupOutcomeModel::ErrorMessage(message@),
        }
    }
}

/// The message where the saved accounts could not be loaded.
pub open spec fn load_failure(error: Seq<char>) -> PopupOutcomeModel {
    PopupOutcomeModel::ErrorMessage("Failed to load saved accounts: "@ + error)
}

/// The message where the saved accounts could not be loaded.
fn load_failed(error: &str) -> (outcome: PopupOutcome)
    ensures
        outcome.deep_view() == load_failure(error@),
{
    PopupOutcome::ErrorMessage(concat2("Failed to load saved accounts: ", error))
}

/// The accounts popup as it opens, and whether statuses are to be loaded for
/// it.
pub fn open_accounts_popup(loaded: Result<Vec<SavedAccountSummary>, String>) -> (opened: (
    PopupOutcome,
    bool,
))
    ensures
        match loaded {
            Ok(accounts) => opened.0.deep_view() == PopupOutcomeModel::Show(
                accounts_view(accounts@, PopupStateModel::Loading, None),
            ) && opened.1 == (accounts@.len() > 0),
            Err(error) => opened.0.deep_view() == load_failure(error@) && !opened.1,
        },
{
    match loaded {
        Ok(accounts) => {
            let should_load_statuses: bool = accounts.len() > 0;
            let params: SelectionViewParams = accounts_popup_params(
                &accounts,
                &AccountsPopupStatusState::Loading,
                None,
            );
            (PopupOutcome::Show(params), should_load_statuses)
        },
        Err(error) => (load_failed(error.as_str()), false),
    }
}

/// The accounts popup with the statuses that were loaded.
pub fn finish_accounts_popup_status_refresh(
    saved_accounts: &Vec<ShownStatus>,
    initial_selected_idx: Option<usize>,
) -> (params: SelectionViewParams)
    ensures
        params.deep_view() == accounts_view(
            saved_accounts@,
            PopupStateModel::Loaded,
            initial_selected_idx,
        ),
{
    accounts_popup_params(saved_accounts, &AccountsPopupStatusState::Loaded, initial_selected_idx)
}

/// The accounts popup where the statuses could not be loaded because of
/// `error`.
pub fn fail_accounts_popup_status_refresh(
    loaded: Result<Vec<SavedAccountSummary>, String>,
    error: String,
    initial_selected_idx: Option<usize>,
) -> (outcome: PopupOutcome)
    ensures
        outcome.deep_view() == match loaded {
            Ok(accounts) => PopupOutcomeModel::Show(
                accounts_view(accounts@, PopupStateModel::Failed(error@), initial_selected_idx),
            ),
            Err(load_error) => load_failure(load_error@),
        },
{
    match loaded {
        Ok(accounts) => PopupOutcome::Show(
            accounts_popup_params(
                &accounts,
                &AccountsPopupStatusState::Failed(error),
                initial_selected_idx,
            ),
        ),
        Err(load_error) => load_failed(load_error.as_str()),
    }
}

/// Whether the account at `i` is the first with this key.
pub open spec fn is_first_account(
    accounts: Seq<SavedAccountSummary>,
    key: Seq<char>,
    i: int,
) -> bool {
    &&& 0 <= i < accounts.len()
    &&& accounts[i].key@ == key
    &&& forall|j: int| 0 <= j < i ==> (#[trigger] accounts[j]).key@ != key
}

/// The first account with this key, if there is one.
pub open spec fn account_with_key(accounts: Seq<SavedAccountSummary>, key: Seq<char>) -> Option<
    SummaryModel,
> {
    if exists|i: int| is_first_account(accounts, key, i) {
        Some(accounts[choose|i: int| is_first_account(accounts, key, i)].deep_view())
    } else {
        None
    }
}

/// The first account with this key, if there is one.
fn find_account(accounts: Vec<SavedAccountSummary>, key: &str) -> (found: Option<
    SavedAccountSummary,
>)
    ensures
        found.deep_view() == account_with_key(accounts@, key@),
{
    let mut i: usize = 0;
    while i < accounts.len()
        invariant
            i <= accounts.len(),
            forall|j: int| 0 <= j < i ==> (#[trigger] accounts@[j]).key@ != key@,
        decreases accounts.len() - i,
    {
        if same_text(accounts[i].key.as_str(), key) {
            assert(is_first_account(accounts@, key@, i as int));
            let ghost first = choose|j: int| is_first_account(accounts@, key@, j);
            assert(is_first_account(accounts@, key@, first));
            return Some(accounts[i].clone());
        }
        i += 1;
    }
    None
}

/// The popup with the actions for an account.
pub open spec fn actions_view(account: SummaryModel) -> ViewModel {
    let switch = ItemModel {
        selected_description: if account.is_active {
            Some("This account is already active"@)
        } else {
            None
        },
        is_disabled: account.is_active,
        disabled_reason: if account.is_active {
            Some("Already active"@)
        } else {
            None
        },
        ..plain_item(
            "Switch to "@ + account.label,
            "Make this the active account"@,
            Some(
                ActionModel::SwitchAccount { account_key: account.key, label: account.label },
            ),
            true,
        )
    };
    let remove = plain_item(
        "Remove "@ + account.label,
        "Delete this saved login from /accounts"@,
        Some(ActionModel::OpenRemoveConfirmation { account_key: account.key }),
        false,
    );
    let back = plain_item("Back"@, "Return to the accounts list"@, None, true);
    ViewModel {
        view_id: "account-actions-popup"@,
        title: "Account"@,
        subtitle: account.label,
        has_footer_hint: true,
        items: seq![switch, remove, back],
        initial_selected_idx: Some(
            if account.is_active {
                1
            } else {
                0
            },
        ),
    }
}

/// The message where an account is gone.
pub open spec fn account_gone() -> PopupOutcomeModel {
    PopupOutcomeModel::ErrorMessage("Saved account no longer exists."@)
}

/// The popup with the actions for the account `account_key`.
pub fn open_account_actions_popup(
    loaded: Result<Vec<SavedAccountSummary>, String>,
    account_key: &str,
) -> (outcome: PopupOutcome)
    ensures
        outcome.deep_view() == match loaded {
            Ok(accounts) => match account_with_key(accounts@, account_key@) {
                Some(account) => PopupOutcomeModel::Show(actions_view(account)),
                None => account_gone(),
            },
            Err(error) => load_failure(error@),
        },
{
    let accounts: Vec<SavedAccountSummary> = match loaded {
        Ok(accounts) => accounts,
        Err(error) => {
            return load_failed(error.as_str());
        },
    };
    let account: SavedAccountSummary = match find_account(accounts, account_key) {
        Some(account) => account,
        None => {
            return PopupOutcome::ErrorMessage("Saved account no longer exists.".to_owned());
        },
    };
    let ghost view = actions_view(account.deep_view());
    let mut switch: SelectionItem = make_item(
        concat2("Switch to ", account.label.as_str()),
        "Make this the active account",
        Some(
            SelectionAction::SwitchAccount {
                account_key: account.key.clone(),
                label: account.label.clone(),
            },
        ),
        true,
    );
    if account.is_active {
        switch.selected_description = Some("This account is already active".to_owned());
        switch.is_disabled = true;
        switch.disabled_reason = Some("Already active".to_owned());
    }
    let remove: SelectionItem = make_item(
        concat2("Remove ", account.label.as_str()),
        "Delete this saved login from /accounts",
        Some(SelectionAction::OpenRemoveConfirmation { account_key: account.key.clone() }),
        false,
    );
    let back: SelectionItem = make_item(
        "Back".to_owned(),
        "Return to the accounts list",
        None,
        true,
    );
    let mut items: Vec<SelectionItem> = Vec::new();
    items.push(switch);
    items.push(remove);
    items.push(back);
    assert(items.deep_view() =~= view.items);
    PopupOutcome::Show(
        SelectionViewParams {
            view_id: "account-actions-popup".to_owned(),
            title: "Account".to_owned(),
            subtitle: account.label,
            has_footer_hint: true,
            items,
            initial_selected_idx: Some(
                if account.is_active {
                    1
                } else {
                    0
                },
            ),
        },
    )
}

/// The popup that asks whether an account is to be removed.
pub open spec fn confirmation_view(account: SummaryModel) -> ViewModel {
    let remove = plain_item(
        "Remove account"@,
        if account.is_active {
            "Remove this active account and restart Codex"@
        } else {
            "Remove this saved account"@
        },
        Some(ActionModel::RemoveAccount { account_key: account.key }),
        true,
    );
    let cancel = plain_item("Cancel"@, "Keep this saved account"@, None, true);
    ViewModel {
        view_id: "remove-account-confirmation-popup"@,
        title: "Remove account?"@,
        subtitle: account.label,
        has_footer_hint: true,
        items: seq![remove, cancel],
        initial_selected_idx: None,
    }
}

/// The popup that asks whether the account `account_key` is to be removed.
pub fn open_remove_account_confirmation(
    loaded: Result<Vec<SavedAccountSummary>, String>,
    account_key: &str,
) -> (outcome: PopupOutcome)
    ensures
        outcome.deep_view() == match loaded {
            Ok(accounts) => match account_with_key(accounts@, account_key@) {
                Some(account) => PopupOutcomeModel::Show(confirmation_view(account)),
                None => account_gone(),
            },
            Err(error) => load_failure(error@),
        },
{
    let accounts: Vec<SavedAccountSummary> = match loaded {
        Ok(accounts) => accounts,
        Err(error) => {
            return load_failed(error.as_str());
        },
    };
    let account: SavedAccountSummary = match find_account(accounts, account_key) {
        Some(account) => account,
        None => {
            return PopupOutcome::ErrorMessage("Saved account no longer exists.".to_owned());
        },
    };
    let ghost view = confirmation_view(account.deep_view());
    let remove: SelectionItem = make_item(
        "Remove account".to_owned(),
        if account.is_active {
            "Remove this active account and restart Codex"
        } else {
            "Remove this saved account"
        },
        Some(SelectionAction::RemoveAccount { account_key: account.key.clone() }),
        true,
    );
    let cancel: SelectionItem = make_item(
        "Cancel".to_owned(),
        "Keep this saved account",
        None,
        true,
    );
    let mut items: Vec<SelectionItem> = Vec::new();
    items.push(remove);
    items.push(cancel);
    assert(items.deep_view() =~= view.items);
    PopupOutcome::Show(
        SelectionViewParams {
            view_id: "remove-account-confirmation-popup".to_owned(),
            title: "Remove account?".to_owned(),
            subtitle: account.label,
            has_footer_hint: true,
            items,
            initial_selected_idx: None,
        },
    )
}

/// What an action asks of the application.
#[derive(Debug, PartialEq, Eq)]
pub enum AppEvent {
    /// Add a note to the history.
    Info(String),
    /// Add an error to the history.
    Error(String),
    /// Close the popups.
    DismissBottomPaneViews,
    /// Shut down, to be started again.
    Exit,
}

/// The model of `AppEvent`.
pub enum EventModel {
    Info(Seq<char>),
    Error(Seq<char>),
    DismissBottomPaneViews,
    Exit,
}

impl DeepView for AppEvent {
    type V = EventModel;

    open spec fn deep_view(&self) -> EventModel {
        match self {
            AppEvent::Info(message) => EventModel::Info(message@),
            AppEvent::Error(message) => EventModel::Error(message@),
            AppEvent::DismissBottomPaneViews => EventModel::DismissBottomPaneViews,
            AppEvent::Exit => EventModel::Exit,
        }
    }
}

/// One event.
fn one_event(event: AppEvent) -> (events: Vec<AppEvent>)
    ensures
        events.deep_view() == seq![event.deep_view()],
{
    let mut events: Vec<AppEvent> = Vec::new();
    events.push(event);
    assert(events.deep_view() =~= seq![event.deep_view()]);
    events
}

/// Two events.
fn two_events(first: AppEvent, second: AppEvent) -> (events: Vec<AppEvent>)
    ensures
        events.deep_view() == seq![first.deep_view(), second.deep_view()],
{
    let mut events: Vec<AppEvent> = Vec::new();
    events.push(first);
    events.push(second);
    assert(events.deep_view() =~= seq![first.deep_view(), second.deep_view()]);
    events
}

/// What follows an attempt to switch to the account with this label.
pub open spec fn switch_events_of(label: Seq<char>, result: Result<(), Seq<char>>) -> Seq<
    EventModel,
> {
    match result {
        Ok(()) => seq![
            EventModel::Info("Switched active account to "@ + label + ". Restarting Codex."@),
            EventModel::Exit,
        ],
        Err(error) => seq![
            EventModel::Error("Failed to switch account to "@ + label + ": "@ + error),
        ],
    }
}

/// What follows an attempt to switch to the account with this label.
pub fn switch_account_events(label: &str, result: Result<(), String>) -> (events: Vec<AppEvent>)
    ensures
        events.deep_view() == switch_events_of(label@, attempt_view(result)),
{
    match result {
        Ok(()) => two_events(
            AppEvent::Info(concat3("Switched active account to ", label, ". Restarting Codex.")),
            AppEvent::Exit,
        ),
        Err(error) => one_event(
            AppEvent::Error(concat4("Failed to switch account to ", label, ": ", error.as_str())),
        ),
    }
}

/// What removing an account came to.
#[derive(Debug, PartialEq, Eq)]
pub enum RemoveSavedAccountResult {
    RemovedInactive { removed_label: String },
    RemovedActiveSwitched { removed_label: String, replacement_label: String },
    RemovedLastActive { removed_label: String },
}

/// The model of `RemoveSavedAccountResult`.
pub enum RemoveResultModel {
    RemovedInactive { removed_label: Seq<char> },
    RemovedActiveSwitched { removed_label: Seq<char>, replacement_label: Seq<char> },
    RemovedLastActive { removed_label: Seq<char> },
}

impl DeepView for RemoveSavedAccountResult {
    type V = RemoveResultModel;

    open spec fn deep_view(&self) -> RemoveResultModel {
        match self {
            RemoveSavedAccountResult::RemovedInactive { removed_label } =>
                RemoveResultModel::RemovedInactive { removed_label: removed_label@ },
            RemoveSavedAccountResult::RemovedActiveSwitched { removed_label, replacement_label } =>
                RemoveResultModel::RemovedActiveSwitched {
                removed_label: removed_label@,
                replacement_label: replacement_label@,
            },
            RemoveSavedAccountResult::RemovedLastActive { removed_label } =>
                RemoveResultModel::RemovedLastActive { removed_label: removed_label@ },
        }
    }
}

/// What is reported of a removal: the labels of the accounts.
pub open spec fn report_of(removal: RemovalModel) -> RemoveResultModel {
    match removal {
        RemovalModel::Inactive { removed } => RemoveResultModel::RemovedInactive {
            removed_label: removed.label,
        },
        RemovalModel::ActiveSwitched { removed, replacement, .. } =>
            RemoveResultModel::RemovedActiveSwitched {
            removed_label: removed.label,
            replacement_label: replacement.label,
        },
        RemovalModel::LastActive { removed } => RemoveResultModel::RemovedLastActive {
            removed_label: removed.label,
        },
    }
}

/// What is reported of a removal: the labels of the accounts.
pub fn report_removal(removal: &RemoveSavedAccountResultInternal) -> (report:
    RemoveSavedAccountResult)
    ensures
        report.deep_view() == report_of(removal.deep_view()),
{
    match removal {
        RemoveSavedAccountResultInternal::Inactive { removed } =>
            RemoveSavedAccountResult::RemovedInactive { removed_label: removed.label.clone() },
        RemoveSavedAccountResultInternal::ActiveSwitched { removed, replacement, .. } =>
            RemoveSavedAccountResult::RemovedActiveSwitched {
            removed_label: removed.label.clone(),
            replacement_label: replacement.label.clone(),
        },
        RemoveSavedAccountResultInternal::LastActive { removed } =>
            RemoveSavedAccountResult::RemovedLastActive { removed_label: removed.label.clone() },
    }
}

/// What follows an attempt to remove an account.
pub open spec fn remove_events_of(result: Result<RemoveResultModel, Seq<char>>) -> Seq<EventModel> {
    match result {
        Ok(RemoveResultModel::RemovedInactive { removed_label }) => seq![
            EventModel::Info("Removed saved account "@ + removed_label + "."@),
            EventModel::DismissBottomPaneViews,
        ],
        Ok(RemoveResultModel::RemovedActiveSwitched { removed_label, replacement_label }) => seq![
            EventModel::Info(
                "Removed "@ + removed_label + ". Switched active account to "@ + replacement_label
                    + ". Restarting Codex."@,
            ),
            EventModel::Exit,
        ],
        Ok(RemoveResultModel::RemovedLastActive { removed_label }) => seq![
            EventModel::Info(
                "Removed "@ + removed_label
                    + ". No saved accounts remain. Logging out and restarting Codex."@,
            ),
            EventModel::Exit,
        ],
        Err(error) => seq![EventModel::Error("Failed to remove saved account: "@ + error)],
    }
}

/// What follows an attempt to remove an account.
pub fn remove_account_events(result: Result<RemoveSavedAccountResult, String>) -> (events: Vec<
    AppEvent,
>)
    ensures
        events.deep_view() == remove_events_of(
            match result {
                Ok(removed) => Ok(removed.deep_view()),
                Err(error) => Err(error@),
            },
        ),
{
    match result {
        Ok(RemoveSavedAccountResult::RemovedInactive { removed_label }) => two_events(
            AppEvent::Info(concat3("Removed saved account ", removed_label.as_str(), ".")),
            AppEvent::DismissBottomPaneViews,
        ),
        Ok(
            RemoveSavedAccountResult::RemovedActiveSwitched { removed_label, replacement_label },
        ) => {
            let mut message: String = concat4(
                "Removed ",
                removed_label.as_str(),
                ". Switched active account to ",
                replacement_label.as_str(),
            );
            message.append(". Restarting Codex.");
            two_events(AppEvent::Info(message), AppEvent::Exit)
        },
        Ok(RemoveSavedAccountResult::RemovedLastActive { removed_label }) => two_events(
            AppEvent::Info(
                concat3(
                    "Removed ",
                    removed_label.as_str(),
                    ". No saved accounts remain. Logging out and restarting Codex.",
                ),
            ),
            AppEvent::Exit,
        ),
        Err(error) => one_event(
            AppEvent::Error(concat2("Failed to remove saved account: ", error.as_str())),
        ),
    }
}

/// The way of signing in that the configuration prescribes.
#[derive(Debug, Clone, Copy, PartialEq, Eq, Structural)]
pub enum ForcedLoginMethod {
    Chatgpt,
    Api,
}

/// What choosing to add an account leads to at first, and whether the browser
/// login is to be run. It is not where API keys are prescribed.
pub fn begin_add_account(forced_login_method: Option<ForcedLoginMethod>) -> (begun: (
    Vec<AppEvent>,
    bool,
))
    ensures
        begun.1 == (forced_login_method != Some(ForcedLoginMethod::Api)),
        begun.0.deep_view() == if begun.1 {
            seq![EventModel::Info("Opening browser login to add another account..."@)]
        } else {
            seq![
                EventModel::Error(
                    "This environment requires API key login. Use `printenv OPENAI_API_KEY | codex login --with-api-key` in a terminal."@,
                ),
            ]
        },
{
    match forced_login_method {
        Some(ForcedLoginMethod::Api) => (
            one_event(
                AppEvent::Error(
                    "This environment requires API key login. Use `printenv OPENAI_API_KEY | codex login --with-api-key` in a terminal.".to_owned(),
                ),
            ),
            false,
        ),
        _ => (
            one_event(
                AppEvent::Info("Opening browser login to add another account...".to_owned()),
            ),
            true,
        ),
    }
}

/// What follows the browser login.
pub open spec fn add_events_of(result: Result<(), Seq<char>>) -> Seq<EventModel> {
    match result {
        Ok(()) => seq![
            EventModel::Info(
                "Account login complete. The new account is now active. Restarting Codex."@,
            ),
            EventModel::Exit,
        ],
        Err(error) => seq![EventModel::Error("Account login failed: "@ + error)],
    }
}

/// What follows the browser login.
pub fn finish_add_account(result: Result<(), String>) -> (events: Vec<AppEvent>)
    ensures
        events.deep_view() == add_events_of(attempt_view(result)),
{
    match result {
        Ok(()) => two_events(
            AppEvent::Info(
                "Account login complete. The new account is now active. Restarting Codex."
                    .to_owned(),
            ),
            AppEvent::Exit,
        ),
        Err(error) => one_event(
            AppEvent::Error(concat2("Account login failed: ", error.as_str())),
        ),
    }
}

/// The accounts popup has an item for each account, marked as current where the
/// account is active, which opens the actions for it; the item that adds an
/// account comes last.
pub proof fn the_popup_lists_every_account<T: AccountsPopupAccount>(
    accounts: Seq<T>,
    state: PopupStateModel,
    initial_selected_idx: Option<usize>,
    i: int,
)
    requires
        0 <= i < accounts.len(),
    ensures
        ({
            let items = accounts_view(accounts, state, initial_selected_idx).items;
            let summary = accounts[i].summary_model();
            &&& items.len() == accounts.len() + 1
            &&& items.last() == add_account_item_model()
            &&& items[i].name == accounts[i].name_model()
            &&& items[i].is_current == summary.is_active
            &&& items[i].action == Some(
                ActionModel::OpenAccountActions { account_key: summary.key },
            )
        }),
{
}

/// In the popup for an account, switching is disabled where the account is
/// active already, and the item that is selected at first is never a disabled
/// one.
pub proof fn no_disabled_action_is_selected_at_first(account: SummaryModel)
    ensures
        ({
            let view = actions_view(account);
            &&& view.items[0].is_disabled == account.is_active
            &&& view.initial_selected_idx matches Some(selected)
            &&& selected < view.items.len()
            &&& !view.items[selected as int].is_disabled
        }),
{
}

/// After a removal the application is restarted where the removed account was
/// the active one, and the popups are closed where it was not. A removal that
/// failed does neither.
pub proof fn only_removing_the_active_account_restarts(
    result: Result<RemoveResultModel, Seq<char>>,
)
    ensures
        remove_events_of(result).contains(EventModel::Exit) <==> result is Ok && !(
        result->Ok_0 is RemovedInactive),
        remove_events_of(result).contains(EventModel::DismissBottomPaneViews) <==> result is Ok
            && result->Ok_0 is RemovedInactive,
{
    let events = remove_events_of(result);
    if result is Ok {
        assert(events[1] == EventModel::Exit || events[1] == EventModel::DismissBottomPaneViews);
        assert(events[0] is Info);
    } else {
        assert(events[0] is Error);
    }
}

/// After a switch the application is restarted if, and only if, the switch
/// succeeded.
pub proof fn only_a_switch_that_succeeded_restarts(
    label: Seq<char>,
    result: Result<(), Seq<char>>,
)
    ensures
        switch_events_of(label, result).contains(EventModel::Exit) <==> result is Ok,
{
    let events = switch_events_of(label, result);
    if result is Ok {
        assert(events[1] == EventModel::Exit);
    } else {
        assert(events[0] is Error);
    }
}

/// Removing a saved account restarts the application if, and only if, it was
/// the active one.
pub proof fn a_removal_restarts_where_the_account_was_active(
    saved: AccountsModel,
    key: Seq<char>,
    now: Timestamp,
)
    requires
        has_key(saved.accounts, key),
    ensures
        remove_events_of(Ok(report_of(removal_of(saved, key, now)))).contains(EventModel::Exit)
            <==> saved.active == Some(key),
{
    only_removing_the_active_account_restarts(Ok(report_of(removal_of(saved, key, now))));
}

/// An account is listed by its name, with how it signs in and its status. The
/// active account is marked as such, in the description, in the description
/// when selected, and as current; no other account is. No account is disabled,
/// and choosing one opens the actions for it and keeps the popup open.
pub proof fn accounts_are_listed_as_they_are(
    summary: SummaryModel,
    description: Seq<char>,
    name: Seq<char>,
)
    ensures
        ({
            let item = account_item_of(summary, description, name);
            let detail = mode_label_of(summary.auth_mode) + " · "@ + description;
            &&& item.name == name
            &&& item.is_current <==> summary.is_active
            &&& summary.is_active ==> item.description == Some("Active · "@ + detail)
                && item.selected_description == Some("Currently active account · "@ + detail)
            &&& !summary.is_active ==> item.description == Some(detail)
                && item.selected_description is None
            &&& !item.is_disabled
            &&& item.disabled_reason is None
            &&& item.action == Some(ActionModel::OpenAccountActions { account_key: summary.key })
            &&& !item.dismiss_on_select
        }),
{
}

/// The accounts popup lists each account with its own words, keeps the
/// selection that it is given, and offers to add an account last, which closes
/// the popup.
pub proof fn the_popup_lists_accounts_in_their_words<T: AccountsPopupAccount>(
    accounts: Seq<T>,
    state: PopupStateModel,
    initial_selected_idx: Option<usize>,
    i: int,
)
    ensures
        ({
            let view = accounts_view(accounts, state, initial_selected_idx);
            let add = view.items[accounts.len() as int];
            &&& view.view_id == ACCOUNTS_POPUP_VIEW_ID@
            &&& view.title == "Accounts"@
            &&& view.subtitle
                == "Switch the active account, remove a saved login, or add another account"@
            &&& view.has_footer_hint
            &&& view.initial_selected_idx == initial_selected_idx
            &&& view.items.len() == accounts.len() + 1
            &&& 0 <= i < accounts.len() ==> view.items[i] == account_item_of(
                accounts[i].summary_model(),
                accounts[i].description_model(state),
                accounts[i].name_model(),
            )
            &&& add.name == "Add account"@
            &&& add.description == Some("Sign in with another account in your browser"@)
            &&& add.selected_description is None
            &&& add.disabled_reason is None
            &&& add.action == Some(ActionModel::AddAccount)
            &&& !add.is_disabled
            &&& !add.is_current
            &&& add.dismiss_on_select
        }),
{
}

/// Without statuses, an account is listed by its label and by how far the
/// statuses have come.
pub proof fn accounts_without_status_tell_how_far_it_is(
    account: SavedAccountSummary,
    error: Seq<char>,
)
    ensures
        account.summary_model() == account.deep_view(),
        account.name_model() == account.label@,
        account.description_model(PopupStateModel::Loading) == "loading limits..."@,
        account.description_model(PopupStateModel::Loaded) == mode_label_of(account.auth_mode),
        account.description_model(PopupStateModel::Failed(error)) == "failed to load limits: "@
            + error,
{
}

/// With statuses, an account is listed by its name and its rate limits, and by
/// when these start again, however far the other statuses have come.
pub proof fn accounts_with_status_tell_their_limits(account: ShownStatus, state: PopupStateModel)
    ensures
        account.summary_model() == account.status.summary.deep_view(),
        account.name_model() == account.deep_view().name(),
        account.description_model(state) == account.deep_view().detail(
            SavedAccountRateLimitSummaryMode::WithResets,
        ),
{
}

/// No two ways of signing in are called the same.
pub proof fn ways_of_signing_in_are_told_apart(a: ApiAuthMode, b: ApiAuthMode)
    ensures
        mode_label_of(a) == mode_label_of(b) <==> a == b,
{
    reveal_strlit("API key");
    reveal_strlit("ChatGPT");
    reveal_strlit("ChatGPT (external)");
    reveal_strlit("Agent identity");
    assert("API key"@[1] == 'P');
    assert("Agent identity"@[1] == 'g');
    assert("ChatGPT"@[1] == 'h' && "ChatGPT"@.len() == 7);
    assert("ChatGPT (external)"@[1] == 'h' && "ChatGPT (external)"@.len() == 18);
}

/// The account with a key is the first that has it, as it is, and there is none
/// if no account has it.
pub proof fn the_account_with_a_key_is_found(
    accounts: Seq<SavedAccountSummary>,
    key: Seq<char>,
    i: int,
)
    ensures
        0 <= i < accounts.len() && accounts[i].key@ == key && (forall|j: int|
            0 <= j < i ==> (#[trigger] accounts[j]).key@ != key) ==> account_with_key(accounts, key)
            == Some(accounts[i].deep_view()),
        (forall|j: int| 0 <= j < accounts.len() ==> (#[trigger] accounts[j]).key@ != key)
            ==> account_with_key(accounts, key) is None,
{
    if is_first_account(accounts, key, i) {
        let first = choose|j: int| is_first_account(accounts, key, j);
        assert(is_first_account(accounts, key, first));
        if first < i {
            assert(accounts[first].key@ != key);
        } else if i < first {
            assert(accounts[i].key@ != key);
        }
    }
}

/// The popup for an account can switch to it, remove it, or go back. Only the
/// first of these switches, and it is disabled for the account that is active
/// already; only the second leads to a removal, and it asks first; the last
/// does nothing but close.
pub proof fn the_actions_are_for_the_account(account: SummaryModel)
    ensures
        ({
            let view = actions_view(account);
            let switch = view.items[0];
            let remove = view.items[1];
            let back = view.items[2];
            &&& view.view_id == "account-actions-popup"@
            &&& view.title == "Account"@
            &&& view.subtitle == account.label
            &&& view.has_footer_hint
            &&& view.items.len() == 3
            &&& switch.name == "Switch to "@ + account.label
            &&& switch.action == Some(
                ActionModel::SwitchAccount { account_key: account.key, label: account.label },
            )
            &&& switch.is_disabled <==> account.is_active
            &&& account.is_active ==> switch.disabled_reason == Some("Already active"@)
                && switch.selected_description == Some("This account is already active"@)
            &&& !account.is_active ==> switch.disabled_reason is None
                && switch.selected_description is None
            &&& switch.description == Some("Make this the active account"@)
            &&& !switch.is_current
            &&& switch.dismiss_on_select
            &&& remove.name == "Remove "@ + account.label
            &&& remove.action == Some(
                ActionModel::OpenRemoveConfirmation { account_key: account.key },
            )
            &&& remove.description == Some("Delete this saved login from /accounts"@)
            &&& remove.selected_description is None
            &&& remove.disabled_reason is None
            &&& !remove.is_disabled
            &&& !remove.is_current
            &&& !remove.dismiss_on_select
            &&& back.name == "Back"@
            &&& back.description == Some("Return to the accounts list"@)
            &&& back.selected_description is None
            &&& back.disabled_reason is None
            &&& back.action is None
            &&& !back.is_disabled
            &&& !back.is_current
            &&& back.dismiss_on_select
            &&& view.initial_selected_idx == Some(
                if account.is_active {
                    1usize
                } else {
                    0usize
                },
            )
        }),
{
}

/// In the confirmation for an account, exactly one item has an action: the one
/// that removes that account. The one that cancels has none. Either closes the
/// popup.
pub proof fn only_confirming_removes(account: SummaryModel, i: int)
    ensures
        ({
            let view = confirmation_view(account);
            let remove = view.items[0];
            let cancel = view.items[1];
            &&& view.view_id == "remove-account-confirmation-popup"@
            &&& view.title == "Remove account?"@
            &&& view.subtitle == account.label
            &&& view.has_footer_hint
            &&& view.initial_selected_idx is None
            &&& view.items.len() == 2
            &&& remove.name == "Remove account"@
            &&& remove.action == Some(ActionModel::RemoveAccount { account_key: account.key })
            &&& account.is_active ==> remove.description == Some(
                "Remove this active account and restart Codex"@,
            )
            &&& !account.is_active ==> remove.description == Some("Remove this saved account"@)
            &&& cancel.name == "Cancel"@
            &&& cancel.action is None
            &&& cancel.description == Some("Keep this saved account"@)
            &&& 0 <= i < view.items.len() ==> {
                &&& view.items[i].action is Some <==> view.items[i] == remove
                &&& view.items[i].selected_description is None
                &&& view.items[i].disabled_reason is None
                &&& !view.items[i].is_disabled
                &&& !view.items[i].is_current
                &&& view.items[i].dismiss_on_select
            }
        }),
{
}

/// A popup that needs the saved accounts says why they could not be loaded, and
/// one for an account that is gone says that.
pub proof fn popups_say_what_went_wrong(error: Seq<char>)
    ensures
        load_failure(error) == PopupOutcomeModel::ErrorMessage(
            "Failed to load saved accounts: "@ + error,
        ),
        account_gone() == PopupOutcomeModel::ErrorMessage("Saved account no longer exists."@),
{
}

/// A switch that succeeded is noted with the label of the account, and then the
/// application restarts. One that failed is reported with label and reason, and
/// nothing else happens.
pub proof fn switches_are_noted(label: Seq<char>, result: Result<(), Seq<char>>)
    ensures
        match result {
            Ok(()) => {
                &&& switch_events_of(label, result).len() == 2
                &&& switch_events_of(label, result)[0] == EventModel::Info(
                    "Switched active account to "@ + label + ". Restarting Codex."@,
                )
                &&& switch_events_of(label, result)[1] == EventModel::Exit
            },
            Err(reason) => {
                &&& switch_events_of(label, result).len() == 1
                &&& switch_events_of(label, result)[0] == EventModel::Error(
                    "Failed to switch account to "@ + label + ": "@ + reason,
                )
            },
        },
{
}

/// A removal is noted with the label of the account, and with that of its
/// successor where there is one. Then the popups close, or the application
/// restarts. One that failed is reported with its reason, and nothing else
/// happens.
pub proof fn removals_are_noted(result: Result<RemoveResultModel, Seq<char>>)
    ensures
        ({
            let events = remove_events_of(result);
            match result {
                Ok(RemoveResultModel::RemovedInactive { removed_label }) => {
                    &&& events.len() == 2
                    &&& events[0] == EventModel::Info(
                        "Removed saved account "@ + removed_label + "."@,
                    )
                    &&& events[1] == EventModel::DismissBottomPaneViews
                },
                Ok(RemoveResultModel::RemovedActiveSwitched { removed_label, replacement_label }) => {
                    &&& events.len() == 2
                    &&& events[0] == EventModel::Info(
                        "Removed "@ + removed_label + ". Switched active account to "@
                            + replacement_label + ". Restarting Codex."@,
                    )
                    &&& events[1] == EventModel::Exit
                },
                Ok(RemoveResultModel::RemovedLastActive { removed_label }) => {
                    &&& events.len() == 2
                    &&& events[0] == EventModel::Info(
                        "Removed "@ + removed_label
                            + ". No saved accounts remain. Logging out and restarting Codex."@,
                    )
                    &&& events[1] == EventModel::Exit
                },
                Err(reason) => {
                    &&& events.len() == 1
                    &&& events[0] == EventModel::Error(
                        "Failed to remove saved account: "@ + reason,
                    )
                },
            }
        }),
{
}

/// A removal is reported as what it was, with the labels of the accounts.
pub proof fn removals_are_reported_by_label(removal: RemovalModel)
    ensures
        match (removal, report_of(removal)) {
            (
                RemovalModel::Inactive { removed },
                RemoveResultModel::RemovedInactive { removed_label },
            ) => removed_label == removed.label,
            (
                RemovalModel::ActiveSwitched { removed, replacement, .. },
                RemoveResultModel::RemovedActiveSwitched { removed_label, replacement_label },
            ) => removed_label == removed.label && replacement_label == replacement.label,
            (
                RemovalModel::LastActive { removed },
                RemoveResultModel::RemovedLastActive { removed_label },
            ) => removed_label == removed.label,
            _ => false,
        },
{
}

/// A login that succeeded is noted, and then the application restarts. One that
/// failed is reported with its reason, and nothing else happens.
pub proof fn logins_are_noted(result: Result<(), Seq<char>>)
    ensures
        match result {
            Ok(()) => {
                &&& add_events_of(result).len() == 2
                &&& add_events_of(result)[0] == EventModel::Info(
                    "Account login complete. The new account is now active. Restarting Codex."@,
                )
                &&& add_events_of(result)[1] == EventModel::Exit
            },
            Err(reason) => {
                &&& add_events_of(result).len() == 1
                &&& add_events_of(result)[0] == EventModel::Error("Account login failed: "@ + reason)
            },
        },
{
}

} // verus!
