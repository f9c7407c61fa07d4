use saved_accounts::auth::{
    AccountPlanType, ApiAuthMode, AuthDotJson, IdTokenInfo, InternalKnownPlan, InternalPlanType,
    TokenData,
};
use saved_accounts::entry::{SavedAccountEntry, SavedAccountsFile};
use saved_accounts::error::AccountsError;
use saved_accounts::limits::{RateLimitSnapshot, RateLimitWindow};
use saved_accounts::popup::{
    account_item, begin_add_account, fail_accounts_popup_status_refresh, finish_add_account,
    finish_accounts_popup_status_refresh, open_account_actions_popup, open_accounts_popup,
    open_remove_account_confirmation, remove_account_events, report_removal,
    saved_account_mode_label, switch_account_events, AccountsPopupStatusState, AppEvent,
    ForcedLoginMethod, PopupOutcome, SelectionAction, SelectionViewParams, ACCOUNTS_POPUP_VIEW_ID,
};
use saved_accounts::render::{
    account_display_name, append_lines, collect_saved_account_labels, limit_label,
    render_rate_limit_rows, render_rate_limit_summary, render_saved_account,
    render_saved_account_lines, renderable_accounts, SavedAccountRateLimitSummaryMode,
    SavedAccountsState, ShownStatus, StatusLine, StatusRateLimitData, StatusRateLimitRow,
    StatusRateLimitValue,
};
use saved_accounts::round::{list_saved_account_statuses, saved_account_status_timeout_secs};
use saved_accounts::status::{
    fetch_saved_chatgpt_status, FetchedSavedAccountStatus, SavedAccountRateLimits,
    SavedAccountStatus,
};
use saved_accounts::store::{
    list_saved_accounts, remove_saved_account, upsert_saved_account, SavedAccountSummary,
};
use saved_accounts::time::Timestamp;

fn at(secs: i64) -> Timestamp {
    Timestamp { secs, nanos: 0 }
}

fn api_key_auth(api_key: &str) -> AuthDotJson {
    AuthDotJson {
        auth_mode: Some(ApiAuthMode::ApiKey),
        openai_api_key: Some(api_key.to_string()),
        tokens: None,
        last_refresh: None,
        agent_identity: None,
    }
}

fn chatgpt_auth(account_id: &str) -> AuthDotJson {
    AuthDotJson {
        auth_mode: Some(ApiAuthMode::Chatgpt),
        openai_api_key: None,
        tokens: Some(TokenData {
            id_token: IdTokenInfo {
                email: Some(format!("{account_id}@example.com")),
                chatgpt_plan_type: Some(InternalPlanType::Known(InternalKnownPlan::Plus)),
                chatgpt_user_id: None,
                chatgpt_account_id: None,
                chatgpt_account_is_fedramp: false,
                raw_jwt: String::new(),
            },
            access_token: "access".to_string(),
            refresh_token: "refresh".to_string(),
            account_id: Some(account_id.to_string()),
        }),
        last_refresh: None,
        agent_identity: None,
    }
}

fn save(saved: &mut SavedAccountsFile, auth: &AuthDotJson, secs: i64) {
    upsert_saved_account(saved, auth, &Ok(Vec::new()), at(secs)).expect("save auth");
}

fn saved_status(
    key: &str,
    label: &str,
    auth_mode: ApiAuthMode,
    is_active: bool,
    email: Option<&str>,
    plan: Option<(AccountPlanType, &str)>,
    rate_limits: SavedAccountRateLimits,
    limits: StatusRateLimitData,
) -> ShownStatus {
    ShownStatus {
        status: SavedAccountStatus {
            summary: SavedAccountSummary {
                key: key.to_string(),
                label: label.to_string(),
                auth_mode,
                is_active,
            },
            email: email.map(str::to_string),
            plan_type: plan.map(|(plan_type, _)| plan_type),
            rate_limits,
        },
        plan_name: plan.map_or(String::new(), |(_, name)| name.to_string()),
        limits,
    }
}

fn row(label: &str, remaining: &str, resets_at: Option<&str>) -> StatusRateLimitRow {
    StatusRateLimitRow {
        label: label.to_string(),
        value: StatusRateLimitValue::Window {
            remaining: remaining.to_string(),
            resets_at: resets_at.map(str::to_string),
        },
    }
}

fn text_row(label: &str, text: &str) -> StatusRateLimitRow {
    StatusRateLimitRow {
        label: label.to_string(),
        value: StatusRateLimitValue::Text(text.to_string()),
    }
}

fn rate_limit_snapshot(primary_percent: i32, secondary_percent: i32) -> RateLimitSnapshot {
    RateLimitSnapshot {
        limit_id: Some("codex".to_string()),
        limit_name: None,
        primary: Some(RateLimitWindow {
            used_percent: primary_percent,
            window_minutes: Some(300),
            resets_at: None,
        }),
        secondary: Some(RateLimitWindow {
            used_percent: secondary_percent,
            window_minutes: Some(10_080),
            resets_at: None,
        }),
        credits: None,
        plan_type: Some(AccountPlanType::Pro),
        rate_limit_reached_type: None,
    }
}

fn shown_accounts() -> Vec<ShownStatus> {
    vec![
        saved_status(
            "chatgpt:active",
            "active@example.com",
            ApiAuthMode::Chatgpt,
            true,
            Some("active@example.com"),
            Some((AccountPlanType::Pro, "Pro")),
            SavedAccountRateLimits::Available(vec![rate_limit_snapshot(25, 80)]),
            StatusRateLimitData::Available(vec![
                row("5h limit", "75% left", None),
                row("Weekly limit", "20% left", None),
            ]),
        ),
        saved_status(
            "chatgpt:other",
            "other@example.com",
            ApiAuthMode::Chatgpt,
            false,
            Some("other@example.com"),
            Some((AccountPlanType::Plus, "Plus")),
            SavedAccountRateLimits::Available(vec![rate_limit_snapshot(60, 10)]),
            StatusRateLimitData::Available(vec![
                row("5h limit", "40% left", None),
                row("Weekly limit", "90% left", None),
            ]),
        ),
        saved_status(
            "api:key",
            "API key (...1111)",
            ApiAuthMode::ApiKey,
            false,
            None,
            None,
            SavedAccountRateLimits::Unsupported {
                reason: "limits unavailable for API key auth".to_string(),
            },
            StatusRateLimitData::Missing,
        ),
        saved_status(
            "chatgpt:expired",
            "expired@example.com",
            ApiAuthMode::Chatgpt,
            false,
            Some("expired@example.com"),
            Some((AccountPlanType::Pro, "Pro")),
            SavedAccountRateLimits::Unavailable {
                error: "credentials expired".to_string(),
            },
            StatusRateLimitData::Missing,
        ),
    ]
}

fn shown(outcome: PopupOutcome) -> SelectionViewParams {
    match outcome {
        PopupOutcome::Show(params) => params,
        PopupOutcome::ErrorMessage(message) => panic!("unexpected message: {message}"),
    }
}

fn names(params: &SelectionViewParams) -> Vec<String> {
    params.items.iter().map(|item| item.name.clone()).collect()
}

fn descriptions(params: &SelectionViewParams) -> Vec<String> {
    params.items.iter().filter_map(|item| item.description.clone()).collect()
}

#[test]
fn accounts_popup_snapshot() {
    let mut saved = SavedAccountsFile::default();
    save(&mut saved, &api_key_auth("sk-test-key-1111"), 1);
    save(&mut saved, &api_key_auth("sk-test-key-2222"), 2);
    let (outcome, load_statuses) = open_accounts_popup(Ok(list_saved_accounts(&saved)));
    assert!(load_statuses);
    let popup = shown(outcome);
    assert_eq!(popup.view_id, "accounts-popup");
    assert_eq!(popup.view_id, ACCOUNTS_POPUP_VIEW_ID);
    assert_eq!(popup.title, "Accounts");
    assert!(popup.has_footer_hint);
    assert_eq!(
        popup.subtitle,
        "Switch the active account, remove a saved login, or add another account"
    );
    assert_eq!(names(&popup), vec!["API key (...2222)", "API key (...1111)", "Add account"]);
    assert_eq!(
        descriptions(&popup),
        vec![
            "Active · API key · loading limits...",
            "API key · loading limits...",
            "Sign in with another account in your browser",
        ]
    );
    assert_eq!(
        popup.items[0].selected_description,
        Some("Currently active account · API key · loading limits...".to_string())
    );
    assert!(popup.items[0].is_current);
    assert!(!popup.items[1].is_current);
    assert_eq!(popup.items[2].action, Some(SelectionAction::AddAccount));
    assert_eq!(popup.initial_selected_idx, None);
}

#[test]
fn accounts_popup_loaded_status_snapshot() {
    let popup = finish_accounts_popup_status_refresh(&shown_accounts(), None);
    assert_eq!(
        names(&popup),
        vec![
            "active@example.com (Pro)",
            "other@example.com (Plus)",
            "API key (...1111)",
            "expired@example.com (Pro)",
            "Add account",
        ]
    );
    assert_eq!(
        descriptions(&popup),
        vec![
            "Active · ChatGPT · 5h limit 75% left · weekly limit 20% left",
            "ChatGPT · 5h limit 40% left · weekly limit 90% left",
            "API key · limits unavailable for API key auth",
            "ChatGPT · failed to load limits: credentials expired",
            "Sign in with another account in your browser",
        ]
    );
    assert_eq!(popup.initial_selected_idx, None);
    let selected = finish_accounts_popup_status_refresh(&shown_accounts(), Some(2));
    assert_eq!(selected.initial_selected_idx, Some(2));
}

#[test]
fn the_popup_says_when_limits_start_again() {
    let mut accounts = shown_accounts();
    accounts[1].limits =
        StatusRateLimitData::Stale(vec![row("5h limit", "40% left", Some("11:00"))]);
    let item = account_item(&accounts[1], &AccountsPopupStatusState::Loaded);
    assert_eq!(
        item.description,
        Some("ChatGPT · 5h limit 40% left, resets 11:00 · may be stale".to_string())
    );
}

#[test]
fn accounts_popup_failed_status_snapshot() {
    let mut saved = SavedAccountsFile::default();
    save(&mut saved, &api_key_auth("sk-test-key-1111"), 1);
    let popup = shown(fail_accounts_popup_status_refresh(
        Ok(list_saved_accounts(&saved)),
        "network unavailable".to_string(),
        None,
    ));
    assert_eq!(
        descriptions(&popup)[0],
        "Active · API key · failed to load limits: network unavailable"
    );
}

#[test]
fn account_actions_popup_snapshot() {
    let mut saved = SavedAccountsFile::default();
    save(&mut saved, &api_key_auth("sk-test-key-1111"), 1);
    save(&mut saved, &api_key_auth("sk-test-key-2222"), 2);
    let accounts = list_saved_accounts(&saved);
    let popup = shown(open_account_actions_popup(
        Ok(list_saved_accounts(&saved)),
        accounts[0].key.as_str(),
    ));
    assert_eq!(popup.view_id, "account-actions-popup");
    assert_eq!(popup.title, "Account");
    assert!(popup.has_footer_hint);
    assert_eq!(popup.subtitle, "API key (...2222)");
    assert_eq!(
        names(&popup),
        vec!["Switch to API key (...2222)", "Remove API key (...2222)", "Back"]
    );
    assert!(popup.items[0].is_disabled);
    assert_eq!(popup.items[0].disabled_reason, Some("Already active".to_string()));
    assert_eq!(
        popup.items[0].selected_description,
        Some("This account is already active".to_string())
    );
    assert_eq!(popup.initial_selected_idx, Some(1));

    let other = shown(open_account_actions_popup(
        Ok(list_saved_accounts(&saved)),
        accounts[1].key.as_str(),
    ));
    assert!(!other.items[0].is_disabled);
    assert_eq!(other.initial_selected_idx, Some(0));
    assert_eq!(
        other.items[0].action,
        Some(SelectionAction::SwitchAccount {
            account_key: accounts[1].key.clone(),
            label: "API key (...1111)".to_string(),
        })
    );
}

/// Goes from an item of the accounts popup to the actions for its account, and
/// from there to the confirmation, and returns the key that it removes.
fn key_to_remove_from_popups(saved: &SavedAccountsFile, item: usize) -> String {
    let (outcome, _) = open_accounts_popup(Ok(list_saved_accounts(saved)));
    let account_key = match &shown(outcome).items[item].action {
        Some(SelectionAction::OpenAccountActions { account_key }) => account_key.clone(),
        other => panic!("expected account actions popup, got {other:?}"),
    };
    let actions = shown(open_account_actions_popup(
        Ok(list_saved_accounts(saved)),
        account_key.as_str(),
    ));
    let account_key = match &actions.items[1].action {
        Some(SelectionAction::OpenRemoveConfirmation { account_key }) => account_key.clone(),
        other => panic!("expected remove confirmation, got {other:?}"),
    };
    let confirmation = shown(open_remove_account_confirmation(
        Ok(list_saved_accounts(saved)),
        account_key.as_str(),
    ));
    match &confirmation.items[0].action {
        Some(SelectionAction::RemoveAccount { account_key }) => account_key.clone(),
        other => panic!("expected removal, got {other:?}"),
    }
}

#[test]
fn remove_inactive_account_emits_dismiss_without_restart() {
    let mut saved = SavedAccountsFile::default();
    save(&mut saved, &api_key_auth("sk-test-key-1111"), 1);
    save(&mut saved, &api_key_auth("sk-test-key-2222"), 2);
    let key = key_to_remove_from_popups(&saved, 1);
    let removal = remove_saved_account(&mut saved, &key, at(3)).expect("remove");
    assert_eq!(
        remove_account_events(Ok(report_removal(&removal))),
        vec![
            AppEvent::Info("Removed saved account API key (...1111).".to_string()),
            AppEvent::DismissBottomPaneViews,
        ]
    );
    let left: Vec<(String, bool)> = list_saved_accounts(&saved)
        .into_iter()
        .map(|account| (account.label, account.is_active))
        .collect();
    assert_eq!(left, vec![("API key (...2222)".to_string(), true)]);
}

#[test]
fn remove_active_account_restarts_with_replacement() {
    let mut saved = SavedAccountsFile::default();
    save(&mut saved, &api_key_auth("sk-test-key-1111"), 1);
    save(&mut saved, &api_key_auth("sk-test-key-2222"), 2);
    let key = key_to_remove_from_popups(&saved, 0);
    let removal = remove_saved_account(&mut saved, &key, at(3)).expect("remove");
    assert_eq!(
        remove_account_events(Ok(report_removal(&removal))),
        vec![
            AppEvent::Info(
                "Removed API key (...2222). Switched active account to API key (...1111). Restarting Codex."
                    .to_string()
            ),
            AppEvent::Exit,
        ]
    );
    let left: Vec<(String, bool)> = list_saved_accounts(&saved)
        .into_iter()
        .map(|account| (account.label, account.is_active))
        .collect();
    assert_eq!(left, vec![("API key (...1111)".to_string(), true)]);
    assert_eq!(saved.accounts[0].auth, api_key_auth("sk-test-key-1111"));
}

#[test]
fn remove_last_active_account_restarts_logged_out() {
    let mut saved = SavedAccountsFile::default();
    save(&mut saved, &api_key_auth("sk-test-key-1111"), 1);
    let key = key_to_remove_from_popups(&saved, 0);
    let removal = remove_saved_account(&mut saved, &key, at(2)).expect("remove");
    assert_eq!(
        remove_account_events(Ok(report_removal(&removal))),
        vec![
            AppEvent::Info(
                "Removed API key (...1111). No saved accounts remain. Logging out and restarting Codex."
                    .to_string()
            ),
            AppEvent::Exit,
        ]
    );
    assert!(list_saved_accounts(&saved).is_empty());
}

#[test]
fn popups_report_what_went_wrong() {
    let failed = || Err("disk on fire".to_string());
    let message =
        PopupOutcome::ErrorMessage("Failed to load saved accounts: disk on fire".to_string());
    assert_eq!(open_accounts_popup(failed()), (message, false));
    let message =
        PopupOutcome::ErrorMessage("Failed to load saved accounts: disk on fire".to_string());
    assert_eq!(open_account_actions_popup(failed(), "k"), message);
    assert_eq!(open_remove_account_confirmation(failed(), "k"), message);
    assert_eq!(fail_accounts_popup_status_refresh(failed(), "x".to_string(), None), message);
    let gone = PopupOutcome::ErrorMessage("Saved account no longer exists.".to_string());
    assert_eq!(open_account_actions_popup(Ok(Vec::new()), "k"), gone);
    assert_eq!(open_remove_account_confirmation(Ok(Vec::new()), "k"), gone);
    let (empty, load_statuses) = open_accounts_popup(Ok(Vec::new()));
    assert_eq!(names(&shown(empty)), vec!["Add account"]);
    assert!(!load_statuses);
}

#[test]
fn removal_is_confirmed_first() {
    let mut saved = SavedAccountsFile::default();
    save(&mut saved, &api_key_auth("sk-test-key-1111"), 1);
    save(&mut saved, &api_key_auth("sk-test-key-2222"), 2);
    let accounts = list_saved_accounts(&saved);
    let active = shown(open_remove_account_confirmation(
        Ok(list_saved_accounts(&saved)),
        accounts[0].key.as_str(),
    ));
    assert_eq!(active.view_id, "remove-account-confirmation-popup");
    assert_eq!(active.title, "Remove account?");
    assert!(active.has_footer_hint);
    assert_eq!(names(&active), vec!["Remove account", "Cancel"]);
    assert_eq!(descriptions(&active)[0], "Remove this active account and restart Codex");
    assert_eq!(
        active.items[0].action,
        Some(SelectionAction::RemoveAccount { account_key: accounts[0].key.clone() })
    );
    let other = shown(open_remove_account_confirmation(
        Ok(list_saved_accounts(&saved)),
        accounts[1].key.as_str(),
    ));
    assert_eq!(descriptions(&other)[0], "Remove this saved account");
    assert_eq!(descriptions(&other)[1], "Keep this saved account");
}

#[test]
fn actions_lead_to_events() {
    assert_eq!(
        switch_account_events("me", Ok(())),
        vec![
            AppEvent::Info("Switched active account to me. Restarting Codex.".to_string()),
            AppEvent::Exit,
        ]
    );
    assert_eq!(
        switch_account_events("me", Err("no".to_string())),
        vec![AppEvent::Error("Failed to switch account to me: no".to_string())]
    );
    assert_eq!(
        remove_account_events(Err("no".to_string())),
        vec![AppEvent::Error("Failed to remove saved account: no".to_string())]
    );
    assert_eq!(
        begin_add_account(Some(ForcedLoginMethod::Chatgpt)),
        (
            vec![AppEvent::Info("Opening browser login to add another account...".to_string())],
            true
        )
    );
    let (events, run_login) = begin_add_account(Some(ForcedLoginMethod::Api));
    assert!(!run_login);
    assert_eq!(
        events,
        vec![AppEvent::Error(
            "This environment requires API key login. Use `printenv OPENAI_API_KEY | codex login --with-api-key` in a terminal."
                .to_string()
        )]
    );
    assert_eq!(
        finish_add_account(Ok(())),
        vec![
            AppEvent::Info(
                "Account login complete. The new account is now active. Restarting Codex."
                    .to_string()
            ),
            AppEvent::Exit,
        ]
    );
    assert_eq!(
        finish_add_account(Err("closed".to_string())),
        vec![AppEvent::Error("Account login failed: closed".to_string())]
    );
}

#[test]
fn summaries_are_described_by_mode_once_loaded() {
    let summary = SavedAccountSummary {
        key: "k".to_string(),
        label: "me".to_string(),
        auth_mode: ApiAuthMode::ChatgptAuthTokens,
        is_active: false,
    };
    let item = account_item(&summary, &AccountsPopupStatusState::Loaded);
    assert_eq!(
        item.description,
        Some("ChatGPT (external) · ChatGPT (external)".to_string())
    );
    assert_eq!(item.selected_description, None);
    assert_eq!(saved_account_mode_label(ApiAuthMode::AgentIdentity), "Agent identity");
}

#[test]
fn rate_limits_are_put_into_words() {
    let rows = vec![
        row("5H LIMIT É", "75% left", Some("10:00")),
        text_row("Credits", ""),
        text_row("Credits", "4.20"),
    ];
    assert_eq!(
        render_rate_limit_rows(&rows, false, SavedAccountRateLimitSummaryMode::Compact),
        "5h limit É 75% left · credits 4.20"
    );
    assert_eq!(
        render_rate_limit_rows(&rows, true, SavedAccountRateLimitSummaryMode::WithResets),
        "5h limit É 75% left, resets 10:00 · credits 4.20 · may be stale"
    );
    let silent = vec![text_row("Credits", "")];
    let compact = SavedAccountRateLimitSummaryMode::Compact;
    assert_eq!(render_rate_limit_rows(&silent, false, compact), "limits unavailable");
    assert_eq!(render_rate_limit_rows(&silent, true, compact), "may be stale");
    for data in [StatusRateLimitData::Unavailable, StatusRateLimitData::Missing] {
        assert_eq!(render_rate_limit_summary(&data, compact), "limits unavailable");
    }
}

#[test]
fn limits_are_called_by_name_then_identifier() {
    let mut snapshot = RateLimitSnapshot {
        limit_id: Some("id".to_string()),
        limit_name: Some("name".to_string()),
        primary: None,
        secondary: None,
        credits: None,
        plan_type: None,
        rate_limit_reached_type: None,
    };
    assert_eq!(limit_label(&snapshot), "name");
    snapshot.limit_name = None;
    assert_eq!(limit_label(&snapshot), "id");
    snapshot.limit_id = None;
    assert_eq!(limit_label(&snapshot), "codex");
}

#[test]
fn accounts_are_named_by_email_or_label() {
    let accounts = shown_accounts();
    assert_eq!(account_display_name(&accounts[0]), "active@example.com (Pro)");
    assert_eq!(account_display_name(&accounts[2]), "API key (...1111)");
    let unnamed = saved_status(
        "k",
        "label",
        ApiAuthMode::Chatgpt,
        false,
        None,
        Some((AccountPlanType::Go, "Go")),
        SavedAccountRateLimits::Available(Vec::new()),
        StatusRateLimitData::Missing,
    );
    assert_eq!(account_display_name(&unnamed), "label (Go)");
}

#[test]
fn other_accounts_are_listed_in_lines() {
    let state = SavedAccountsState::Loaded(shown_accounts());
    let lines = render_saved_account_lines(&state, 200);
    let texts: Vec<String> = lines.iter().map(|line| line.text.clone()).collect();
    assert_eq!(
        texts,
        vec![
            "other@example.com (Plus) · 5h limit 40% left · weekly limit 90% left",
            "API key (...1111) · limits unavailable for API key auth",
            "expired@example.com (Pro) · failed to load limits: credentials expired",
        ]
    );
    assert_eq!(lines[0].label, Some("Other accounts".to_string()));
    assert_eq!(lines[1].label, None);
    assert_eq!(collect_saved_account_labels(&state), Some("Other accounts".to_string()));
}

#[test]
fn lines_are_broken_at_words() {
    let state = SavedAccountsState::Failed("no such file".to_string());
    let lines = render_saved_account_lines(&state, 20);
    assert_eq!(
        lines,
        vec![
            StatusLine {
                label: Some("Other accounts".to_string()),
                text: "failed to load saved".to_string(),
            },
            StatusLine { label: None, text: "accounts: no such".to_string() },
            StatusLine { label: None, text: "file".to_string() },
        ]
    );
    let narrow = render_saved_account_lines(&SavedAccountsState::Loading, 0);
    assert_eq!(narrow.len(), 1);
    assert_eq!(narrow[0].text, "loading...");
}

#[test]
fn nothing_is_listed_without_other_accounts() {
    let mut only_active = shown_accounts();
    only_active.truncate(1);
    for state in [SavedAccountsState::Hidden, SavedAccountsState::Loaded(only_active)] {
        assert!(renderable_accounts(&state).is_none());
        assert!(render_saved_account_lines(&state, 80).is_empty());
        assert_eq!(collect_saved_account_labels(&state), None);
    }
    let loading = renderable_accounts(&SavedAccountsState::Loading).expect("a message");
    assert_eq!(render_saved_account(&loading[0]), "loading...");
}

#[test]
fn lines_are_appended_behind_the_label() {
    let mut lines = Vec::new();
    append_lines(&mut lines, Vec::new());
    assert!(lines.is_empty());
    append_lines(&mut lines, vec!["a".to_string(), "b".to_string()]);
    append_lines(&mut lines, vec!["c".to_string()]);
    let labels: Vec<bool> = lines.iter().map(|line| line.label.is_some()).collect();
    assert_eq!(labels, vec![true, false, false]);
}

fn three_accounts() -> SavedAccountsFile {
    let mut saved = SavedAccountsFile::default();
    save(&mut saved, &chatgpt_auth("acct_a"), 1);
    save(&mut saved, &api_key_auth("sk-test-key-1111"), 2);
    save(&mut saved, &chatgpt_auth("acct_b"), 3);
    saved
}

fn snapshot(plan_type: Option<AccountPlanType>) -> RateLimitSnapshot {
    RateLimitSnapshot {
        limit_id: Some("codex".to_string()),
        limit_name: None,
        primary: Some(RateLimitWindow {
            used_percent: 25,
            window_minutes: Some(300),
            resets_at: None,
        }),
        secondary: None,
        credits: None,
        plan_type,
        rate_limit_reached_type: None,
    }
}

#[test]
fn a_round_brings_every_status() {
    assert!(list_saved_account_statuses(SavedAccountsFile::default()).is_none());

    let listed = list_saved_accounts(&three_accounts());
    let mut round = list_saved_account_statuses(three_accounts()).expect("round");
    let jobs = round.jobs();
    let indices: Vec<usize> = jobs.iter().map(|job| job.index).collect();
    assert_eq!(indices, vec![0, 2]);

    let mut refreshed = jobs[1].entry.auth.clone();
    if let Some(tokens) = refreshed.tokens.as_mut() {
        tokens.access_token = "fresh".to_string();
    }
    for job in jobs {
        let index = job.index;
        let fetched = if index == 0 {
            job.timed_out()
        } else {
            fetch_saved_chatgpt_status(
                &job.entry,
                refreshed.clone(),
                job.summary.clone(),
                Ok(vec![snapshot(None), snapshot(Some(AccountPlanType::Pro))]),
            )
        };
        assert_eq!(round.record(Ok((index, fetched)), at(9)), Ok(()));
    }
    let (written, statuses) = round.finish();
    let statuses = statuses.expect("every status");
    let summaries: Vec<SavedAccountSummary> =
        statuses.iter().map(|status| status.summary.clone()).collect();
    assert_eq!(summaries, listed);
    assert_eq!(
        statuses[0].rate_limits,
        SavedAccountRateLimits::Unavailable { error: "request timed out".to_string() }
    );
    assert_eq!(statuses[0].plan_type, Some(AccountPlanType::Plus));
    assert_eq!(
        statuses[1].rate_limits,
        SavedAccountRateLimits::Unsupported {
            reason: "limits unavailable for API key auth".to_string(),
        }
    );
    assert_eq!(statuses[2].plan_type, Some(AccountPlanType::Pro));
    assert_eq!(statuses[2].email, Some("acct_a@example.com".to_string()));

    // The refreshed account was used last of those that are not active.
    let keys: Vec<String> = written.accounts.iter().map(|entry| entry.key.clone()).collect();
    assert_eq!(keys[0], "chatgpt:acct_b");
    assert_eq!(keys[1], "chatgpt:acct_a");
    assert_eq!(written.accounts[1].auth, refreshed);
    assert_eq!(written.accounts[1].updated_at, at(9));
    assert_eq!(written.accounts[0].updated_at, at(3));
}

#[test]
fn statuses_come_in_any_order() {
    let run = |order: [usize; 2]| {
        let mut round = list_saved_account_statuses(three_accounts()).expect("round");
        for which in order {
            let job = round.jobs().into_iter().find(|job| job.index == which).expect("job");
            let auth = AuthDotJson { last_refresh: Some(at(5)), ..job.entry.auth.clone() };
            let fetched = fetch_saved_chatgpt_status(
                &job.entry,
                auth,
                job.summary.clone(),
                Err("offline".to_string()),
            );
            assert_eq!(round.record(Ok((which, fetched)), at(5)), Ok(()));
        }
        round.finish()
    };
    assert_eq!(run([0, 2]), run([2, 0]));
}

#[test]
fn a_round_without_every_status_is_an_error() {
    let round = list_saved_account_statuses(three_accounts()).expect("round");
    let (written, statuses) = round.finish();
    assert_eq!(statuses, Err(AccountsError::MissingStatus));
    assert_eq!(written, three_accounts());
}

#[test]
fn a_fetch_may_take_five_seconds() {
    assert_eq!(saved_account_status_timeout_secs(), 5);
}

#[test]
fn a_task_that_failed_changes_nothing() {
    let mut round = list_saved_account_statuses(three_accounts()).expect("round");
    let error = round.record(Err("panicked".to_string()), at(9)).expect_err("failed task");
    assert_eq!(error, AccountsError::StatusTaskFailed("panicked".to_string()));
    assert_eq!(error.message(), "status task failed: panicked");
    assert_eq!(Some(round), list_saved_account_statuses(three_accounts()));
}

#[test]
fn a_fetch_reports_credentials_that_changed() {
    let entry = SavedAccountEntry {
        key: "chatgpt:acct_a".to_string(),
        label: "a".to_string(),
        auth_mode: ApiAuthMode::Chatgpt,
        auth: chatgpt_auth("acct_a"),
        updated_at: at(1),
    };
    let summary = SavedAccountSummary {
        key: "chatgpt:acct_a".to_string(),
        label: "a".to_string(),
        auth_mode: ApiAuthMode::Chatgpt,
        is_active: true,
    };
    let unchanged: FetchedSavedAccountStatus = fetch_saved_chatgpt_status(
        &entry,
        entry.auth.clone(),
        summary.clone(),
        Err("offline".to_string()),
    );
    assert_eq!(unchanged.updated_auth, None);
    assert_eq!(
        unchanged.status.rate_limits,
        SavedAccountRateLimits::Unavailable { error: "offline".to_string() }
    );
    assert_eq!(unchanged.status.plan_type, Some(AccountPlanType::Plus));

    let fresh = AuthDotJson { last_refresh: Some(at(2)), ..entry.auth.clone() };
    let changed = fetch_saved_chatgpt_status(&entry, fresh.clone(), summary, Ok(Vec::new()));
    assert_eq!(changed.updated_auth, Some(fresh));
    assert_eq!(changed.status.plan_type, Some(AccountPlanType::Plus));
    assert_eq!(changed.status.clone(), changed.status);
}
