use saved_accounts::auth::{
    AccountPlanType, AgentIdentityAuthRecord, ApiAuthMode, AuthDotJson, IdTokenInfo,
    InternalKnownPlan, InternalPlanType, TokenData,
};
use saved_accounts::entry::{
    accounts_file_path, saved_accounts_file_version, SavedAccountEntry, SavedAccountsFile,
};
use saved_accounts::error::AccountsError;
use saved_accounts::identity::{
    account_email, account_identity, account_plan_type, account_to_save, hash_prefix,
    map_internal_plan_type, resolved_auth_mode, short_hash,
};
use saved_accounts::order::sort_entries;
use saved_accounts::round::list_saved_account_statuses;
use saved_accounts::store::{
    list_saved_accounts, read_saved_accounts, remove_saved_account, switch_saved_account,
    upsert_saved_account, RemoveSavedAccountResultInternal, SavedAccountSummary,
};
use saved_accounts::time::Timestamp;

fn at(secs: i64) -> Timestamp {
    Timestamp { secs, nanos: 0 }
}

fn no_bytes() -> Result<Vec<u8>, String> {
    Ok(Vec::new())
}

fn empty_auth() -> AuthDotJson {
    AuthDotJson {
        auth_mode: None,
        openai_api_key: None,
        tokens: None,
        last_refresh: None,
        agent_identity: None,
    }
}

fn api_key_auth(api_key: &str) -> AuthDotJson {
    AuthDotJson {
        auth_mode: Some(ApiAuthMode::ApiKey),
        openai_api_key: Some(api_key.to_string()),
        ..empty_auth()
    }
}

fn claims(account_id: Option<&str>, email: Option<&str>) -> IdTokenInfo {
    IdTokenInfo {
        email: email.map(str::to_string),
        chatgpt_plan_type: Some(InternalPlanType::Known(InternalKnownPlan::Pro)),
        chatgpt_user_id: None,
        chatgpt_account_id: account_id.map(str::to_string),
        chatgpt_account_is_fedramp: false,
        raw_jwt: "header.payload.sig".to_string(),
    }
}

fn chatgpt_auth(account_id: &str, email: &str) -> AuthDotJson {
    AuthDotJson {
        auth_mode: Some(ApiAuthMode::Chatgpt),
        openai_api_key: None,
        tokens: Some(TokenData {
            id_token: claims(Some(account_id), Some(email)),
            access_token: "access".to_string(),
            refresh_token: "refresh".to_string(),
            account_id: Some(account_id.to_string()),
        }),
        last_refresh: Some(at(0)),
        agent_identity: None,
    }
}

fn agent_auth(account_id: &str, email: &str) -> AuthDotJson {
    AuthDotJson {
        agent_identity: Some(AgentIdentityAuthRecord {
            agent_runtime_id: "runtime".to_string(),
            agent_private_key: "private".to_string(),
            account_id: account_id.to_string(),
            chatgpt_user_id: "user".to_string(),
            email: email.to_string(),
            plan_type: AccountPlanType::Team,
            chatgpt_account_is_fedramp: false,
        }),
        ..empty_auth()
    }
}

fn entry(key: &str, label: &str, updated_at: Timestamp) -> SavedAccountEntry {
    SavedAccountEntry {
        key: key.to_string(),
        label: label.to_string(),
        auth_mode: ApiAuthMode::Chatgpt,
        auth: chatgpt_auth(key, label),
        updated_at,
    }
}

fn keys(saved: &SavedAccountsFile) -> Vec<String> {
    saved.accounts.iter().map(|entry| entry.key.clone()).collect()
}

#[test]
fn upsert_and_list_saved_accounts_tracks_active_account() {
    let mut saved = SavedAccountsFile::default();
    upsert_saved_account(&mut saved, &chatgpt_auth("acct_a", "a@example.com"), &no_bytes(), at(1))
        .expect("save account a");
    upsert_saved_account(&mut saved, &chatgpt_auth("acct_b", "b@example.com"), &no_bytes(), at(2))
        .expect("save account b");

    let accounts = list_saved_accounts(&saved);
    assert_eq!(accounts.len(), 2);
    assert_eq!(accounts[0].key, "chatgpt:acct_b");
    assert_eq!(accounts[0].label, "b@example.com");
    assert!(accounts[0].is_active);
    assert_eq!(accounts[1].key, "chatgpt:acct_a");
    assert!(!accounts[1].is_active);
}

#[test]
fn switch_saved_account_marks_selected_account_active() {
    let mut saved = SavedAccountsFile::default();
    upsert_saved_account(&mut saved, &chatgpt_auth("acct_a", "a@example.com"), &no_bytes(), at(1))
        .expect("save account a");
    upsert_saved_account(&mut saved, &chatgpt_auth("acct_b", "b@example.com"), &no_bytes(), at(2))
        .expect("save account b");

    let selected =
        switch_saved_account(&mut saved, "chatgpt:acct_a", at(3)).expect("switch account");
    assert_eq!(
        selected.tokens.and_then(|tokens| tokens.account_id),
        Some("acct_a".to_string())
    );

    let accounts = list_saved_accounts(&saved);
    assert_eq!(accounts[0].key, "chatgpt:acct_a");
    assert!(accounts[0].is_active);
    assert_eq!(accounts[1].key, "chatgpt:acct_b");
    assert!(!accounts[1].is_active);
}

#[test]
fn remove_inactive_account_preserves_active_account() {
    let mut saved = SavedAccountsFile::default();
    upsert_saved_account(&mut saved, &chatgpt_auth("acct_a", "a@example.com"), &no_bytes(), at(1))
        .expect("save account a");
    upsert_saved_account(&mut saved, &chatgpt_auth("acct_b", "b@example.com"), &no_bytes(), at(2))
        .expect("save account b");

    let result =
        remove_saved_account(&mut saved, "chatgpt:acct_a", at(3)).expect("remove inactive account");
    assert_eq!(
        result,
        RemoveSavedAccountResultInternal::Inactive {
            removed: SavedAccountSummary {
                key: "chatgpt:acct_a".to_string(),
                label: "a@example.com".to_string(),
                auth_mode: ApiAuthMode::Chatgpt,
                is_active: false,
            },
        }
    );

    let accounts = list_saved_accounts(&saved);
    assert_eq!(accounts.len(), 1);
    assert_eq!(accounts[0].key, "chatgpt:acct_b");
    assert!(accounts[0].is_active);
}

#[test]
fn remove_active_account_switches_to_next_saved_account() {
    let mut saved = SavedAccountsFile::default();
    upsert_saved_account(&mut saved, &chatgpt_auth("acct_a", "a@example.com"), &no_bytes(), at(1))
        .expect("save account a");
    upsert_saved_account(&mut saved, &chatgpt_auth("acct_b", "b@example.com"), &no_bytes(), at(2))
        .expect("save account b");

    let result =
        remove_saved_account(&mut saved, "chatgpt:acct_b", at(3)).expect("remove active account");
    match result {
        RemoveSavedAccountResultInternal::ActiveSwitched {
            removed,
            replacement,
            replacement_auth,
        } => {
            assert_eq!(removed.key, "chatgpt:acct_b");
            assert_eq!(replacement.key, "chatgpt:acct_a");
            assert_eq!(
                replacement_auth.tokens.and_then(|tokens| tokens.account_id),
                Some("acct_a".to_string())
            );
        }
        other => panic!("unexpected removal result: {other:?}"),
    }

    let accounts = list_saved_accounts(&saved);
    assert_eq!(accounts.len(), 1);
    assert_eq!(accounts[0].key, "chatgpt:acct_a");
    assert!(accounts[0].is_active);
}

#[test]
fn remove_last_active_account_clears_active_key() {
    let mut saved = SavedAccountsFile::default();
    upsert_saved_account(&mut saved, &chatgpt_auth("acct_a", "a@example.com"), &no_bytes(), at(1))
        .expect("save account a");

    let result =
        remove_saved_account(&mut saved, "chatgpt:acct_a", at(2)).expect("remove active account");
    assert_eq!(
        result,
        RemoveSavedAccountResultInternal::LastActive {
            removed: SavedAccountSummary {
                key: "chatgpt:acct_a".to_string(),
                label: "a@example.com".to_string(),
                auth_mode: ApiAuthMode::Chatgpt,
                is_active: true,
            },
        }
    );

    let accounts = list_saved_accounts(&saved);
    assert!(accounts.is_empty());
    assert_eq!(saved.active_account_key, None);
}

#[test]
fn upsert_api_key_account_uses_stable_api_prefix() {
    let mut saved = SavedAccountsFile::default();
    upsert_saved_account(&mut saved, &api_key_auth("sk-test-account-key"), &no_bytes(), at(1))
        .expect("save api key account");

    let accounts = list_saved_accounts(&saved);
    assert_eq!(accounts.len(), 1);
    assert_eq!(accounts[0].auth_mode, ApiAuthMode::ApiKey);
    assert!(accounts[0].key.starts_with("api:"));
    assert_eq!(accounts[0].label, "API key (...-key)");
}

#[test]
fn short_hash_is_the_beginning_of_the_digest() {
    assert_eq!(short_hash(b""), "e3b0c44298fc1c14");
    assert_eq!(short_hash(b"abc"), "ba7816bf8f01cfea");
    assert_eq!(hash_prefix("0123456789abcdef0123"), "0123456789abcdef");
}

#[test]
fn api_keys_are_identified_by_hash_and_suffix() {
    let identity = account_identity(&api_key_auth("abc"), ApiAuthMode::ApiKey, &no_bytes());
    assert_eq!(
        identity,
        Ok(("api:ba7816bf8f01cfea".to_string(), "API key (...abc)".to_string()))
    );
    let again = account_identity(
        &AuthDotJson { last_refresh: Some(at(9)), ..api_key_auth("abc") },
        ApiAuthMode::ApiKey,
        &Err("unused".to_string()),
    );
    assert_eq!(again, identity);
    let wide = account_identity(&api_key_auth("k-äöü€"), ApiAuthMode::ApiKey, &no_bytes());
    assert_eq!(wide.expect("identity").1, "API key (...äöü€)");
}

#[test]
fn chatgpt_accounts_are_identified_by_their_account() {
    let auth = chatgpt_auth("acct_a", "a@example.com");
    assert_eq!(
        account_identity(&auth, ApiAuthMode::Chatgpt, &Err("unused".to_string())),
        Ok(("chatgpt:acct_a".to_string(), "a@example.com".to_string()))
    );

    let mut from_claims = chatgpt_auth("acct_a", "a@example.com");
    if let Some(tokens) = from_claims.tokens.as_mut() {
        tokens.account_id = None;
        tokens.id_token.chatgpt_account_id = Some("acct_claims".to_string());
        tokens.id_token.email = None;
    }
    assert_eq!(
        account_identity(&from_claims, ApiAuthMode::Chatgpt, &no_bytes()),
        Ok(("chatgpt:acct_claims".to_string(), "acct_claims".to_string()))
    );

    assert_eq!(
        account_identity(&empty_auth(), ApiAuthMode::Chatgpt, &Ok(b"abc".to_vec())),
        Ok(("chatgpt:ba7816bf8f01cfea".to_string(), "ChatGPT account".to_string()))
    );
    assert_eq!(
        account_identity(&empty_auth(), ApiAuthMode::Chatgpt, &Err("no json".to_string())),
        Err(AccountsError::Serialize("no json".to_string()))
    );
}

#[test]
fn agents_are_identified_by_their_account() {
    let auth = agent_auth("acct_agent", "agent@example.com");
    assert_eq!(resolved_auth_mode(&auth), ApiAuthMode::AgentIdentity);
    assert_eq!(
        account_identity(&auth, ApiAuthMode::AgentIdentity, &no_bytes()),
        Ok(("agent:acct_agent".to_string(), "agent@example.com".to_string()))
    );
    assert_eq!(account_email(&auth), Some("agent@example.com".to_string()));
    assert_eq!(account_plan_type(&auth), Some(AccountPlanType::Team));
}

#[test]
fn incomplete_credentials_have_no_identity() {
    assert_eq!(
        account_identity(&empty_auth(), ApiAuthMode::ApiKey, &no_bytes()),
        Err(AccountsError::MissingKeyMaterial)
    );
    assert_eq!(
        account_identity(&empty_auth(), ApiAuthMode::AgentIdentity, &no_bytes()),
        Err(AccountsError::MissingAgentIdentity)
    );
    let mut saved = SavedAccountsFile::default();
    let auth = AuthDotJson { auth_mode: Some(ApiAuthMode::ApiKey), ..empty_auth() };
    assert_eq!(
        upsert_saved_account(&mut saved, &auth, &no_bytes(), at(1)),
        Err(AccountsError::MissingKeyMaterial)
    );
    assert_eq!(saved, SavedAccountsFile::default());
}

#[test]
fn errors_are_reported_in_words() {
    assert_eq!(
        AccountsError::MissingKeyMaterial.message(),
        "API key auth is missing key material"
    );
    assert_eq!(
        AccountsError::MissingAgentIdentity.message(),
        "agent identity auth is missing account data"
    );
    assert_eq!(AccountsError::Serialize("bad".to_string()).message(), "bad");
    assert_eq!(
        AccountsError::NotFound("api:1".to_string()).message(),
        "Saved account not found: api:1"
    );
    assert_eq!(
        AccountsError::StatusTaskFailed("gone".to_string()).message(),
        "status task failed: gone"
    );
    assert_eq!(AccountsError::MissingStatus.message(), "missing saved account status");
}

#[test]
fn auth_mode_follows_what_is_there() {
    assert_eq!(resolved_auth_mode(&empty_auth()), ApiAuthMode::Chatgpt);
    let key = AuthDotJson { openai_api_key: Some("k".to_string()), ..agent_auth("a", "e") };
    assert_eq!(resolved_auth_mode(&key), ApiAuthMode::ApiKey);
    let said = AuthDotJson { auth_mode: Some(ApiAuthMode::Chatgpt), ..key };
    assert_eq!(resolved_auth_mode(&said), ApiAuthMode::Chatgpt);
}

#[test]
fn external_tokens_are_not_saved() {
    let auth = AuthDotJson {
        auth_mode: Some(ApiAuthMode::ChatgptAuthTokens),
        ..chatgpt_auth("acct_a", "a@example.com")
    };
    assert_eq!(account_to_save(&auth, &no_bytes()), Ok(None));
    let mut saved = SavedAccountsFile::default();
    assert_eq!(upsert_saved_account(&mut saved, &auth, &no_bytes(), at(1)), Ok(false));
    assert!(saved.accounts.is_empty());
}

#[test]
fn plans_of_id_tokens_are_mapped() {
    assert_eq!(
        map_internal_plan_type(&InternalPlanType::Known(InternalKnownPlan::Edu)),
        AccountPlanType::Edu
    );
    assert_eq!(
        map_internal_plan_type(&InternalPlanType::Unknown("mystery".to_string())),
        AccountPlanType::Unknown
    );
    assert_eq!(
        account_plan_type(&chatgpt_auth("a", "a@example.com")),
        Some(AccountPlanType::Pro)
    );
    assert_eq!(account_plan_type(&empty_auth()), None);
    assert_eq!(account_email(&empty_auth()), None);
}

#[test]
fn saving_again_replaces_the_account() {
    let mut saved = SavedAccountsFile::default();
    upsert_saved_account(&mut saved, &chatgpt_auth("acct_a", "old@example.com"), &no_bytes(), at(1))
        .expect("save account a");
    upsert_saved_account(&mut saved, &chatgpt_auth("acct_b", "b@example.com"), &no_bytes(), at(2))
        .expect("save account b");
    upsert_saved_account(&mut saved, &chatgpt_auth("acct_a", "new@example.com"), &no_bytes(), at(3))
        .expect("save account a again");
    assert_eq!(keys(&saved), vec!["chatgpt:acct_a", "chatgpt:acct_b"]);
    assert_eq!(saved.accounts[0].label, "new@example.com");
    assert_eq!(saved.active_account_key, Some("chatgpt:acct_a".to_string()));
}

#[test]
fn entries_are_ordered_by_activity_use_and_label() {
    let saved = SavedAccountsFile {
        version: 1,
        active_account_key: Some("d".to_string()),
        accounts: vec![
            entry("a", "same", at(5)),
            entry("b", "alpha", at(7)),
            entry("c", "Same", at(5)),
            entry("d", "zulu", at(1)),
            entry("e", "same", at(5)),
            entry("f", "beta", Timestamp { secs: 7, nanos: 1 }),
        ],
    };
    let ordered: Vec<String> = sort_entries(&saved).into_iter().map(|entry| entry.key).collect();
    assert_eq!(ordered, vec!["d", "f", "b", "c", "a", "e"]);
    let again = SavedAccountsFile { accounts: sort_entries(&saved), ..saved };
    assert_eq!(sort_entries(&again), again.accounts);
}

#[test]
fn unknown_accounts_are_not_found() {
    let mut saved = SavedAccountsFile::default();
    upsert_saved_account(&mut saved, &api_key_auth("sk-test"), &no_bytes(), at(1)).expect("save");
    let before = keys(&saved);
    assert_eq!(
        switch_saved_account(&mut saved, "nope", at(2)),
        Err(AccountsError::NotFound("nope".to_string()))
    );
    assert_eq!(
        remove_saved_account(&mut saved, "nope", at(2)),
        Err(AccountsError::NotFound("nope".to_string()))
    );
    assert_eq!(keys(&saved), before);
}

#[test]
fn removing_the_active_account_passes_on_to_the_last_used() {
    let mut saved = SavedAccountsFile::default();
    for (secs, id) in [(1, "acct_a"), (2, "acct_b"), (3, "acct_c")] {
        upsert_saved_account(&mut saved, &chatgpt_auth(id, id), &no_bytes(), at(secs))
            .expect("save");
    }
    remove_saved_account(&mut saved, "chatgpt:acct_c", at(4)).expect("remove");
    assert_eq!(saved.active_account_key, Some("chatgpt:acct_b".to_string()));
    assert_eq!(keys(&saved), vec!["chatgpt:acct_b", "chatgpt:acct_a"]);
    assert_eq!(saved.accounts[0].updated_at, at(4));
    assert_eq!(saved.accounts[1].updated_at, at(1));
}

#[test]
fn removing_undoes_saving() {
    let mut saved = SavedAccountsFile::default();
    upsert_saved_account(&mut saved, &chatgpt_auth("acct_a", "a@example.com"), &no_bytes(), at(1))
        .expect("save");
    let auth = saved.accounts[0].auth.clone();
    upsert_saved_account(&mut saved, &chatgpt_auth("acct_b", "b@example.com"), &no_bytes(), at(2))
        .expect("save");
    remove_saved_account(&mut saved, "chatgpt:acct_b", at(3)).expect("remove");
    assert_eq!(keys(&saved), vec!["chatgpt:acct_a"]);
    assert_eq!(saved.accounts[0].auth, auth);
}

#[test]
fn reading_drops_an_active_key_that_is_not_saved() {
    let read = read_saved_accounts(Some(SavedAccountsFile {
        version: 7,
        active_account_key: Some("gone".to_string()),
        accounts: vec![entry("a", "a", at(1))],
    }));
    assert_eq!(read.version, saved_accounts_file_version());
    assert_eq!(read.active_account_key, None);
    assert_eq!(keys(&read), vec!["a"]);

    let kept = read_saved_accounts(Some(SavedAccountsFile {
        version: 1,
        active_account_key: Some("a".to_string()),
        accounts: vec![entry("a", "a", at(1))],
    }));
    assert_eq!(kept.active_account_key, Some("a".to_string()));
    assert_eq!(read_saved_accounts(None), SavedAccountsFile::default());
}

#[test]
fn what_is_written_reads_back() {
    let mut saved = SavedAccountsFile::default();
    upsert_saved_account(&mut saved, &chatgpt_auth("acct_a", "a@example.com"), &no_bytes(), at(1))
        .expect("save");
    upsert_saved_account(&mut saved, &api_key_auth("sk-test"), &no_bytes(), at(2)).expect("save");
    let copy = SavedAccountsFile {
        version: saved.version,
        active_account_key: saved.active_account_key.clone(),
        accounts: saved.accounts.clone(),
    };
    assert_eq!(read_saved_accounts(Some(copy)), saved);
}

#[test]
fn the_accounts_file_stands_in_the_home_directory() {
    assert_eq!(accounts_file_path("/home/me/.codex"), "/home/me/.codex/accounts.json");
    assert_eq!(accounts_file_path("/home/me/.codex/"), "/home/me/.codex/accounts.json");
    assert_eq!(accounts_file_path(""), "accounts.json");
    assert_eq!(
        std::path::Path::new("/home/me").join("accounts.json"),
        std::path::PathBuf::from(accounts_file_path("/home/me"))
    );
}

#[test]
fn an_account_stays_active_while_any_is_saved() {
    let mut saved = SavedAccountsFile::default();
    for (secs, account) in [(1, "acct_a"), (2, "acct_b"), (3, "acct_c")] {
        let auth = chatgpt_auth(account, "me@example.com");
        upsert_saved_account(&mut saved, &auth, &no_bytes(), at(secs)).expect("save account");
        assert!(saved.active_account_key.is_some());
    }
    switch_saved_account(&mut saved, "chatgpt:acct_a", at(4)).expect("switch account");
    let mut round = list_saved_account_statuses(saved).expect("round");
    for job in round.jobs() {
        assert_eq!(round.record(Ok((job.index, job.timed_out())), at(5)), Ok(()));
    }
    let (mut saved, _) = round.finish();
    assert_eq!(saved.active_account_key.as_deref(), Some("chatgpt:acct_a"));
    for (secs, next) in [(5, Some("chatgpt:acct_c")), (6, Some("chatgpt:acct_b")), (7, None)] {
        let active = saved.active_account_key.clone().expect("active account");
        remove_saved_account(&mut saved, &active, at(secs)).expect("remove account");
        assert_eq!(saved.active_account_key.as_deref(), next);
        assert_eq!(saved.accounts.is_empty(), next.is_none());
    }
}
