//! The operations on the saved accounts: reading, saving, listing, switching
//! and removing.

use vstd::prelude::*;

use crate::auth::{ApiAuthMode, AuthDotJson, AuthModel};
use crate::entry::{
    empty_accounts, AccountsModel, EntryModel, SavedAccountEntry, SavedAccountsFile,
    ACCOUNTS_FILE_VERSION,
};
use crate::error::{result_view, AccountsError, AccountsErrorModel};
use crate::identity::{
    account_to_save, account_to_save_of, mode_of, resolved_auth_mode, serialized_view,
};
use crate::order::{
    display_order, display_order_is_a_permutation, has_active_key, is_active_entry, sort_entries,
};
use crate::text::same_text;
use crate::time::Timestamp;

verus! {

/// What is shown of a saved account.
#[derive(Debug, PartialEq, Eq)]
pub struct SavedAccountSummary {
    pub key: String,
    pub label: String,
    pub auth_mode: ApiAuthMode,
    pub is_active: bool,
}

/// The model of `SavedAccountSummary`.
pub struct SummaryModel {
    pub key: Seq<char>,
    pub label: Seq<char>,
    pub auth_mode: ApiAuthMode,
    pub is_active: bool,
}

impl DeepView for SavedAccountSummary {
    type V = SummaryModel;

    open spec fn deep_view(&self) -> SummaryModel {
        SummaryModel {
            key: self.key@,
            label: self.label@,
            auth_mode: self.auth_mode,
            is_active: self.is_active,
        }
    }
}

impl Clone for SavedAccountSummary {
    fn clone(&self) -> (copy: Self)
        ensures
            copy == *self,
    {
        SavedAccountSummary {
            key: self.key.clone(),
            label: self.label.clone(),
            auth_mode: self.auth_mode,
            is_active: self.is_active,
        }
    }
}

/// What is shown of an entry.
pub open spec fn summary_of(entry: EntryModel, active: Option<Seq<char>>) -> SummaryModel {
    SummaryModel {
        key: entry.key,
        label: entry.label,
        auth_mode: entry.auth_mode,
        is_active: is_active_entry(entry, active),
    }
}

/// What is shown of `entry`.
pub fn summary_from_entry(
    entry: &SavedAccountEntry,
    active_account_key: &Option<String>,
) -> (summary: SavedAccountSummary)
    ensures
        summary.deep_view() == summary_of(entry.deep_view(), active_account_key.deep_view()),
{
    SavedAccountSummary {
        key: entry.key.clone(),
        label: entry.label.clone(),
        auth_mode: entry.auth_mode,
        is_active: has_active_key(entry, active_account_key),
    }
}

/// Whether an entry has this key.
pub open spec fn has_key(accounts: Seq<EntryModel>, key: Seq<char>) -> bool {
    exists|i: int| 0 <= i < accounts.len() && (#[trigger] accounts[i]).key == key
}

/// Whether the entry at `i` is the first with this key.
pub open spec fn is_first_with_key(accounts: Seq<EntryModel>, key: Seq<char>, i: int) -> bool {
    &&& 0 <= i < accounts.len()
    &&& accounts[i].key == key
    &&& forall|j: int| 0 <= j < i ==> (#[trigger] accounts[j]).key != key
}

/// Where the first entry with this key stands, when there is one.
pub open spec fn first_with_key(accounts: Seq<EntryModel>, key: Seq<char>) -> int {
    choose|i: int| is_first_with_key(accounts, key, i)
}

/// Where the first entry with this key stands.
pub fn position_of(accounts: &Vec<SavedAccountEntry>, key: &str) -> (position: Option<usize>)
    ensures
        match position {
            Some(i) => is_first_with_key(accounts.deep_view(), key@, i as int) && i
                == first_with_key(accounts.deep_view(), key@) && has_key(
                accounts.deep_view(),
                key@,
            ),
            None => !has_key(accounts.deep_view(), key@),
        },
{
    let mut i: usize = 0;
    while i < accounts.len()
        invariant
            i <= accounts.len(),
            forall|j: int| 0 <= j < i ==> (#[trigger] accounts.deep_view()[j]).key != key@,
        decreases accounts.len() - i,
    {
        if same_text(accounts[i].key.as_str(), key) {
            let ghost all = accounts.deep_view();
            assert(all[i as int].key == key@);
            assert(is_first_with_key(all, key@, i as int));
            let ghost first = first_with_key(all, key@);
            assert(is_first_with_key(all, key@, first));
            return Some(i);
        }
        i += 1;
    }
    None
}

/// The accounts file as it is used, from what was read: no file counts as one
/// with nothing saved, the version becomes that which is written, and an
/// active key that no entry has is dropped.
pub open spec fn accounts_from(contents: Option<AccountsModel>) -> AccountsModel {
    match contents {
        None => empty_accounts(),
        Some(file) => AccountsModel {
            version: ACCOUNTS_FILE_VERSION,
            active: match file.active {
                Some(key) => if has_key(file.accounts, key) {
                    Some(key)
                } else {
                    None
                },
                None => None,
            },
            accounts: file.accounts,
        },
    }
}

/// The accounts file as it is used, from the contents that were read, or from
/// nothing where there is no file.
pub fn read_saved_accounts(contents: Option<SavedAccountsFile>) -> (saved: SavedAccountsFile)
    ensures
        saved.deep_view() == accounts_from(contents.deep_view()),
{
    match contents {
        None => SavedAccountsFile::default(),
        Some(mut parsed) => {
            if parsed.version != ACCOUNTS_FILE_VERSION {
                parsed.version = ACCOUNTS_FILE_VERSION;
            }
            let dangling: bool = match &parsed.active_account_key {
                Some(active) => position_of(&parsed.accounts, active.as_str()).is_none(),
                None => false,
            };
            if dangling {
                parsed.active_account_key = None;
            }
            parsed
        },
    }
}

/// The saved accounts after credentials were saved under `key` at `now`: they
/// take the place of what was saved under that key, and become active.
pub open spec fn saved_under(
    saved: AccountsModel,
    key: Seq<char>,
    label: Seq<char>,
    auth_mode: ApiAuthMode,
    auth: AuthModel,
    now: Timestamp,
) -> AccountsModel {
    let others = saved.accounts.filter(|entry: EntryModel| entry.key != key);
    let entry = EntryModel { key, label, auth_mode, auth, updated_at: now };
    AccountsModel {
        version: saved.version,
        active: Some(key),
        accounts: display_order(others.push(entry), Some(key)),
    }
}

/// The entries that have another key.
fn without_key(accounts: &Vec<SavedAccountEntry>, key: &str) -> (others: Vec<SavedAccountEntry>)
    ensures
        others.deep_view() == accounts.deep_view().filter(|entry: EntryModel| entry.key != key@),
{
    let ghost all = accounts.deep_view();
    let ghost keep = |entry: EntryModel| entry.key != key@;
    let mut others: Vec<SavedAccountEntry> = Vec::new();
    let mut i: usize = 0;
    proof {
        reveal(Seq::filter);
        assert(others.deep_view() =~= all.take(0).filter(keep));
    }
    while i < accounts.len()
        invariant
            all == accounts.deep_view(),
            keep == (|entry: EntryModel| entry.key != key@),
            i <= accounts.len(),
            others.deep_view() == all.take(i as int).filter(keep),
        decreases accounts.len() - i,
    {
        proof {
            reveal(Seq::filter);
            assert(all.take(i + 1).drop_last() =~= all.take(i as int));
            assert(all.take(i + 1).last() == all[i as int]);
        }
        let ghost before = others.deep_view();
        if !same_text(accounts[i].key.as_str(), key) {
            others.push(accounts[i].clone());
            assert(others.deep_view() =~= before.push(all[i as int]));
        }
        i += 1;
    }
    assert(all.take(all.len() as int) =~= all);
    others
}

/// Saves `auth` at `now` and makes its account the active one. Returns whether
/// anything was saved: tokens that are managed elsewhere are not.
pub fn upsert_saved_account(
    saved: &mut SavedAccountsFile,
    auth: &AuthDotJson,
    serialized: &Result<Vec<u8>, String>,
    now: Timestamp,
) -> (changed: Result<bool, AccountsError>)
    ensures
        match account_to_save_of(auth.deep_view(), serialized_view(*serialized)) {
            Ok(Some((key, label))) => changed == Ok::<bool, AccountsError>(true)
                && final(saved).deep_view() == saved_under(
                old(saved).deep_view(),
                key,
                label,
                mode_of(auth.deep_view()),
                auth.deep_view(),
                now,
            ),
            Ok(None) => changed == Ok::<bool, AccountsError>(false) && *final(saved) == *old(saved),
            Err(error) => result_view(changed) == Err::<bool, AccountsErrorModel>(error)
                && *final(saved) == *old(saved),
        },
{
    let (key, label): (String, String) = match account_to_save(auth, serialized) {
        Ok(Some(account)) => account,
        Ok(None) => {
            return Ok(false);
        },
        Err(error) => {
            return Err(error);
        },
    };
    let mut others: Vec<SavedAccountEntry> = without_key(&saved.accounts, key.as_str());
    let ghost kept = others.deep_view();
    let entry = SavedAccountEntry {
        key: key.clone(),
        label,
        auth_mode: resolved_auth_mode(auth),
        auth: auth.clone(),
        updated_at: now,
    };
    let ghost model = entry.deep_view();
    others.push(entry);
    assert(others.deep_view() =~= kept.push(model));
    saved.accounts = others;
    saved.active_account_key = Some(key);
    saved.accounts = sort_entries(saved);
    Ok(true)
}

/// The summaries of the saved accounts, in display order.
pub open spec fn summaries_of(saved: AccountsModel) -> Seq<SummaryModel> {
    display_order(saved.accounts, saved.active).map_values(
        |entry: EntryModel| summary_of(entry, saved.active),
    )
}

/// The summaries of the saved accounts, in display order.
pub fn list_saved_accounts(saved: &SavedAccountsFile) -> (summaries: Vec<SavedAccountSummary>)
    ensures
        summaries.deep_view() == summaries_of(saved.deep_view()),
{
    let ordered: Vec<SavedAccountEntry> = sort_entries(saved);
    let mut summaries: Vec<SavedAccountSummary> = Vec::new();
    let mut i: usize = 0;
    while i < ordered.len()
        invariant
            i <= ordered.len(),
            summaries.len() == i,
            forall|j: int|
                0 <= j < i ==> #[trigger] summaries.deep_view()[j] == summary_of(
                    ordered.deep_view()[j],
                    saved.active_account_key.deep_view(),
                ),
        decreases ordered.len() - i,
    {
        let ghost before = summaries.deep_view();
        summaries.push(summary_from_entry(&ordered[i], &saved.active_account_key));
        assert(forall|j: int| 0 <= j < i ==> #[trigger] summaries.deep_view()[j] == before[j]);
        i += 1;
    }
    assert(summaries.deep_view() =~= summaries_of(saved.deep_view()));
    summaries
}

/// The saved accounts after the account `key` was made active at `now`.
pub open spec fn switched_to(saved: AccountsModel, key: Seq<char>, now: Timestamp) -> AccountsModel {
    let at = first_with_key(saved.accounts, key);
    let entry = EntryModel { updated_at: now, ..saved.accounts[at] };
    AccountsModel {
        version: saved.version,
        active: Some(key),
        accounts: display_order(saved.accounts.remove(at).push(entry), Some(key)),
    }
}

/// Makes the account `account_key` the active one and returns its credentials.
pub fn switch_saved_account(
    saved: &mut SavedAccountsFile,
    account_key: &str,
    now: Timestamp,
) -> (auth: Result<AuthDotJson, AccountsError>)
    ensures
        if has_key(old(saved).deep_view().accounts, account_key@) {
            let at = first_with_key(old(saved).deep_view().accounts, account_key@);
            &&& result_view(auth) == Ok::<AuthModel, AccountsErrorModel>(
                old(saved).deep_view().accounts[at].auth,
            )
            &&& final(saved).deep_view() == switched_to(old(saved).deep_view(), account_key@, now)
        } else {
            &&& result_view(auth) == Err::<AuthModel, AccountsErrorModel>(
                AccountsErrorModel::NotFound(account_key@),
            )
            &&& *final(saved) == *old(saved)
        },
{
    let index: usize = match position_of(&saved.accounts, account_key) {
        Some(index) => index,
        None => {
            return Err(AccountsError::NotFound(account_key.to_owned()));
        },
    };
    let ghost before = saved.accounts.deep_view();
    let mut entry: SavedAccountEntry = saved.accounts.remove(index);
    assert(entry.deep_view() == before[index as int]);
    assert(saved.accounts.deep_view() =~= before.remove(index as int));
    entry.updated_at = now;
    let auth: AuthDotJson = entry.auth.clone();
    saved.active_account_key = Some(entry.key.clone());
    let ghost model = entry.deep_view();
    saved.accounts.push(entry);
    assert(saved.accounts.deep_view() =~= before.remove(index as int).push(model));
    saved.accounts = sort_entries(saved);
    Ok(auth)
}

/// What became of an account that was removed, and of the active account.
#[derive(Debug, PartialEq)]
pub enum RemoveSavedAccountResultInternal {
    /// Another account was, and stays, active.
    Inactive { removed: SavedAccountSummary },
    /// The account was active, and another one became so.
    ActiveSwitched {
        removed: SavedAccountSummary,
        replacement: SavedAccountSummary,
        replacement_auth: Box<AuthDotJson>,
    },
    /// The account was active, and none is left.
    LastActive { removed: SavedAccountSummary },
}

/// The model of `RemoveSavedAccountResultInternal`.
pub enum RemovalModel {
    Inactive { removed: SummaryModel },
    ActiveSwitched { removed: SummaryModel, replacement: SummaryModel, replacement_auth: AuthModel },
    LastActive { removed: SummaryModel },
}

impl DeepView for RemoveSavedAccountResultInternal {
    type V = RemovalModel;

    open spec fn deep_view(&self) -> RemovalModel {
        match self {
            RemoveSavedAccountResultInternal::Inactive { removed } => RemovalModel::Inactive {
                removed: removed.deep_view(),
            },
            RemoveSavedAccountResultInternal::ActiveSwitched {
                removed,
                replacement,
                replacement_auth,
            } => RemovalModel::ActiveSwitched {
                removed: removed.deep_view(),
                replacement: replacement.deep_view(),
                replacement_auth: replacement_auth.deep_view(),
            },
            RemoveSavedAccountResultInternal::LastActive { removed } => RemovalModel::LastActive {
                removed: removed.deep_view(),
            },
        }
    }
}

/// The entries with `replacement` in the place of each that has its key.
pub open spec fn with_replacement(accounts: Seq<EntryModel>, replacement: EntryModel) -> Seq<
    EntryModel,
> {
    accounts.map_values(
        |entry: EntryModel|
            if entry.key == replacement.key {
                replacement
            } else {
                entry
            },
    )
}

/// The entry that takes over when the active account `key` is removed at
/// `now`: the first that is left, in display order.
pub open spec fn successor(saved: AccountsModel, key: Seq<char>, now: Timestamp) -> EntryModel {
    let rest = saved.accounts.remove(first_with_key(saved.accounts, key));
    EntryModel { updated_at: now, ..display_order(rest, saved.active)[0] }
}

/// The saved accounts after the account `key` was removed at `now`.
pub open spec fn removed_from(saved: AccountsModel, key: Seq<char>, now: Timestamp) -> AccountsModel {
    let rest = saved.accounts.remove(first_with_key(saved.accounts, key));
    if saved.active != Some(key) {
        AccountsModel { accounts: display_order(rest, saved.active), ..saved }
    } else if rest.len() == 0 {
        AccountsModel { active: None, accounts: rest, ..saved }
    } else {
        let replacement = successor(saved, key, now);
        let active = Some(replacement.key);
        AccountsModel {
            active,
            accounts: display_order(with_replacement(rest, replacement), active),
            ..saved
        }
    }
}

/// What removing the account `key` at `now` comes to.
pub open spec fn removal_of(saved: AccountsModel, key: Seq<char>, now: Timestamp) -> RemovalModel {
    let at = first_with_key(saved.accounts, key);
    let removed = summary_of(saved.accounts[at], saved.active);
    if saved.active != Some(key) {
        RemovalModel::Inactive { removed }
    } else if saved.accounts.len() == 1 {
        RemovalModel::LastActive { removed }
    } else {
        let replacement = successor(saved, key, now);
        RemovalModel::ActiveSwitched {
            removed,
            replacement: summary_of(replacement, Some(replacement.key)),
            replacement_auth: replacement.auth,
        }
    }
}

/// The entries with `replacement` in the place of each that has its key.
fn replace_entries(accounts: &Vec<SavedAccountEntry>, replacement: &SavedAccountEntry) -> (replaced:
    Vec<SavedAccountEntry>)
    ensures
        replaced.deep_view() == with_replacement(accounts.deep_view(), replacement.deep_view()),
{
    let ghost wanted = with_replacement(accounts.deep_view(), replacement.deep_view());
    let mut replaced: Vec<SavedAccountEntry> = Vec::new();
    let mut i: usize = 0;
    while i < accounts.len()
        invariant
            wanted == with_replacement(accounts.deep_view(), replacement.deep_view()),
            i <= accounts.len(),
            replaced.len() == i,
            forall|j: int| 0 <= j < i ==> #[trigger] replaced.deep_view()[j] == wanted[j],
        decreases accounts.len() - i,
    {
        let ghost before = replaced.deep_view();
        let entry: SavedAccountEntry = if accounts[i].key == replacement.key {
            replacement.clone()
        } else {
            accounts[i].clone()
        };
        assert(entry.deep_view() == wanted[i as int]) by {
            assert(accounts.deep_view()[i as int] == accounts@[i as int].deep_view());
        }
        replaced.push(entry);
        assert(forall|j: int| 0 <= j < i ==> #[trigger] replaced.deep_view()[j] == before[j]);
        i += 1;
    }
    assert(replaced.deep_view() =~= wanted);
    replaced
}

/// Removes the account `account_key`. Where it was the active one, the first
/// that is left in display order becomes active.
pub fn remove_saved_account(
    saved: &mut SavedAccountsFile,
    account_key: &str,
    now: Timestamp,
) -> (removal: Result<RemoveSavedAccountResultInternal, AccountsError>)
    ensures
        if has_key(old(saved).deep_view().accounts, account_key@) {
            &&& result_view(removal) == Ok::<RemovalModel, AccountsErrorModel>(
                removal_of(old(saved).deep_view(), account_key@, now),
            )
            &&& final(saved).deep_view() == removed_from(old(saved).deep_view(), account_key@, now)
        } else {
            &&& result_view(removal) == Err::<RemovalModel, AccountsErrorModel>(
                AccountsErrorModel::NotFound(account_key@),
            )
            &&& *final(saved) == *old(saved)
        },
{
    let index: usize = match position_of(&saved.accounts, account_key) {
        Some(index) => index,
        None => {
            return Err(AccountsError::NotFound(account_key.to_owned()));
        },
    };
    let ghost model = saved.deep_view();
    let removed: SavedAccountEntry = saved.accounts.remove(index);
    let ghost rest = model.accounts.remove(index as int);
    assert(removed.deep_view() == model.accounts[index as int]);
    assert(saved.accounts.deep_view() =~= rest);
    let removed_summary: SavedAccountSummary = summary_from_entry(
        &removed,
        &saved.active_account_key,
    );
    let was_active: bool = match &saved.active_account_key {
        Some(key) => same_text(key.as_str(), account_key),
        None => false,
    };
    let ordered: Vec<SavedAccountEntry> = sort_entries(saved);
    if !was_active {
        saved.accounts = ordered;
        return Ok(RemoveSavedAccountResultInternal::Inactive { removed: removed_summary });
    }
    proof {
        display_order_is_a_permutation(rest, model.active);
    }
    if ordered.len() == 0 {
        saved.active_account_key = None;
        return Ok(RemoveSavedAccountResultInternal::LastActive { removed: removed_summary });
    }
    let mut replacement: SavedAccountEntry = ordered[0].clone();
    assert(replacement.deep_view() == ordered.deep_view()[0]);
    replacement.updated_at = now;
    saved.active_account_key = Some(replacement.key.clone());
    saved.accounts = replace_entries(&saved.accounts, &replacement);
    saved.accounts = sort_entries(saved);
    Ok(
        RemoveSavedAccountResultInternal::ActiveSwitched {
            removed: removed_summary,
            replacement: summary_from_entry(&replacement, &saved.active_account_key),
            replacement_auth: Box::new(replacement.auth),
        },
    )
}

} // verus!
