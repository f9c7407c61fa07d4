//! What holds of the saved accounts as a whole, whatever is done to them.

use vstd::prelude::*;

use crate::auth::{ApiAuthMode, AuthModel};
use crate::entry::{empty_accounts, AccountsModel, EntryModel, ACCOUNTS_FILE_VERSION};
use crate::order::{
    display_order, display_order_is_a_permutation, display_order_is_determined,
    display_order_is_idempotent, entries_stand_by_activity_use_and_label, is_display_order, peers,
    ranks_before, ranks_with,
};
use crate::round::{a_round_changes_credentials_alone, a_round_reads_back, new_round, ArrivalModel};
use crate::store::{
    accounts_from, first_with_key, has_key, is_first_with_key, removal_of, removed_from,
    saved_under, successor, summaries_of, summary_of, switched_to, with_replacement, RemovalModel,
    SummaryModel,
};
use crate::text::{text_lt, text_lt_irreflexive};
use crate::time::Timestamp;

verus! {

/// Whether no two entries have the same key.
pub open spec fn keys_distinct(accounts: Seq<EntryModel>) -> bool {
    forall|i: int, j: int|
        0 <= i < j < accounts.len() ==> (#[trigger] accounts[i]).key != (
        #[trigger] accounts[j]).key
}

/// Whether the active key, if there is one, is that of an entry.
pub open spec fn active_is_saved(saved: AccountsModel) -> bool {
    saved.active matches Some(key) ==> has_key(saved.accounts, key)
}

/// Whether the accounts file is as it is written: in the version that is
/// written, with the active account among those saved.
pub open spec fn is_usable(saved: AccountsModel) -> bool {
    saved.version == ACCOUNTS_FILE_VERSION && active_is_saved(saved)
}

/// Whether an account is active, where there is one.
pub open spec fn has_active_account(saved: AccountsModel) -> bool {
    saved.accounts.len() > 0 ==> saved.active is Some
}

/// What is kept of an account besides when it was last used.
pub struct AccountModel {
    pub label: Seq<char>,
    pub auth_mode: ApiAuthMode,
    pub auth: AuthModel,
}

/// What is kept of an entry besides its key and when it was last used.
pub open spec fn account_of(entry: EntryModel) -> AccountModel {
    AccountModel { label: entry.label, auth_mode: entry.auth_mode, auth: entry.auth }
}

/// The accounts by their keys. The first entry counts where several have the
/// same key.
pub open spec fn account_map(accounts: Seq<EntryModel>) -> Map<Seq<char>, AccountModel> {
    Map::new(
        |key: Seq<char>| has_key(accounts, key),
        |key: Seq<char>| account_of(accounts[first_with_key(accounts, key)]),
    )
}

/// The first entry with a key is where it is said to be.
pub proof fn first_is_found(accounts: Seq<EntryModel>, key: Seq<char>)
    requires
        has_key(accounts, key),
    ensures
        is_first_with_key(accounts, key, first_with_key(accounts, key)),
{
    let i = choose|i: int| 0 <= i < accounts.len() && (#[trigger] accounts[i]).key == key;
    least_is_first(accounts, key, i);
}

/// There is a first one among the entries up to `i` with this key.
proof fn least_is_first(accounts: Seq<EntryModel>, key: Seq<char>, i: int)
    requires
        0 <= i < accounts.len(),
        accounts[i].key == key,
    ensures
        exists|j: int| is_first_with_key(accounts, key, j),
    decreases i,
{
    if exists|j: int| 0 <= j < i && (#[trigger] accounts[j]).key == key {
        let j = choose|j: int| 0 <= j < i && (#[trigger] accounts[j]).key == key;
        least_is_first(accounts, key, j);
    } else {
        assert(is_first_with_key(accounts, key, i));
    }
}

/// Where no two entries have the same key, every entry with a key is the first.
proof fn only_one_is_first(accounts: Seq<EntryModel>, i: int)
    requires
        keys_distinct(accounts),
        0 <= i < accounts.len(),
    ensures
        has_key(accounts, accounts[i].key),
        first_with_key(accounts, accounts[i].key) == i,
{
    let key = accounts[i].key;
    first_is_found(accounts, key);
    let first = first_with_key(accounts, key);
    if first < i {
        assert(accounts[first].key != accounts[i].key);
    } else if i < first {
        assert(accounts[i].key != accounts[first].key);
    }
}

/// Display order keeps keys distinct.
pub proof fn display_order_keeps_keys_distinct(
    accounts: Seq<EntryModel>,
    active: Option<Seq<char>>,
)
    requires
        keys_distinct(accounts),
    ensures
        keys_distinct(display_order(accounts, active)),
{
    let ordered = display_order(accounts, active);
    display_order_is_a_permutation(accounts, active);
    assert(accounts.no_duplicates()) by {
        assert forall|i: int, j: int|
            0 <= i < accounts.len() && 0 <= j < accounts.len() && i != j implies accounts[i]
            != accounts[j] by {
            if i < j {
                assert(accounts[i].key != accounts[j].key);
            } else {
                assert(accounts[j].key != accounts[i].key);
            }
        }
    }
    accounts.lemma_multiset_has_no_duplicates();
    ordered.lemma_multiset_has_no_duplicates_conv();
    assert forall|i: int, j: int| 0 <= i < j < ordered.len() implies (#[trigger] ordered[i]).key
        != (#[trigger] ordered[j]).key by {
        assert(ordered.contains(ordered[i]));
        assert(ordered.contains(ordered[j]));
        let a = choose|a: int| 0 <= a < accounts.len() && accounts[a] == ordered[i];
        let b = choose|b: int| 0 <= b < accounts.len() && accounts[b] == ordered[j];
        assert(ordered[i] != ordered[j]);
        if a < b {
            assert(accounts[a].key != accounts[b].key);
        } else {
            assert(accounts[b].key != accounts[a].key);
        }
    }
}

/// Two lists with the same entries and distinct keys have the same accounts.
proof fn same_entries_same_map(a: Seq<EntryModel>, b: Seq<EntryModel>)
    requires
        keys_distinct(a),
        keys_distinct(b),
        forall|entry: EntryModel| #[trigger] a.contains(entry) <==> b.contains(entry),
    ensures
        account_map(a) == account_map(b),
{
    assert forall|key: Seq<char>| has_key(a, key) implies has_key(b, key) && a[first_with_key(
        a,
        key,
    )] == b[first_with_key(b, key)] by {
        first_is_found(a, key);
        let entry = a[first_with_key(a, key)];
        assert(a.contains(entry));
        assert(b.contains(entry));
        let i = choose|i: int| 0 <= i < b.len() && b[i] == entry;
        only_one_is_first(b, i);
    }
    assert forall|key: Seq<char>| has_key(b, key) implies has_key(a, key) by {
        first_is_found(b, key);
        let entry = b[first_with_key(b, key)];
        assert(b.contains(entry));
        assert(a.contains(entry));
        let i = choose|i: int| 0 <= i < a.len() && a[i] == entry;
        only_one_is_first(a, i);
    }
    assert(account_map(a) =~= account_map(b));
}

/// Display order keeps the accounts.
pub proof fn display_order_keeps_accounts(accounts: Seq<EntryModel>, active: Option<Seq<char>>)
    requires
        keys_distinct(accounts),
    ensures
        account_map(display_order(accounts, active)) == account_map(accounts),
{
    display_order_keeps_keys_distinct(accounts, active);
    display_order_is_a_permutation(accounts, active);
    same_entries_same_map(display_order(accounts, active), accounts);
}

/// Display order keeps which keys there are.
pub proof fn display_order_keeps_has_key(
    accounts: Seq<EntryModel>,
    active: Option<Seq<char>>,
    key: Seq<char>,
)
    ensures
        has_key(display_order(accounts, active), key) == has_key(accounts, key),
{
    let ordered = display_order(accounts, active);
    display_order_is_a_permutation(accounts, active);
    if has_key(ordered, key) {
        let i = choose|i: int| 0 <= i < ordered.len() && (#[trigger] ordered[i]).key == key;
        assert(ordered.contains(ordered[i]));
        let j = choose|j: int| 0 <= j < accounts.len() && accounts[j] == ordered[i];
        assert(accounts[j].key == key);
    }
    if has_key(accounts, key) {
        let i = choose|i: int| 0 <= i < accounts.len() && (#[trigger] accounts[i]).key == key;
        assert(accounts.contains(accounts[i]));
        assert(ordered.contains(accounts[i]));
        let j = choose|j: int| 0 <= j < ordered.len() && ordered[j] == accounts[i];
        assert(ordered[j].key == key);
    }
}

/// The file before anything was saved is usable, with distinct keys and in
/// display order.
pub proof fn a_new_file_is_usable()
    ensures
        is_usable(empty_accounts()),
        keys_distinct(empty_accounts().accounts),
        is_in_display_order(empty_accounts()),
{
    display_order_is_a_permutation(empty_accounts().accounts, None);
    assert(display_order(empty_accounts().accounts, None) =~= empty_accounts().accounts);
}

/// Reading what was read changes nothing more.
pub proof fn reading_is_idempotent(contents: Option<AccountsModel>)
    ensures
        accounts_from(Some(accounts_from(contents))) == accounts_from(contents),
{
}

/// What is read can be used: it has the version that is written, and the active
/// account is among those saved.
pub proof fn what_is_read_is_usable(contents: Option<AccountsModel>)
    ensures
        is_usable(accounts_from(contents)),
{
}

/// Reading a file that is usable gives it back as it was written.
pub proof fn reading_gives_back_what_was_written(saved: AccountsModel)
    requires
        is_usable(saved),
    ensures
        accounts_from(Some(saved)) == saved,
{
}

/// An entry of a list with distinct keys is found under its key.
proof fn entry_is_in_map(accounts: Seq<EntryModel>, entry: EntryModel)
    requires
        keys_distinct(accounts),
        accounts.contains(entry),
    ensures
        account_map(accounts).contains_key(entry.key),
        account_map(accounts)[entry.key] == account_of(entry),
{
    let i = choose|i: int| 0 <= i < accounts.len() && accounts[i] == entry;
    only_one_is_first(accounts, i);
}

/// The entries with other keys are those that have them, and their keys stay
/// distinct.
proof fn others_are_kept(accounts: Seq<EntryModel>, key: Seq<char>)
    ensures
        ({
            let others = accounts.filter(|entry: EntryModel| entry.key != key);
            &&& forall|entry: EntryModel| #[trigger]
                others.contains(entry) <==> accounts.contains(entry) && entry.key != key
            &&& keys_distinct(accounts) ==> keys_distinct(others)
        }),
    decreases accounts.len(),
{
    reveal(Seq::filter);
    let keep = |entry: EntryModel| entry.key != key;
    let others = accounts.filter(keep);
    if accounts.len() > 0 {
        let rest = accounts.drop_last();
        let last = accounts.last();
        others_are_kept(rest, key);
        assert(accounts =~= rest.push(last));
        let rest_others = rest.filter(keep);
        assert forall|entry: EntryModel| #[trigger] others.contains(entry) <==> accounts.contains(
            entry,
        ) && entry.key != key by {
            if accounts.contains(entry) && entry.key != key {
                let i = choose|i: int| 0 <= i < accounts.len() && accounts[i] == entry;
                if i < rest.len() {
                    assert(rest[i] == entry);
                    assert(rest.contains(entry));
                    assert(rest_others.contains(entry));
                    let j = choose|j: int| 0 <= j < rest_others.len() && rest_others[j] == entry;
                    assert(others[j] == entry);
                } else {
                    assert(others[others.len() - 1] == entry);
                }
            }
            if others.contains(entry) {
                let j = choose|j: int| 0 <= j < others.len() && others[j] == entry;
                if j < rest_others.len() {
                    assert(rest_others[j] == entry);
                    assert(rest_others.contains(entry));
                    let i = choose|i: int| 0 <= i < rest.len() && rest[i] == entry;
                    assert(accounts[i] == entry);
                } else {
                    assert(accounts[accounts.len() - 1] == entry);
                }
            }
        }
        if keys_distinct(accounts) {
            assert forall|i: int, j: int| 0 <= i < j < others.len() implies (
            #[trigger] others[i]).key != (#[trigger] others[j]).key by {
                if j < rest_others.len() {
                    assert(rest_others[i].key != rest_others[j].key);
                } else {
                    assert(rest_others.contains(rest_others[i]));
                    let k = choose|k: int| 0 <= k < rest.len() && rest[k] == rest_others[i];
                    assert(accounts[k].key != accounts[accounts.len() - 1].key);
                }
            }
        }
    }
}

/// A list with distinct keys and one more entry with a key of its own.
proof fn push_keeps_keys_distinct(accounts: Seq<EntryModel>, entry: EntryModel)
    requires
        keys_distinct(accounts),
        !has_key(accounts, entry.key),
    ensures
        keys_distinct(accounts.push(entry)),
        account_map(accounts.push(entry)) == account_map(accounts).insert(
            entry.key,
            account_of(entry),
        ),
{
    let more = accounts.push(entry);
    assert forall|i: int, j: int| 0 <= i < j < more.len() implies (#[trigger] more[i]).key != (
    #[trigger] more[j]).key by {
        if j == accounts.len() {
            assert(accounts[i].key != entry.key);
        } else {
            assert(accounts[i].key != accounts[j].key);
        }
    }
    assert(more[accounts.len() as int] == entry);
    assert(more.contains(entry));
    entry_is_in_map(more, entry);
    assert forall|key: Seq<char>| key != entry.key implies has_key(more, key) == has_key(
        accounts,
        key,
    ) && (has_key(accounts, key) ==> account_map(more)[key] == account_map(accounts)[key]) by {
        if has_key(accounts, key) {
            first_is_found(accounts, key);
            let i = first_with_key(accounts, key);
            assert(more[i] == accounts[i]);
            assert(more.contains(accounts[i]));
            entry_is_in_map(more, accounts[i]);
        }
        if has_key(more, key) {
            let i = choose|i: int| 0 <= i < more.len() && (#[trigger] more[i]).key == key;
            assert(accounts[i].key == key);
        }
    }
    assert(account_map(more) =~= account_map(accounts).insert(entry.key, account_of(entry)));
}

/// Saving an account puts it under its key, in the place of what stood there.
/// The entries of all other accounts stay, each as it was.
pub proof fn saving_replaces_one_account(
    saved: AccountsModel,
    key: Seq<char>,
    label: Seq<char>,
    auth_mode: ApiAuthMode,
    auth: AuthModel,
    now: Timestamp,
)
    requires
        keys_distinct(saved.accounts),
    ensures
        ({
            let after = saved_under(saved, key, label, auth_mode, auth, now);
            &&& keys_distinct(after.accounts)
            &&& account_map(after.accounts) == account_map(saved.accounts).insert(
                key,
                AccountModel { label, auth_mode, auth },
            )
            &&& forall|other: EntryModel|
                other.key != key ==> (#[trigger] after.accounts.contains(other)
                    <==> saved.accounts.contains(other))
        }),
{
    let others = saved.accounts.filter(|entry: EntryModel| entry.key != key);
    let entry = EntryModel { key, label, auth_mode, auth, updated_at: now };
    others_are_kept(saved.accounts, key);
    assert(!has_key(others, key)) by {
        if has_key(others, key) {
            let i = choose|i: int| 0 <= i < others.len() && (#[trigger] others[i]).key == key;
            assert(others.contains(others[i]));
        }
    }
    push_keeps_keys_distinct(others, entry);
    display_order_keeps_keys_distinct(others.push(entry), Some(key));
    display_order_keeps_accounts(others.push(entry), Some(key));
    assert forall|k: Seq<char>| k != key implies has_key(others, k) == has_key(saved.accounts, k)
        && (has_key(others, k) ==> account_map(others)[k] == account_map(saved.accounts)[k]) by {
        if has_key(others, k) {
            first_is_found(others, k);
            let e = others[first_with_key(others, k)];
            assert(others.contains(e));
            entry_is_in_map(saved.accounts, e);
        }
        if has_key(saved.accounts, k) {
            first_is_found(saved.accounts, k);
            let e = saved.accounts[first_with_key(saved.accounts, k)];
            assert(saved.accounts.contains(e));
            assert(others.contains(e));
            entry_is_in_map(others, e);
        }
    }
    assert(account_map(others).insert(key, account_of(entry)) =~= account_map(
        saved.accounts,
    ).insert(key, account_of(entry)));
    let more = others.push(entry);
    let after = saved_under(saved, key, label, auth_mode, auth, now).accounts;
    display_order_is_a_permutation(more, Some(key));
    assert forall|other: EntryModel| other.key != key implies (#[trigger] after.contains(other)
        <==> saved.accounts.contains(other)) by {
        push_keeps_others(others, entry, other);
    }
}

/// One more entry makes no difference to which others there are.
proof fn push_keeps_others(accounts: Seq<EntryModel>, entry: EntryModel, other: EntryModel)
    requires
        other != entry,
    ensures
        accounts.push(entry).contains(other) == accounts.contains(other),
{
    let more = accounts.push(entry);
    if more.contains(other) {
        let i = choose|i: int| 0 <= i < more.len() && more[i] == other;
        assert(accounts[i] == other);
    }
    if accounts.contains(other) {
        let i = choose|i: int| 0 <= i < accounts.len() && accounts[i] == other;
        assert(more[i] == other);
    }
}

/// One entry less makes no difference to which others there are.
proof fn remove_keeps_others(accounts: Seq<EntryModel>, at: int, other: EntryModel)
    requires
        0 <= at < accounts.len(),
        other != accounts[at],
    ensures
        accounts.remove(at).contains(other) == accounts.contains(other),
{
    let rest = accounts.remove(at);
    if rest.contains(other) {
        let i = choose|i: int| 0 <= i < rest.len() && rest[i] == other;
        assert(accounts[if i < at {
            i
        } else {
            i + 1
        }] == other);
    }
    if accounts.contains(other) {
        let i = choose|i: int| 0 <= i < accounts.len() && accounts[i] == other;
        assert(rest[if i < at {
            i
        } else {
            i - 1
        }] == other);
    }
}

/// Another entry in the place of one makes no difference to which others there
/// are.
proof fn update_keeps_others(
    accounts: Seq<EntryModel>,
    at: int,
    entry: EntryModel,
    other: EntryModel,
)
    requires
        0 <= at < accounts.len(),
        other != accounts[at],
        other != entry,
    ensures
        accounts.update(at, entry).contains(other) == accounts.contains(other),
{
    let updated = accounts.update(at, entry);
    if updated.contains(other) {
        let i = choose|i: int| 0 <= i < updated.len() && updated[i] == other;
        assert(accounts[i] == other);
    }
    if accounts.contains(other) {
        let i = choose|i: int| 0 <= i < accounts.len() && accounts[i] == other;
        assert(updated[i] == other);
    }
}

/// A list without the entry at `at`.
proof fn removing_one(accounts: Seq<EntryModel>, at: int)
    requires
        keys_distinct(accounts),
        0 <= at < accounts.len(),
    ensures
        keys_distinct(accounts.remove(at)),
        !has_key(accounts.remove(at), accounts[at].key),
        account_map(accounts.remove(at)) == account_map(accounts).remove(accounts[at].key),
{
    let rest = accounts.remove(at);
    let key = accounts[at].key;
    assert forall|i: int, j: int| 0 <= i < j < rest.len() implies (#[trigger] rest[i]).key != (
    #[trigger] rest[j]).key by {
        let a = if i < at {
            i
        } else {
            i + 1
        };
        let b = if j < at {
            j
        } else {
            j + 1
        };
        assert(accounts[a].key != accounts[b].key);
    }
    assert forall|i: int| 0 <= i < rest.len() implies (#[trigger] rest[i]).key != key by {
        let a = if i < at {
            i
        } else {
            i + 1
        };
        if a < at {
            assert(accounts[a].key != accounts[at].key);
        } else {
            assert(accounts[at].key != accounts[a].key);
        }
    }
    assert forall|k: Seq<char>| k != key implies has_key(rest, k) == has_key(accounts, k) && (
    has_key(rest, k) ==> account_map(rest)[k] == account_map(accounts)[k]) by {
        if has_key(rest, k) {
            first_is_found(rest, k);
            let i = first_with_key(rest, k);
            let a = if i < at {
                i
            } else {
                i + 1
            };
            assert(accounts[a] == rest[i]);
            assert(accounts.contains(rest[i]));
            entry_is_in_map(accounts, rest[i]);
        }
        if has_key(accounts, k) {
            first_is_found(accounts, k);
            let a = first_with_key(accounts, k);
            let i = if a < at {
                a
            } else {
                a - 1
            };
            assert(rest[i] == accounts[a]);
        }
    }
    assert(account_map(rest) =~= account_map(accounts).remove(key));
}

/// Switching to an account changes none of them, whether their labels, how
/// they sign in or their credentials. The entries of all other accounts stay,
/// each as it was.
pub proof fn switching_keeps_accounts(saved: AccountsModel, key: Seq<char>, now: Timestamp)
    requires
        keys_distinct(saved.accounts),
        has_key(saved.accounts, key),
    ensures
        keys_distinct(switched_to(saved, key, now).accounts),
        account_map(switched_to(saved, key, now).accounts) == account_map(saved.accounts),
        forall|other: EntryModel|
            other.key != key ==> (#[trigger] switched_to(saved, key, now).accounts.contains(other)
                <==> saved.accounts.contains(other)),
{
    first_is_found(saved.accounts, key);
    let at = first_with_key(saved.accounts, key);
    let entry = EntryModel { updated_at: now, ..saved.accounts[at] };
    let rest = saved.accounts.remove(at);
    removing_one(saved.accounts, at);
    push_keeps_keys_distinct(rest, entry);
    display_order_keeps_keys_distinct(rest.push(entry), Some(key));
    display_order_keeps_accounts(rest.push(entry), Some(key));
    assert(saved.accounts.contains(saved.accounts[at]));
    entry_is_in_map(saved.accounts, saved.accounts[at]);
    assert(account_map(saved.accounts).remove(key).insert(key, account_of(entry)) =~= account_map(
        saved.accounts,
    ));
    display_order_is_a_permutation(rest.push(entry), Some(key));
    assert forall|other: EntryModel| other.key != key implies (
    #[trigger] switched_to(saved, key, now).accounts.contains(other) <==> saved.accounts.contains(
        other,
    )) by {
        push_keeps_others(rest, entry, other);
        remove_keeps_others(saved.accounts, at, other);
    }
}

/// Setting when an entry was last used changes none of the accounts.
proof fn replacing_keeps_accounts(rest: Seq<EntryModel>, at: int, replacement: EntryModel)
    requires
        keys_distinct(rest),
        0 <= at < rest.len(),
        replacement.key == rest[at].key,
        account_of(replacement) == account_of(rest[at]),
    ensures
        keys_distinct(with_replacement(rest, replacement)),
        with_replacement(rest, replacement) == rest.update(at, replacement),
        account_map(with_replacement(rest, replacement)) == account_map(rest),
{
    let replaced = with_replacement(rest, replacement);
    assert forall|i: int| 0 <= i < rest.len() implies replaced[i].key == (#[trigger] rest[i]).key
        && account_of(replaced[i]) == account_of(rest[i]) && (i != at ==> replaced[i] == rest[i]) by {
        if i < at {
            assert(rest[i].key != rest[at].key);
        } else if at < i {
            assert(rest[at].key != rest[i].key);
        }
    }
    assert(replaced =~= rest.update(at, replacement));
    assert forall|i: int, j: int| 0 <= i < j < replaced.len() implies (#[trigger] replaced[i]).key
        != (#[trigger] replaced[j]).key by {
        assert(rest[i].key != rest[j].key);
    }
    assert forall|k: Seq<char>| has_key(replaced, k) == has_key(rest, k) && (has_key(rest, k)
        ==> account_map(replaced)[k] == account_map(rest)[k]) by {
        if has_key(rest, k) {
            first_is_found(rest, k);
            let i = first_with_key(rest, k);
            only_one_is_first(replaced, i);
            assert(replaced[i].key == rest[i].key);
        }
        if has_key(replaced, k) {
            first_is_found(replaced, k);
            let i = first_with_key(replaced, k);
            assert(rest[i].key == replaced[i].key);
        }
    }
    assert(account_map(replaced) =~= account_map(rest));
}

/// The entry that takes over is one of those that are left.
proof fn successor_is_left(saved: AccountsModel, key: Seq<char>, now: Timestamp) -> (at: int)
    requires
        keys_distinct(saved.accounts),
        has_key(saved.accounts, key),
        saved.accounts.len() > 1,
    ensures
        ({
            let rest = saved.accounts.remove(first_with_key(saved.accounts, key));
            &&& 0 <= at < rest.len()
            &&& rest[at] == display_order(rest, saved.active)[0]
            &&& successor(saved, key, now).key == rest[at].key
            &&& account_of(successor(saved, key, now)) == account_of(rest[at])
        }),
{
    first_is_found(saved.accounts, key);
    let rest = saved.accounts.remove(first_with_key(saved.accounts, key));
    let ordered = display_order(rest, saved.active);
    display_order_is_a_permutation(rest, saved.active);
    assert(ordered.contains(ordered[0]));
    choose|at: int| 0 <= at < rest.len() && rest[at] == ordered[0]
}

/// Removing an account takes it away. Every other account keeps its label, how
/// it signs in and its credentials, and its entry stays as it was unless it
/// takes over as the active account: then it counts as used now.
pub proof fn removing_takes_one_account_away(saved: AccountsModel, key: Seq<char>, now: Timestamp)
    requires
        keys_distinct(saved.accounts),
        has_key(saved.accounts, key),
    ensures
        keys_distinct(removed_from(saved, key, now).accounts),
        account_map(removed_from(saved, key, now).accounts) == account_map(saved.accounts).remove(
            key,
        ),
        forall|other: EntryModel|
            other.key != key && (saved.active == Some(key) ==> removed_from(saved, key, now).active
                != Some(other.key)) ==> (#[trigger] removed_from(saved, key, now).accounts.contains(
                other,
            ) <==> saved.accounts.contains(other)),
        saved.active == Some(key) && saved.accounts.len() > 1 ==> removed_from(
            saved,
            key,
            now,
        ).accounts.contains(successor(saved, key, now)),
{
    first_is_found(saved.accounts, key);
    let at = first_with_key(saved.accounts, key);
    let rest = saved.accounts.remove(at);
    removing_one(saved.accounts, at);
    if saved.active != Some(key) {
        display_order_keeps_keys_distinct(rest, saved.active);
        display_order_keeps_accounts(rest, saved.active);
    } else if rest.len() > 0 {
        let left = successor_is_left(saved, key, now);
        let replacement = successor(saved, key, now);
        replacing_keeps_accounts(rest, left, replacement);
        let replaced = with_replacement(rest, replacement);
        display_order_keeps_keys_distinct(replaced, Some(replacement.key));
        display_order_keeps_accounts(replaced, Some(replacement.key));
        display_order_is_a_permutation(replaced, Some(replacement.key));
        assert(replaced[left] == replacement);
    }
    let after = removed_from(saved, key, now);
    assert forall|other: EntryModel|
        other.key != key && (saved.active == Some(key) ==> after.active != Some(
            other.key,
        )) implies (#[trigger] after.accounts.contains(other) <==> saved.accounts.contains(
        other,
    )) by {
        remove_keeps_others(saved.accounts, at, other);
        if saved.active != Some(key) {
            display_order_is_a_permutation(rest, saved.active);
        } else if rest.len() > 0 {
            let left = successor_is_left(saved, key, now);
            update_keeps_others(rest, left, successor(saved, key, now), other);
        }
    }
}

/// Removing an account that was just saved under a new key undoes the saving,
/// as far as the accounts go.
pub proof fn removing_undoes_saving(
    saved: AccountsModel,
    key: Seq<char>,
    label: Seq<char>,
    auth_mode: ApiAuthMode,
    auth: AuthModel,
    saved_at: Timestamp,
    removed_at: Timestamp,
)
    requires
        keys_distinct(saved.accounts),
        !has_key(saved.accounts, key),
    ensures
        account_map(
            removed_from(
                saved_under(saved, key, label, auth_mode, auth, saved_at),
                key,
                removed_at,
            ).accounts,
        ) == account_map(saved.accounts),
{
    let after = saved_under(saved, key, label, auth_mode, auth, saved_at);
    saving_replaces_one_account(saved, key, label, auth_mode, auth, saved_at);
    assert(account_map(after.accounts).contains_key(key));
    removing_takes_one_account_away(after, key, removed_at);
    assert(account_map(after.accounts).remove(key) =~= account_map(saved.accounts));
}

/// Whether the accounts stand in display order.
pub open spec fn is_in_display_order(saved: AccountsModel) -> bool {
    saved.accounts == display_order(saved.accounts, saved.active)
}

/// A usable file stays usable when an account is saved, and the accounts then
/// stand in display order.
pub proof fn saving_leaves_a_usable_file(
    saved: AccountsModel,
    key: Seq<char>,
    label: Seq<char>,
    auth_mode: ApiAuthMode,
    auth: AuthModel,
    now: Timestamp,
)
    requires
        is_usable(saved),
    ensures
        is_usable(saved_under(saved, key, label, auth_mode, auth, now)),
        is_in_display_order(saved_under(saved, key, label, auth_mode, auth, now)),
{
    let others = saved.accounts.filter(|entry: EntryModel| entry.key != key);
    let entry = EntryModel { key, label, auth_mode, auth, updated_at: now };
    let more = others.push(entry);
    assert(more[others.len() as int].key == key);
    assert(has_key(more, key));
    display_order_keeps_has_key(more, Some(key), key);
    display_order_is_idempotent(more, Some(key));
}

/// A usable file stays usable when another account becomes active, and the
/// accounts then stand in display order.
pub proof fn switching_leaves_a_usable_file(saved: AccountsModel, key: Seq<char>, now: Timestamp)
    requires
        is_usable(saved),
        has_key(saved.accounts, key),
    ensures
        is_usable(switched_to(saved, key, now)),
        is_in_display_order(switched_to(saved, key, now)),
{
    first_is_found(saved.accounts, key);
    let at = first_with_key(saved.accounts, key);
    let entry = EntryModel { updated_at: now, ..saved.accounts[at] };
    let more = saved.accounts.remove(at).push(entry);
    assert(more[more.len() - 1].key == key);
    assert(has_key(more, key));
    display_order_keeps_has_key(more, Some(key), key);
    display_order_is_idempotent(more, Some(key));
}

/// A usable file stays usable when an account is removed, and the accounts then
/// stand in display order.
pub proof fn removing_leaves_a_usable_file(saved: AccountsModel, key: Seq<char>, now: Timestamp)
    requires
        is_usable(saved),
        has_key(saved.accounts, key),
    ensures
        is_usable(removed_from(saved, key, now)),
        is_in_display_order(removed_from(saved, key, now)),
{
    first_is_found(saved.accounts, key);
    let at = first_with_key(saved.accounts, key);
    let rest = saved.accounts.remove(at);
    if saved.active != Some(key) {
        if saved.active is Some {
            let active = saved.active->0;
            first_is_found(saved.accounts, active);
            let a = first_with_key(saved.accounts, active);
            let i = if a < at {
                a
            } else {
                a - 1
            };
            assert(rest[i] == saved.accounts[a]);
            assert(has_key(rest, active));
            display_order_keeps_has_key(rest, saved.active, active);
        }
        display_order_is_idempotent(rest, saved.active);
    } else if rest.len() == 0 {
        display_order_is_a_permutation(rest, None);
        assert(display_order(rest, None) =~= rest);
    } else {
        let ordered = display_order(rest, saved.active);
        display_order_is_a_permutation(rest, saved.active);
        assert(ordered.contains(ordered[0]));
        let left = choose|i: int| 0 <= i < rest.len() && rest[i] == ordered[0];
        let replacement = successor(saved, key, now);
        let replaced = with_replacement(rest, replacement);
        assert(replaced[left].key == replacement.key);
        assert(has_key(replaced, replacement.key));
        display_order_keeps_has_key(replaced, Some(replacement.key), replacement.key);
        display_order_is_idempotent(replaced, Some(replacement.key));
    }
}

/// After an account was saved, one is active.
pub proof fn saving_leaves_an_active_account(
    saved: AccountsModel,
    key: Seq<char>,
    label: Seq<char>,
    auth_mode: ApiAuthMode,
    auth: AuthModel,
    now: Timestamp,
)
    ensures
        saved_under(saved, key, label, auth_mode, auth, now).active is Some,
        has_active_account(saved_under(saved, key, label, auth_mode, auth, now)),
{
}

/// After a switch, an account is active.
pub proof fn switching_leaves_an_active_account(
    saved: AccountsModel,
    key: Seq<char>,
    now: Timestamp,
)
    ensures
        switched_to(saved, key, now).active is Some,
        has_active_account(switched_to(saved, key, now)),
{
}

/// Where an account was active, one of those that a removal leaves is active,
/// if it leaves any.
pub proof fn removing_leaves_an_active_account(
    saved: AccountsModel,
    key: Seq<char>,
    now: Timestamp,
)
    requires
        has_active_account(saved),
        has_key(saved.accounts, key),
    ensures
        has_active_account(removed_from(saved, key, now)),
{
    first_is_found(saved.accounts, key);
}

/// Something that is done to the saved accounts.
pub enum OperationModel {
    Save {
        key: Seq<char>,
        label: Seq<char>,
        auth_mode: ApiAuthMode,
        auth: AuthModel,
        now: Timestamp,
    },
    Switch { key: Seq<char>, now: Timestamp },
    Remove { key: Seq<char>, now: Timestamp },
    Round { arrivals: Seq<ArrivalModel> },
}

/// The saved accounts after an operation. One on an account that is not saved,
/// or a round with statuses that are not its own, changes nothing.
pub open spec fn after_operation(saved: AccountsModel, operation: OperationModel) -> AccountsModel {
    match operation {
        OperationModel::Save { key, label, auth_mode, auth, now } => saved_under(
            saved,
            key,
            label,
            auth_mode,
            auth,
            now,
        ),
        OperationModel::Switch { key, now } => if has_key(saved.accounts, key) {
            switched_to(saved, key, now)
        } else {
            saved
        },
        OperationModel::Remove { key, now } => if has_key(saved.accounts, key) {
            removed_from(saved, key, now)
        } else {
            saved
        },
        OperationModel::Round { arrivals } => if new_round(saved).are_answers(arrivals) {
            new_round(saved).with_all(arrivals).file_to_write()
        } else {
            saved
        },
    }
}

/// The saved accounts after operations, one after the other.
pub open spec fn after_operations(
    saved: AccountsModel,
    operations: Seq<OperationModel>,
) -> AccountsModel
    decreases operations.len(),
{
    if operations.len() == 0 {
        saved
    } else {
        after_operation(after_operations(saved, operations.drop_last()), operations.last())
    }
}

/// Whatever was saved, switched to and removed, and whatever rounds were made
/// for statuses, since nothing was saved: the file is usable and reads back as
/// it was written, no two accounts have the same key, they stand in display
/// order, and one is active if there is any.
pub proof fn any_operations_leave_a_sound_file(operations: Seq<OperationModel>)
    ensures
        ({
            let saved = after_operations(empty_accounts(), operations);
            &&& is_usable(saved)
            &&& accounts_from(Some(saved)) == saved
            &&& keys_distinct(saved.accounts)
            &&& is_in_display_order(saved)
            &&& has_active_account(saved)
        }),
    decreases operations.len(),
{
    if operations.len() == 0 {
        a_new_file_is_usable();
    } else {
        any_operations_leave_a_sound_file(operations.drop_last());
        let saved = after_operations(empty_accounts(), operations.drop_last());
        match operations.last() {
            OperationModel::Save { key, label, auth_mode, auth, now } => {
                saving_leaves_a_usable_file(saved, key, label, auth_mode, auth, now);
                saving_replaces_one_account(saved, key, label, auth_mode, auth, now);
                saving_leaves_an_active_account(saved, key, label, auth_mode, auth, now);
            },
            OperationModel::Switch { key, now } => {
                if has_key(saved.accounts, key) {
                    switching_leaves_a_usable_file(saved, key, now);
                    switching_keeps_accounts(saved, key, now);
                    switching_leaves_an_active_account(saved, key, now);
                }
            },
            OperationModel::Remove { key, now } => {
                if has_key(saved.accounts, key) {
                    removing_leaves_a_usable_file(saved, key, now);
                    removing_takes_one_account_away(saved, key, now);
                    removing_leaves_an_active_account(saved, key, now);
                }
            },
            OperationModel::Round { arrivals } => {
                if new_round(saved).are_answers(arrivals) {
                    let after = new_round(saved).with_all(arrivals);
                    a_round_changes_credentials_alone(saved, arrivals, seq![]);
                    a_round_reads_back(Some(saved), arrivals);
                    what_is_read_is_usable(Some(after.file_to_write()));
                    display_order_is_idempotent(after.saved.accounts, after.saved.active);
                }
            },
        }
    }
}

/// Whatever the file held that was read, what is written after an account was
/// saved reads back as it was written.
pub proof fn a_saved_account_reads_back(
    contents: Option<AccountsModel>,
    key: Seq<char>,
    label: Seq<char>,
    auth_mode: ApiAuthMode,
    auth: AuthModel,
    now: Timestamp,
)
    ensures
        ({
            let written = saved_under(accounts_from(contents), key, label, auth_mode, auth, now);
            accounts_from(Some(written)) == written
        }),
{
    saving_leaves_a_usable_file(accounts_from(contents), key, label, auth_mode, auth, now);
}

/// Whatever the file held that was read, what is written after a switch reads
/// back as it was written.
pub proof fn a_switch_reads_back(contents: Option<AccountsModel>, key: Seq<char>, now: Timestamp)
    requires
        has_key(accounts_from(contents).accounts, key),
    ensures
        ({
            let written = switched_to(accounts_from(contents), key, now);
            accounts_from(Some(written)) == written
        }),
{
    switching_leaves_a_usable_file(accounts_from(contents), key, now);
}

/// Whatever the file held that was read, what is written after a removal reads
/// back as it was written.
pub proof fn a_removal_reads_back(contents: Option<AccountsModel>, key: Seq<char>, now: Timestamp)
    requires
        has_key(accounts_from(contents).accounts, key),
    ensures
        ({
            let written = removed_from(accounts_from(contents), key, now);
            accounts_from(Some(written)) == written
        }),
{
    removing_leaves_a_usable_file(accounts_from(contents), key, now);
}

/// The list of accounts has one summary for each of them. Where the accounts
/// stand in display order, it lists them as they stand.
pub proof fn listing_follows_display_order(saved: AccountsModel)
    ensures
        summaries_of(saved).len() == saved.accounts.len(),
        is_in_display_order(saved) ==> summaries_of(saved) == saved.accounts.map_values(
            |entry: EntryModel| summary_of(entry, saved.active),
        ),
{
    display_order_is_a_permutation(saved.accounts, saved.active);
}

/// The active account is listed first. Where no two entries have the same key,
/// no other is listed as active. Without an active account, none is.
pub proof fn the_active_account_is_listed_first(saved: AccountsModel)
    requires
        active_is_saved(saved),
    ensures
        saved.active matches Some(key) ==> summaries_of(saved).len() > 0 && summaries_of(
            saved,
        )[0].key == key && summaries_of(saved)[0].is_active,
        saved.active is Some && keys_distinct(saved.accounts) ==> forall|i: int|
            0 <= i < summaries_of(saved).len() ==> (#[trigger] summaries_of(saved)[i]).is_active
                == (i == 0),
        saved.active is None ==> forall|i: int|
            0 <= i < summaries_of(saved).len() ==> !(#[trigger] summaries_of(saved)[i]).is_active,
{
    let ordered = display_order(saved.accounts, saved.active);
    display_order_is_determined(saved.accounts, saved.active, ordered);
    if saved.active is Some {
        let key = saved.active->0;
        display_order_keeps_has_key(saved.accounts, saved.active, key);
        let at = choose|i: int| 0 <= i < ordered.len() && (#[trigger] ordered[i]).key == key;
        if at > 0 {
            assert(!ranks_before(ordered[at], ordered[0], saved.active));
        }
        if keys_distinct(saved.accounts) {
            display_order_keeps_keys_distinct(saved.accounts, saved.active);
            assert forall|i: int| 0 <= i < summaries_of(saved).len() implies (
            #[trigger] summaries_of(saved)[i]).is_active == (i == 0) by {
                if i > 0 {
                    assert(ordered[0].key != ordered[i].key);
                }
            }
        }
    }
}

/// The accounts that are not active are listed by when they were last used,
/// the latest first.
pub proof fn others_are_listed_by_last_use(saved: AccountsModel, i: int, j: int)
    requires
        0 <= i < j < saved.accounts.len(),
        !summaries_of(saved)[i].is_active,
        !summaries_of(saved)[j].is_active,
    ensures
        ({
            let ordered = display_order(saved.accounts, saved.active);
            !ordered[i].updated_at.earlier_than(ordered[j].updated_at)
        }),
{
    let ordered = display_order(saved.accounts, saved.active);
    display_order_is_determined(saved.accounts, saved.active, ordered);
    display_order_is_a_permutation(saved.accounts, saved.active);
    assert(!ranks_before(ordered[j], ordered[i], saved.active));
}

/// An account that was just saved is the active one, and is listed first.
pub proof fn a_saved_account_is_listed_first(
    saved: AccountsModel,
    key: Seq<char>,
    label: Seq<char>,
    auth_mode: ApiAuthMode,
    auth: AuthModel,
    now: Timestamp,
)
    ensures
        ({
            let listed = summaries_of(saved_under(saved, key, label, auth_mode, auth, now));
            listed.len() > 0 && listed[0] == (SummaryModel {
                key,
                label,
                auth_mode,
                is_active: true,
            })
        }),
{
    let after = saved_under(saved, key, label, auth_mode, auth, now);
    let others = saved.accounts.filter(|entry: EntryModel| entry.key != key);
    let entry = EntryModel { key, label, auth_mode, auth, updated_at: now };
    let more = others.push(entry);
    others_are_kept(saved.accounts, key);
    assert(more[others.len() as int].key == key);
    assert(has_key(more, key));
    display_order_keeps_has_key(more, Some(key), key);
    the_active_account_is_listed_first(after);
    // No other entry has the key.
    let ordered = display_order(after.accounts, after.active);
    display_order_is_a_permutation(more, Some(key));
    display_order_is_a_permutation(after.accounts, after.active);
    assert(ordered.contains(ordered[0]));
    assert(after.accounts.contains(ordered[0]));
    let i = choose|i: int| 0 <= i < more.len() && more[i] == ordered[0];
    if i < others.len() {
        assert(others.contains(others[i]));
    }
}

/// An account that was switched to is the active one, and is listed first.
pub proof fn the_account_switched_to_is_listed_first(
    saved: AccountsModel,
    key: Seq<char>,
    now: Timestamp,
)
    requires
        keys_distinct(saved.accounts),
        has_key(saved.accounts, key),
    ensures
        ({
            let listed = summaries_of(switched_to(saved, key, now));
            let account = account_map(saved.accounts)[key];
            listed.len() > 0 && listed[0] == (SummaryModel {
                key,
                label: account.label,
                auth_mode: account.auth_mode,
                is_active: true,
            })
        }),
{
    let after = switched_to(saved, key, now);
    switching_keeps_accounts(saved, key, now);
    assert(account_map(after.accounts).contains_key(key));
    the_active_account_is_listed_first(after);
    let ordered = display_order(after.accounts, after.active);
    display_order_keeps_keys_distinct(after.accounts, after.active);
    display_order_keeps_accounts(after.accounts, after.active);
    assert(ordered.contains(ordered[0]));
    entry_is_in_map(ordered, ordered[0]);
}

/// Removing an account that is not active leaves the active one as it was.
pub proof fn removing_an_inactive_account_keeps_the_active_one(
    saved: AccountsModel,
    key: Seq<char>,
    now: Timestamp,
)
    requires
        has_key(saved.accounts, key),
        saved.active != Some(key),
    ensures
        removed_from(saved, key, now).active == saved.active,
        removal_of(saved, key, now) is Inactive,
{
}

/// Removing the active account makes that one active, of those that are left,
/// which was used last. Its credentials and its summary are reported.
pub proof fn removing_the_active_account_passes_on_to_the_last_used(
    saved: AccountsModel,
    key: Seq<char>,
    now: Timestamp,
    i: int,
)
    requires
        keys_distinct(saved.accounts),
        has_key(saved.accounts, key),
        saved.active == Some(key),
        saved.accounts.len() > 1,
        0 <= i < saved.accounts.len(),
        saved.accounts[i].key != key,
    ensures
        ({
            let after = removed_from(saved, key, now);
            &&& after.active matches Some(next)
            &&& next != key
            &&& has_key(saved.accounts, next)
            &&& !saved.accounts[first_with_key(saved.accounts, next)].updated_at.earlier_than(
                saved.accounts[i].updated_at,
            )
            &&& removal_of(saved, key, now) matches RemovalModel::ActiveSwitched {
                replacement,
                replacement_auth,
                ..
            }
            &&& replacement == summaries_of(after)[0]
            &&& replacement_auth == account_map(saved.accounts)[next].auth
        }),
{
    first_is_found(saved.accounts, key);
    let at = first_with_key(saved.accounts, key);
    let rest = saved.accounts.remove(at);
    removing_one(saved.accounts, at);
    let left = successor_is_left(saved, key, now);
    let replacement = successor(saved, key, now);
    let ordered = display_order(rest, saved.active);
    display_order_is_determined(rest, saved.active, ordered);
    display_order_is_a_permutation(rest, saved.active);
    // The successor was used last.
    let place = if left < at {
        left
    } else {
        left + 1
    };
    assert(saved.accounts[place] == rest[left]);
    only_one_is_first(saved.accounts, place);
    assert(rest[left].key != key);
    let there = if i < at {
        i
    } else {
        i - 1
    };
    assert(rest[there] == saved.accounts[i]);
    assert(rest.contains(rest[there]));
    assert(ordered.contains(rest[there]));
    let k = choose|k: int| 0 <= k < ordered.len() && ordered[k] == rest[there];
    if k > 0 {
        assert(!ranks_before(ordered[k], ordered[0], saved.active));
    }
    // It is what is reported.
    let after = removed_from(saved, key, now);
    removing_takes_one_account_away(saved, key, now);
    assert(account_map(saved.accounts).contains_key(replacement.key));
    assert(account_map(after.accounts).contains_key(replacement.key));
    the_active_account_is_listed_first(after);
    let listed = display_order(after.accounts, after.active);
    display_order_keeps_keys_distinct(after.accounts, after.active);
    display_order_keeps_accounts(after.accounts, after.active);
    assert(listed.contains(listed[0]));
    entry_is_in_map(listed, listed[0]);
    assert(saved.accounts.contains(saved.accounts[place]));
    entry_is_in_map(saved.accounts, saved.accounts[place]);
}

/// Removing the only account, when it is active, leaves none, and none active.
pub proof fn removing_the_last_account_leaves_none(
    saved: AccountsModel,
    key: Seq<char>,
    now: Timestamp,
)
    requires
        saved.accounts.len() == 1,
        has_key(saved.accounts, key),
        saved.active == Some(key),
    ensures
        removed_from(saved, key, now).accounts.len() == 0,
        removed_from(saved, key, now).active is None,
        removal_of(saved, key, now) is LastActive,
        summaries_of(removed_from(saved, key, now)).len() == 0,
{
    first_is_found(saved.accounts, key);
    listing_follows_display_order(removed_from(saved, key, now));
}

/// The peers of an entry among those that are kept are those of its peers that
/// are kept.
proof fn peers_of_kept(
    accounts: Seq<EntryModel>,
    entry: EntryModel,
    active: Option<Seq<char>>,
    key: Seq<char>,
)
    ensures
        peers(accounts.filter(|e: EntryModel| e.key != key), entry, active) == peers(
            accounts,
            entry,
            active,
        ).filter(|e: EntryModel| e.key != key),
    decreases accounts.len(),
{
    reveal(Seq::filter);
    let keep = |e: EntryModel| e.key != key;
    let tie = |e: EntryModel| ranks_with(e, entry, active);
    if accounts.len() > 0 {
        let rest = accounts.drop_last();
        let last = accounts.last();
        peers_of_kept(rest, entry, active, key);
        assert(rest.filter(keep).push(last).drop_last() =~= rest.filter(keep));
        assert(rest.filter(tie).push(last).drop_last() =~= rest.filter(tie));
    }
}

/// Filtering twice for other keys is the same as once.
proof fn kept_twice(accounts: Seq<EntryModel>, key: Seq<char>)
    ensures
        ({
            let kept = accounts.filter(|e: EntryModel| e.key != key);
            kept.filter(|e: EntryModel| e.key != key) == kept
        }),
    decreases accounts.len(),
{
    reveal(Seq::filter);
    let keep = |e: EntryModel| e.key != key;
    if accounts.len() > 0 {
        let kept = accounts.drop_last().filter(keep);
        kept_twice(accounts.drop_last(), key);
        assert(kept.push(accounts.last()).drop_last() =~= kept);
    }
}

/// Of two savings under the same key, one after the other, only the second
/// counts.
pub proof fn the_last_saving_counts(
    saved: AccountsModel,
    key: Seq<char>,
    first: EntryModel,
    second: EntryModel,
)
    requires
        first.key == key,
        second.key == key,
    ensures
        ({
            let once = saved_under(
                saved,
                key,
                first.label,
                first.auth_mode,
                first.auth,
                first.updated_at,
            );
            saved_under(
                once,
                key,
                second.label,
                second.auth_mode,
                second.auth,
                second.updated_at,
            ) == saved_under(
                saved,
                key,
                second.label,
                second.auth_mode,
                second.auth,
                second.updated_at,
            )
        }),
{
    reveal(Seq::filter);
    let active = Some(key);
    let keep = |e: EntryModel| e.key != key;
    let others = saved.accounts.filter(keep);
    let ordered = display_order(others.push(first), active);
    let again = ordered.filter(keep);
    display_order_is_determined(others.push(first), active, ordered);
    let wanted = display_order(others.push(second), active);
    display_order_is_determined(others.push(second), active, wanted);
    assert(is_display_order(again.push(second), active, wanted)) by {
        assert forall|entry: EntryModel| #[trigger]
            peers(wanted, entry, active) == peers(again.push(second), entry, active) by {
            let tie = |e: EntryModel| ranks_with(e, entry, active);
            assert(peers(wanted, entry, active) == peers(others.push(second), entry, active));
            assert(peers(ordered, entry, active) == peers(others.push(first), entry, active));
            // The same entries are kept before the second one is added.
            peers_of_kept(ordered, entry, active, key);
            peers_of_kept(others.push(first), entry, active, key);
            assert(others.push(first).drop_last() =~= others);
            kept_twice(saved.accounts, key);
            assert(others.push(first).filter(keep) == others);
            assert(again.push(second).drop_last() =~= again);
            assert(others.push(second).drop_last() =~= others);
            assert(again.filter(tie) == others.filter(tie));
            assert(again.push(second).filter(tie) == others.push(second).filter(tie));
        }
    }
    display_order_is_determined(again.push(second), active, wanted);
}

/// Each summary shows the entry in its place: its key, its label and how it
/// signs in, and that it is active if, and only if, its key is the active one.
pub proof fn summaries_show_the_entries(saved: AccountsModel, i: int)
    requires
        0 <= i < saved.accounts.len(),
    ensures
        ({
            let entry = display_order(saved.accounts, saved.active)[i];
            let summary = summaries_of(saved)[i];
            &&& summary.key == entry.key
            &&& summary.label == entry.label
            &&& summary.auth_mode == entry.auth_mode
            &&& summary.is_active <==> saved.active == Some(entry.key)
        }),
{
    display_order_is_a_permutation(saved.accounts, saved.active);
}

/// Reading keeps every entry, in whatever version the file was written. It
/// keeps the active key if some entry has it, and drops it if none does.
pub proof fn reading_keeps_the_entries(file: AccountsModel)
    ensures
        accounts_from(Some(file)).accounts == file.accounts,
        match file.active {
            Some(key) => if exists|i: int|
                0 <= i < file.accounts.len() && (#[trigger] file.accounts[i]).key == key {
                accounts_from(Some(file)).active == Some(key)
            } else {
                accounts_from(Some(file)).active is None
            },
            None => accounts_from(Some(file)).active is None,
        },
        accounts_from(None).accounts.len() == 0,
        accounts_from(None).active is None,
{
}

/// How often an entry occurs among those that are kept.
proof fn kept_entries_occur_as_often(
    accounts: Seq<EntryModel>,
    key: Seq<char>,
    entry: EntryModel,
)
    ensures
        accounts.filter(|e: EntryModel| e.key != key).to_multiset().count(entry) == if entry.key
            == key {
            0
        } else {
            accounts.to_multiset().count(entry)
        },
    decreases accounts.len(),
{
    broadcast use vstd::seq_lib::group_to_multiset_ensures;

    reveal(Seq::filter);
    if accounts.len() > 0 {
        let rest = accounts.drop_last();
        kept_entries_occur_as_often(rest, key, entry);
        assert(accounts =~= rest.push(accounts.last()));
        assert(accounts.to_multiset() =~= rest.to_multiset().insert(accounts.last()));
        let kept = rest.filter(|e: EntryModel| e.key != key);
        assert(kept.push(accounts.last()).to_multiset() =~= kept.to_multiset().insert(
            accounts.last(),
        ));
    }
}

/// Saving leaves exactly one entry under the key: the one that was saved, used
/// now. Every other entry occurs as often as before. The key is the active one,
/// and the entries stand in display order.
pub proof fn saving_leaves_one_entry_under_the_key(
    saved: AccountsModel,
    key: Seq<char>,
    label: Seq<char>,
    auth_mode: ApiAuthMode,
    auth: AuthModel,
    now: Timestamp,
    other: EntryModel,
)
    ensures
        ({
            let after = saved_under(saved, key, label, auth_mode, auth, now);
            let entry = EntryModel { key, label, auth_mode, auth, updated_at: now };
            &&& after.active == Some(key)
            &&& after.version == saved.version
            &&& after.accounts.to_multiset().count(entry) == 1
            &&& other.key == key && other != entry ==> after.accounts.to_multiset().count(other)
                == 0
            &&& other.key != key ==> after.accounts.to_multiset().count(other)
                == saved.accounts.to_multiset().count(other)
            &&& is_in_display_order(after)
        }),
{
    broadcast use vstd::seq_lib::group_to_multiset_ensures;

    let others = saved.accounts.filter(|e: EntryModel| e.key != key);
    let entry = EntryModel { key, label, auth_mode, auth, updated_at: now };
    kept_entries_occur_as_often(saved.accounts, key, entry);
    kept_entries_occur_as_often(saved.accounts, key, other);
    display_order_is_a_permutation(others.push(entry), Some(key));
    display_order_is_idempotent(others.push(entry), Some(key));
    assert(others.push(entry).to_multiset() =~= others.to_multiset().insert(entry));
}

/// Saving keeps the order of other entries that nothing tells apart.
pub proof fn saving_keeps_the_order_of_ties(
    saved: AccountsModel,
    key: Seq<char>,
    label: Seq<char>,
    auth_mode: ApiAuthMode,
    auth: AuthModel,
    now: Timestamp,
    entry: EntryModel,
)
    requires
        entry.key != key,
    ensures
        ({
            let after = saved_under(saved, key, label, auth_mode, auth, now);
            let ties = |other: EntryModel|
                other.key != key && other.updated_at == entry.updated_at && other.label
                    == entry.label;
            after.accounts.filter(ties) == saved.accounts.filter(ties)
        }),
{
    reveal(Seq::filter);
    let active = Some(key);
    let ties = |other: EntryModel|
        other.key != key && other.updated_at == entry.updated_at && other.label == entry.label;
    let ranked = |other: EntryModel| ranks_with(other, entry, active);
    assert(ties =~= ranked);
    let others = saved.accounts.filter(|e: EntryModel| e.key != key);
    let saved_entry = EntryModel { key, label, auth_mode, auth, updated_at: now };
    let more = others.push(saved_entry);
    let after = display_order(more, active);
    display_order_is_determined(more, active, after);
    assert(peers(after, entry, active) == peers(more, entry, active));
    assert(more.drop_last() =~= others);
    peers_of_kept(saved.accounts, entry, active, key);
    all_are_kept(saved.accounts.filter(ties), key);
}

/// Nothing is left out of entries that all have other keys.
proof fn all_are_kept(accounts: Seq<EntryModel>, key: Seq<char>)
    ensures
        (forall|i: int| 0 <= i < accounts.len() ==> (#[trigger] accounts[i]).key != key)
            ==> accounts.filter(|e: EntryModel| e.key != key) == accounts,
    decreases accounts.len(),
{
    reveal(Seq::filter);
    if accounts.len() > 0 {
        let rest = accounts.drop_last();
        all_are_kept(rest, key);
        assert forall|i: int| 0 <= i < rest.len() implies rest[i] == accounts[i] by {}
        assert(accounts =~= rest.push(accounts.last()));
    }
}

/// A switch counts as a use: the entry with the key was last used now, and is
/// otherwise what it was. Every other entry occurs as often as before. The key
/// is the active one, and the entries stand in display order.
pub proof fn a_switch_counts_as_a_use(
    saved: AccountsModel,
    key: Seq<char>,
    now: Timestamp,
    i: int,
    other: EntryModel,
)
    requires
        is_first_with_key(saved.accounts, key, i),
    ensures
        ({
            let after = switched_to(saved, key, now);
            let before = saved.accounts[i];
            let used = EntryModel {
                key,
                label: before.label,
                auth_mode: before.auth_mode,
                auth: before.auth,
                updated_at: now,
            };
            &&& after.active == Some(key)
            &&& after.version == saved.version
            &&& after.accounts.contains(used)
            &&& after.accounts.to_multiset() == saved.accounts.to_multiset().remove(before).insert(
                used,
            )
            &&& keys_distinct(saved.accounts) && after.accounts.contains(other) && other.key == key
                ==> other == used
            &&& is_in_display_order(after)
            &&& after.accounts == display_order(saved.accounts.remove(i).push(used), Some(key))
        }),
{
    broadcast use vstd::seq_lib::group_to_multiset_ensures;

    first_is_unique(saved.accounts, key, i);
    let before = saved.accounts[i];
    let used = EntryModel { updated_at: now, ..before };
    let rest = saved.accounts.remove(i);
    let more = rest.push(used);
    let after = display_order(more, Some(key));
    display_order_is_a_permutation(more, Some(key));
    display_order_is_idempotent(more, Some(key));
    assert(rest.to_multiset() =~= saved.accounts.to_multiset().remove(before));
    assert(more.to_multiset() =~= rest.to_multiset().insert(used));
    assert(more[rest.len() as int] == used);
    assert(more.contains(used));
    if keys_distinct(saved.accounts) && after.contains(other) && other.key == key {
        removing_one(saved.accounts, i);
        let k = choose|k: int| 0 <= k < more.len() && more[k] == other;
        if k < rest.len() {
            assert(rest[k].key == key);
        }
    }
}

/// After a switch to one account and then to another, the first of the two is
/// listed before every account that was last used before the switch to it.
pub proof fn accounts_are_listed_by_the_switches_to_them(
    saved: AccountsModel,
    first: Seq<char>,
    first_at: Timestamp,
    second: Seq<char>,
    second_at: Timestamp,
    other: int,
    i: int,
    j: int,
)
    requires
        keys_distinct(saved.accounts),
        has_key(saved.accounts, first),
        has_key(saved.accounts, second),
        first != second,
        0 <= other < saved.accounts.len(),
        saved.accounts[other].key != first,
        saved.accounts[other].key != second,
        saved.accounts[other].updated_at.earlier_than(first_at),
    ensures
        ({
            let listed = summaries_of(
                switched_to(switched_to(saved, first, first_at), second, second_at),
            );
            &&& listed.len() == saved.accounts.len()
            &&& listed[0].key == second
            &&& 0 <= i < listed.len() && 0 <= j < listed.len() && listed[i].key == first
                && listed[j].key == saved.accounts[other].key ==> i < j
        }),
{
    let once = switched_to(saved, first, first_at);
    let twice = switched_to(once, second, second_at);
    let entry = saved.accounts[other];
    assert(saved.accounts.contains(entry));
    first_is_found(saved.accounts, first);
    let at = first_with_key(saved.accounts, first);
    switching_keeps_accounts(saved, first, first_at);
    assert(account_map(once.accounts).contains_key(second)) by {
        assert(account_map(saved.accounts).contains_key(second));
    }
    switching_keeps_accounts(once, second, second_at);
    let used = EntryModel { updated_at: first_at, ..saved.accounts[at] };
    a_switch_counts_as_a_use(saved, first, first_at, at, used);
    assert(once.accounts.contains(used));
    assert(once.accounts.contains(entry));
    assert(twice.accounts.contains(used));
    assert(twice.accounts.contains(entry));
    the_account_switched_to_is_listed_first(once, second, second_at);
    let ordered = display_order(twice.accounts, twice.active);
    let listed = summaries_of(twice);
    display_order_is_a_permutation(twice.accounts, twice.active);
    display_order_keeps_keys_distinct(twice.accounts, twice.active);
    switched_list_is_as_long(saved, first, first_at);
    switched_list_is_as_long(once, second, second_at);
    if 0 <= i < listed.len() && 0 <= j < listed.len() && listed[i].key == first && listed[j].key
        == entry.key {
        assert(ordered.contains(used));
        assert(ordered.contains(entry));
        let a = choose|a: int| 0 <= a < ordered.len() && ordered[a] == used;
        let b = choose|b: int| 0 <= b < ordered.len() && ordered[b] == entry;
        only_one_is_first(ordered, a);
        only_one_is_first(ordered, i);
        only_one_is_first(ordered, b);
        only_one_is_first(ordered, j);
        if j < i {
            entries_stand_by_activity_use_and_label(twice.accounts, twice.active, j, i);
        }
    }
}

/// A switch changes nothing in how many entries there are.
proof fn switched_list_is_as_long(saved: AccountsModel, key: Seq<char>, now: Timestamp)
    requires
        has_key(saved.accounts, key),
    ensures
        switched_to(saved, key, now).accounts.len() == saved.accounts.len(),
{
    first_is_found(saved.accounts, key);
    let at = first_with_key(saved.accounts, key);
    let entry = EntryModel { updated_at: now, ..saved.accounts[at] };
    display_order_is_a_permutation(saved.accounts.remove(at).push(entry), Some(key));
}

/// After a switch to one account and then to another, removing the second makes
/// the first active again, where all others were last used before the switch
/// to it.
pub proof fn removing_goes_back_to_the_account_before(
    saved: AccountsModel,
    first: Seq<char>,
    first_at: Timestamp,
    second: Seq<char>,
    second_at: Timestamp,
    removed_at: Timestamp,
)
    requires
        keys_distinct(saved.accounts),
        has_key(saved.accounts, first),
        has_key(saved.accounts, second),
        first != second,
        forall|i: int|
            0 <= i < saved.accounts.len() && (#[trigger] saved.accounts[i]).key != first
                && saved.accounts[i].key != second ==> saved.accounts[i].updated_at.earlier_than(
                first_at,
            ),
    ensures
        removed_from(
            switched_to(switched_to(saved, first, first_at), second, second_at),
            second,
            removed_at,
        ).active == Some(first),
{
    let once = switched_to(saved, first, first_at);
    let twice = switched_to(once, second, second_at);
    first_is_found(saved.accounts, first);
    let at = first_with_key(saved.accounts, first);
    let used = EntryModel { updated_at: first_at, ..saved.accounts[at] };
    switching_keeps_accounts(saved, first, first_at);
    assert(account_map(once.accounts).contains_key(second)) by {
        assert(account_map(saved.accounts).contains_key(second));
    }
    switching_keeps_accounts(once, second, second_at);
    a_switch_counts_as_a_use(saved, first, first_at, at, used);
    assert(once.accounts.contains(used));
    assert(twice.accounts.contains(used));
    assert(account_map(twice.accounts).contains_key(second)) by {
        assert(account_map(saved.accounts).contains_key(second));
    }
    let i = choose|i: int| 0 <= i < twice.accounts.len() && twice.accounts[i] == used;
    first_is_found(twice.accounts, second);
    let two = first_with_key(twice.accounts, second);
    assert(twice.accounts.len() > 1) by {
        assert(i != two);
    }
    removing_the_active_account_passes_on_to_the_last_used(twice, second, removed_at, i);
    let next = removed_from(twice, second, removed_at).active->0;
    if next != first {
        first_is_found(twice.accounts, next);
        let k = first_with_key(twice.accounts, next);
        let entry = twice.accounts[k];
        assert(twice.accounts.contains(entry));
        assert(once.accounts.contains(entry));
        assert(saved.accounts.contains(entry));
        let m = choose|m: int| 0 <= m < saved.accounts.len() && saved.accounts[m] == entry;
        assert(saved.accounts[m].updated_at.earlier_than(first_at));
    }
}

/// Each entry with the key of a replacement becomes the replacement, and every
/// other stays where and what it was.
pub proof fn a_replacement_takes_the_place_of_its_key(
    accounts: Seq<EntryModel>,
    replacement: EntryModel,
    i: int,
)
    requires
        0 <= i < accounts.len(),
    ensures
        with_replacement(accounts, replacement).len() == accounts.len(),
        accounts[i].key == replacement.key ==> with_replacement(accounts, replacement)[i]
            == replacement,
        accounts[i].key != replacement.key ==> with_replacement(accounts, replacement)[i]
            == accounts[i],
{
}

/// Removing an account that is not active takes its entry away, once, and
/// nothing else. The other entries stay in display order.
pub proof fn removing_an_inactive_account_takes_one_entry_away(
    saved: AccountsModel,
    key: Seq<char>,
    now: Timestamp,
    i: int,
)
    requires
        is_first_with_key(saved.accounts, key, i),
        saved.active != Some(key),
    ensures
        ({
            let after = removed_from(saved, key, now);
            &&& after.active == saved.active
            &&& after.version == saved.version
            &&& after.accounts.to_multiset() == saved.accounts.to_multiset().remove(
                saved.accounts[i],
            )
            &&& is_in_display_order(after)
            &&& after.accounts == display_order(saved.accounts.remove(i), saved.active)
        }),
{
    broadcast use vstd::seq_lib::group_to_multiset_ensures;

    first_is_unique(saved.accounts, key, i);
    let rest = saved.accounts.remove(i);
    display_order_is_a_permutation(rest, saved.active);
    display_order_is_idempotent(rest, saved.active);
    assert(rest.to_multiset() =~= saved.accounts.to_multiset().remove(saved.accounts[i]));
}

/// There is no other first entry with a key.
pub proof fn first_is_unique(accounts: Seq<EntryModel>, key: Seq<char>, i: int)
    requires
        is_first_with_key(accounts, key, i),
    ensures
        has_key(accounts, key),
        first_with_key(accounts, key) == i,
{
    assert(accounts[i].key == key);
    first_is_found(accounts, key);
    let at = first_with_key(accounts, key);
    if at < i {
        assert(accounts[at].key != key);
    } else if i < at {
        assert(accounts[i].key != key);
    }
}

/// The account that takes over from the active one counts as used now, and is
/// otherwise what it was. Of those that were used last, it is the one whose
/// label comes first.
pub proof fn the_successor_counts_as_used_now(
    saved: AccountsModel,
    key: Seq<char>,
    now: Timestamp,
    i: int,
    other: EntryModel,
)
    requires
        keys_distinct(saved.accounts),
        has_key(saved.accounts, key),
        saved.active == Some(key),
        0 <= i < saved.accounts.len(),
        saved.accounts[i].key != key,
    ensures
        ({
            let after = removed_from(saved, key, now);
            &&& after.active matches Some(next)
            &&& has_key(saved.accounts, next)
            &&& {
                let before = saved.accounts[first_with_key(saved.accounts, next)];
                let used = EntryModel {
                    key: next,
                    label: before.label,
                    auth_mode: before.auth_mode,
                    auth: before.auth,
                    updated_at: now,
                };
                &&& after.version == saved.version
                &&& after.accounts.contains(used)
                &&& after.accounts.contains(other) && other.key == next ==> other == used
                &&& after.accounts.len() == saved.accounts.len() - 1
                &&& before.updated_at == saved.accounts[i].updated_at ==> !text_lt(
                    saved.accounts[i].label,
                    before.label,
                )
                &&& is_in_display_order(after)
            }
        }),
{
    first_is_found(saved.accounts, key);
    let at = first_with_key(saved.accounts, key);
    let rest = saved.accounts.remove(at);
    assert(saved.accounts.len() > 1) by {
        assert(at != i);
    }
    removing_one(saved.accounts, at);
    removing_the_active_account_passes_on_to_the_last_used(saved, key, now, i);
    let left = successor_is_left(saved, key, now);
    let replacement = successor(saved, key, now);
    let ordered = display_order(rest, saved.active);
    display_order_is_a_permutation(rest, saved.active);
    replacing_keeps_accounts(rest, left, replacement);
    let replaced = with_replacement(rest, replacement);
    let after = removed_from(saved, key, now).accounts;
    display_order_is_a_permutation(replaced, Some(replacement.key));
    display_order_is_idempotent(replaced, Some(replacement.key));
    display_order_keeps_keys_distinct(replaced, Some(replacement.key));
    let place = if left < at {
        left
    } else {
        left + 1
    };
    assert(saved.accounts[place] == rest[left]);
    only_one_is_first(saved.accounts, place);
    assert(replaced[left] == replacement);
    assert(replaced.contains(replacement));
    assert(after.contains(replacement));
    if after.contains(other) && other.key == replacement.key {
        entry_is_only_one(after, replacement, other);
    }
    let there = if i < at {
        i
    } else {
        i - 1
    };
    assert(rest[there] == saved.accounts[i]);
    assert(rest.contains(rest[there]));
    assert(ordered.contains(rest[there]));
    let k = choose|k: int| 0 <= k < ordered.len() && ordered[k] == rest[there];
    if k > 0 {
        entries_stand_by_activity_use_and_label(rest, saved.active, 0, k);
        assert(rest[left].key != key);
        assert(rest[there].key != key);
    } else {
        text_lt_irreflexive(rest[left].label);
    }
}

/// Where no two entries have the same key, one with a given key is the only
/// one.
proof fn entry_is_only_one(accounts: Seq<EntryModel>, a: EntryModel, b: EntryModel)
    requires
        keys_distinct(accounts),
        accounts.contains(a),
        accounts.contains(b),
        a.key == b.key,
    ensures
        a == b,
{
    let i = choose|i: int| 0 <= i < accounts.len() && accounts[i] == a;
    let j = choose|j: int| 0 <= j < accounts.len() && accounts[j] == b;
    only_one_is_first(accounts, i);
    only_one_is_first(accounts, j);
}

/// What a removal is reported as: the account that was removed, as it was; and
/// that it was not active, or that it was and another took over, or that it was
/// and none is left.
pub proof fn a_removal_is_reported_as_it_was(
    saved: AccountsModel,
    key: Seq<char>,
    now: Timestamp,
    i: int,
)
    requires
        is_first_with_key(saved.accounts, key, i),
    ensures
        ({
            let removed = match removal_of(saved, key, now) {
                RemovalModel::Inactive { removed } => removed,
                RemovalModel::ActiveSwitched { removed, .. } => removed,
                RemovalModel::LastActive { removed } => removed,
            };
            &&& removed.key == key
            &&& removed.label == saved.accounts[i].label
            &&& removed.auth_mode == saved.accounts[i].auth_mode
            &&& removed.is_active <==> saved.active == Some(key)
            &&& removal_of(saved, key, now) is Inactive <==> saved.active != Some(key)
            &&& removal_of(saved, key, now) is LastActive <==> saved.active == Some(key)
                && saved.accounts.len() == 1
        }),
{
    first_is_unique(saved.accounts, key, i);
}

/// An account is saved if, and only if, some entry has exactly its key, and the
/// first such entry is the one that counts.
pub proof fn accounts_are_found_by_their_exact_keys(
    accounts: Seq<EntryModel>,
    key: Seq<char>,
    i: int,
)
    ensures
        has_key(accounts, key) <==> exists|k: int|
            0 <= k < accounts.len() && (#[trigger] accounts[k]).key == key,
        0 <= i < accounts.len() && accounts[i].key == key && (forall|j: int|
            0 <= j < i ==> (#[trigger] accounts[j]).key != key) ==> first_with_key(accounts, key)
            == i,
{
    if 0 <= i < accounts.len() && accounts[i].key == key && (forall|j: int|
        0 <= j < i ==> (#[trigger] accounts[j]).key != key) {
        first_is_unique(accounts, key, i);
    }
}

/// When the active account is removed and others are left, the first of these
/// in display order takes over, even where several entries have the same key:
/// it counts as used now under its key, and is reported with its credentials.
/// Every other entry stays as it was.
pub proof fn the_first_that_is_left_takes_over(
    saved: AccountsModel,
    key: Seq<char>,
    now: Timestamp,
    i: int,
)
    requires
        is_first_with_key(saved.accounts, key, i),
        saved.active == Some(key),
        saved.accounts.len() > 1,
    ensures
        ({
            let after = removed_from(saved, key, now);
            let rest = saved.accounts.remove(i);
            let next = display_order(rest, Some(key))[0];
            let used = EntryModel {
                key: next.key,
                label: next.label,
                auth_mode: next.auth_mode,
                auth: next.auth,
                updated_at: now,
            };
            let renewed = rest.map_values(
                |entry: EntryModel|
                    if entry.key == next.key {
                        used
                    } else {
                        entry
                    },
            );
            &&& after.active == Some(next.key)
            &&& after.version == saved.version
            &&& after.accounts == display_order(renewed, Some(next.key))
            &&& removal_of(saved, key, now) matches RemovalModel::ActiveSwitched {
                replacement,
                replacement_auth,
                ..
            }
            &&& replacement.key == next.key
            &&& replacement.label == next.label
            &&& replacement.auth_mode == next.auth_mode
            &&& replacement.is_active
            &&& replacement_auth == next.auth
        }),
{
    first_is_unique(saved.accounts, key, i);
    let rest = saved.accounts.remove(i);
    let next = display_order(rest, Some(key))[0];
    let used = EntryModel { updated_at: now, ..next };
    let renewed = rest.map_values(
        |entry: EntryModel|
            if entry.key == next.key {
                used
            } else {
                entry
            },
    );
    assert(with_replacement(rest, used) =~= renewed);
}

} // verus!
