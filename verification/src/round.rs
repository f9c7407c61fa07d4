//! A round over all saved accounts that brings the status of each: what is
//! known at once, what is to be fetched, and what the results change in the
//! accounts file.

use vstd::prelude::*;

use crate::auth::{AccountPlanType, ApiAuthMode, AuthModel};
use crate::entry::{same_entries, AccountsModel, EntryModel, SavedAccountEntry, SavedAccountsFile};
use crate::error::{result_view, AccountsError, AccountsErrorModel};
use crate::identity::{account_email, account_plan_type, email_of, plan_of};
use crate::laws::{
    account_map, display_order_keeps_accounts, display_order_keeps_has_key,
    display_order_keeps_keys_distinct, first_is_found, first_is_unique, has_active_account,
    is_in_display_order, is_usable, keys_distinct, AccountModel,
};
use crate::limits::SnapshotModel;
use crate::order::{
    display_order, display_order_is_a_permutation, display_order_is_idempotent, sort_entries,
};
use crate::status::{
    fetched_status_of, FetchedModel, FetchedSavedAccountStatus, RateLimitsModel,
    SavedAccountRateLimits, SavedAccountStatus, StatusModel,
};
use crate::store::{
    accounts_from, first_with_key, has_key, is_first_with_key, position_of, summaries_of,
    summary_from_entry, summary_of, SavedAccountSummary, SummaryModel,
};
use crate::time::Timestamp;

verus! {

/// How many seconds a fetch of a status may take before it counts as timed out.
pub const SAVED_ACCOUNT_STATUS_TIMEOUT_SECS: u64 = 5;

/// How many seconds a fetch of a status may take before it counts as timed out.
pub fn saved_account_status_timeout_secs() -> (secs: u64)
    ensures
        secs == SAVED_ACCOUNT_STATUS_TIMEOUT_SECS,
{
    SAVED_ACCOUNT_STATUS_TIMEOUT_SECS
}

/// The status of an entry without a fetch.
pub open spec fn status_without_fetch(
    entry: EntryModel,
    active: Option<Seq<char>>,
    rate_limits: RateLimitsModel,
) -> StatusModel {
    StatusModel {
        summary: summary_of(entry, active),
        email: email_of(entry.auth),
        plan_type: plan_of(entry.auth),
        rate_limits,
    }
}

/// The status of an entry that is known at once. That of a ChatGPT login has
/// to be fetched.
pub open spec fn status_at_once(entry: EntryModel, active: Option<Seq<char>>) -> Option<
    StatusModel,
> {
    match entry.auth_mode {
        ApiAuthMode::ApiKey => Some(
            status_without_fetch(
                entry,
                active,
                RateLimitsModel::Unsupported { reason: "limits unavailable for API key auth"@ },
            ),
        ),
        ApiAuthMode::AgentIdentity => Some(
            status_without_fetch(
                entry,
                active,
                RateLimitsModel::Unsupported {
                    reason: "limits unavailable for agent identity auth"@,
                },
            ),
        ),
        ApiAuthMode::Chatgpt | ApiAuthMode::ChatgptAuthTokens => None,
    }
}

/// The status of `entry` that is known at once.
fn immediate_status(entry: &SavedAccountEntry, active_account_key: &Option<String>) -> (status:
    Option<SavedAccountStatus>)
    ensures
        status.deep_view() == status_at_once(entry.deep_view(), active_account_key.deep_view()),
{
    let reason: String = match entry.auth_mode {
        ApiAuthMode::ApiKey => "limits unavailable for API key auth".to_owned(),
        ApiAuthMode::AgentIdentity => "limits unavailable for agent identity auth".to_owned(),
        ApiAuthMode::Chatgpt | ApiAuthMode::ChatgptAuthTokens => {
            return None;
        },
    };
    Some(
        SavedAccountStatus {
            summary: summary_from_entry(entry, active_account_key),
            email: account_email(&entry.auth),
            plan_type: account_plan_type(&entry.auth),
            rate_limits: SavedAccountRateLimits::Unsupported { reason },
        },
    )
}

/// A status that is to be fetched: for which entry, and what is shown of it
/// where the fetch takes too long.
#[derive(Debug, PartialEq)]
pub struct StatusJob {
    pub index: usize,
    pub entry: SavedAccountEntry,
    pub summary: SavedAccountSummary,
    pub email: Option<String>,
    pub plan_type: Option<AccountPlanType>,
}

/// The model of `StatusJob`.
pub struct JobModel {
    pub index: int,
    pub entry: EntryModel,
    pub summary: SummaryModel,
    pub email: Option<Seq<char>>,
    pub plan_type: Option<AccountPlanType>,
}

impl DeepView for StatusJob {
    type V = JobModel;

    open spec fn deep_view(&self) -> JobModel {
        JobModel {
            index: self.index as int,
            entry: self.entry.deep_view(),
            summary: self.summary.deep_view(),
            email: self.email.deep_view(),
            plan_type: self.plan_type,
        }
    }
}

impl StatusJob {
    /// The status where the fetch took too long.
    pub fn timed_out(self) -> (fetched: FetchedSavedAccountStatus)
        ensures
            fetched.deep_view() == (FetchedModel {
                status: StatusModel {
                    summary: self.deep_view().summary,
                    email: self.deep_view().email,
                    plan_type: self.plan_type,
                    rate_limits: RateLimitsModel::Unavailable { error: "request timed out"@ },
                },
                updated_auth: None,
            }),
    {
        FetchedSavedAccountStatus {
            status: SavedAccountStatus {
                summary: self.summary,
                email: self.email,
                plan_type: self.plan_type,
                rate_limits: SavedAccountRateLimits::Unavailable {
                    error: "request timed out".to_owned(),
                },
            },
            updated_auth: None,
        }
    }
}

/// A round in progress: the accounts file, its entries in display order, and
/// the statuses that are in.
#[derive(Debug, PartialEq)]
pub struct StatusRound {
    pub saved: SavedAccountsFile,
    pub ordered: Vec<SavedAccountEntry>,
    pub statuses: Vec<Option<SavedAccountStatus>>,
}

/// The model of `StatusRound`.
pub struct RoundModel {
    pub saved: AccountsModel,
    pub ordered: Seq<EntryModel>,
    pub statuses: Seq<Option<StatusModel>>,
}

impl DeepView for StatusRound {
    type V = RoundModel;

    open spec fn deep_view(&self) -> RoundModel {
        RoundModel {
            saved: self.saved.deep_view(),
            ordered: self.ordered.deep_view(),
            statuses: self.statuses.deep_view(),
        }
    }
}

/// A round over the saved accounts as it begins.
pub open spec fn new_round(saved: AccountsModel) -> RoundModel {
    let ordered = display_order(saved.accounts, saved.active);
    RoundModel {
        saved,
        ordered,
        statuses: ordered.map_values(|entry: EntryModel| status_at_once(entry, saved.active)),
    }
}

impl RoundModel {
    /// Whether there is a place for the status of each entry, and the entries
    /// stand in display order.
    pub open spec fn is_valid(self) -> bool {
        &&& self.statuses.len() == self.ordered.len()
        &&& display_order(self.ordered, self.saved.active) == self.ordered
    }

    /// Which of the first `n` entries have no status yet.
    pub open spec fn waiting(self, n: nat) -> Seq<int>
        decreases n,
    {
        if n == 0 {
            seq![]
        } else {
            let before = self.waiting((n - 1) as nat);
            if self.statuses[n - 1] is None {
                before.push(n - 1)
            } else {
                before
            }
        }
    }

    /// The status to be fetched for the entry at `index`.
    pub open spec fn job(self, index: int) -> JobModel {
        JobModel {
            index,
            entry: self.ordered[index],
            summary: summary_of(self.ordered[index], self.saved.active),
            email: email_of(self.ordered[index].auth),
            plan_type: plan_of(self.ordered[index].auth),
        }
    }

    /// The round after the status of the entry at `index` came in at `now`.
    /// Credentials that changed go into the accounts file.
    pub open spec fn with_status(
        self,
        index: int,
        fetched: FetchedModel,
        now: Timestamp,
    ) -> RoundModel {
        let key = fetched.status.summary.key;
        let accounts = self.saved.accounts;
        RoundModel {
            saved: if fetched.updated_auth is Some && has_key(accounts, key) {
                let at = first_with_key(accounts, key);
                AccountsModel {
                    accounts: accounts.update(
                        at,
                        EntryModel {
                            auth: fetched.updated_auth->0,
                            updated_at: now,
                            ..accounts[at]
                        },
                    ),
                    ..self.saved
                }
            } else {
                self.saved
            },
            statuses: self.statuses.update(index, Some(fetched.status)),
            ..self
        }
    }

    /// The accounts file as the round leaves it: in display order.
    pub open spec fn file_to_write(self) -> AccountsModel {
        AccountsModel {
            accounts: display_order(self.saved.accounts, self.saved.active),
            ..self.saved
        }
    }

    /// Whether the status of every entry is in.
    pub open spec fn is_complete(self) -> bool {
        forall|i: int| 0 <= i < self.statuses.len() ==> (#[trigger] self.statuses[i]) is Some
    }
}

/// What a task brought: for which entry, its status, and when it came.
pub struct ArrivalModel {
    pub index: int,
    pub fetched: FetchedModel,
    pub at: Timestamp,
}

impl RoundModel {
    /// The round after statuses came in, one after the other.
    pub open spec fn with_all(self, arrivals: Seq<ArrivalModel>) -> RoundModel
        decreases arrivals.len(),
    {
        if arrivals.len() == 0 {
            self
        } else {
            let last = arrivals.last();
            self.with_all(arrivals.drop_last()).with_status(last.index, last.fetched, last.at)
        }
    }

    /// Whether each of the statuses is for an entry of the round, and says so.
    pub open spec fn are_answers(self, arrivals: Seq<ArrivalModel>) -> bool {
        forall|a: int|
            0 <= a < arrivals.len() ==> 0 <= (#[trigger] arrivals[a]).index < self.statuses.len()
                && arrivals[a].fetched.status.summary == self.job(arrivals[a].index).summary
    }
}

/// Whether one of the statuses is for the entry at `index`.
pub open spec fn answers(arrivals: Seq<ArrivalModel>, index: int) -> bool {
    exists|a: int| 0 <= a < arrivals.len() && (#[trigger] arrivals[a]).index == index
}

/// Whether `listed` holds every one of `statuses`, in order.
pub open spec fn all_there(statuses: Seq<Option<StatusModel>>, listed: Seq<StatusModel>) -> bool {
    &&& statuses.len() == listed.len()
    &&& forall|i: int|
        0 <= i < statuses.len() ==> #[trigger] statuses[i] == Some(listed[i])
}

/// The statuses, if none is missing.
fn collect_statuses(statuses: Vec<Option<SavedAccountStatus>>) -> (listed: Option<
    Vec<SavedAccountStatus>,
>)
    ensures
        match listed {
            Some(listed) => all_there(statuses.deep_view(), listed.deep_view()),
            None => exists|i: int|
                0 <= i < statuses.deep_view().len() && (#[trigger] statuses.deep_view()[i]) is None,
        },
{
    let ghost all = statuses.deep_view();
    let mut listed: Vec<SavedAccountStatus> = Vec::new();
    for status in it: statuses
        invariant
            it.seq() == statuses@,
            all == statuses.deep_view(),
            listed.len() == it.index(),
            forall|j: int| 0 <= j < it.index() ==> #[trigger] all[j] == Some(listed.deep_view()[j]),
    {
        let ghost before = listed.deep_view();
        assert(all[it.index() as int] == status.deep_view());
        match status {
            Some(status) => {
                listed.push(status);
                assert(forall|j: int| 0 <= j < before.len() ==> listed.deep_view()[j] == before[j]);
            },
            None => {
                return None;
            },
        }
    }
    Some(listed)
}

/// A new round is a valid one.
pub proof fn new_round_is_valid(saved: AccountsModel)
    ensures
        new_round(saved).is_valid(),
{
    display_order_is_idempotent(saved.accounts, saved.active);
}

/// Begins a round over the saved accounts, unless there are none.
pub fn list_saved_account_statuses(saved: SavedAccountsFile) -> (round: Option<StatusRound>)
    ensures
        match round {
            Some(round) => saved.accounts@.len() > 0 && round.deep_view() == new_round(
                saved.deep_view(),
            ) && round.deep_view().is_valid(),
            None => saved.accounts@.len() == 0,
        },
{
    let ordered: Vec<SavedAccountEntry> = sort_entries(&saved);
    let ghost model = new_round(saved.deep_view());
    proof {
        display_order_is_a_permutation(
            saved.accounts.deep_view(),
            saved.active_account_key.deep_view(),
        );
        new_round_is_valid(saved.deep_view());
    }
    if ordered.len() == 0 {
        return None;
    }
    let mut statuses: Vec<Option<SavedAccountStatus>> = Vec::new();
    let mut i: usize = 0;
    while i < ordered.len()
        invariant
            model == new_round(saved.deep_view()),
            ordered.deep_view() == model.ordered,
            i <= ordered.len(),
            statuses.len() == i,
            forall|j: int| 0 <= j < i ==> #[trigger] statuses.deep_view()[j] == model.statuses[j],
        decreases ordered.len() - i,
    {
        let ghost before = statuses.deep_view();
        statuses.push(immediate_status(&ordered[i], &saved.active_account_key));
        assert(ordered.deep_view()[i as int] == ordered@[i as int].deep_view());
        assert(forall|j: int| 0 <= j < i ==> #[trigger] statuses.deep_view()[j] == before[j]);
        i += 1;
    }
    let round = StatusRound { saved, ordered, statuses };
    assert(round.deep_view().statuses =~= model.statuses);
    Some(round)
}

impl StatusRound {
    /// The statuses that are still to be fetched, in display order.
    pub fn jobs(&self) -> (jobs: Vec<StatusJob>)
        requires
            self.deep_view().is_valid(),
        ensures
            jobs.deep_view() == self.deep_view().waiting(self.statuses@.len()).map_values(
                |index: int| self.deep_view().job(index),
            ),
    {
        let ghost round = self.deep_view();
        let ghost as_job = |index: int| round.job(index);
        let mut jobs: Vec<StatusJob> = Vec::new();
        let mut i: usize = 0;
        assert(jobs.deep_view() =~= round.waiting(0).map_values(as_job));
        while i < self.statuses.len()
            invariant
                round == self.deep_view(),
                as_job == (|index: int| round.job(index)),
                self.statuses.len() == self.ordered.len(),
                i <= self.statuses.len(),
                jobs.deep_view() == round.waiting(i as nat).map_values(as_job),
            decreases self.statuses.len() - i,
        {
            let ghost before = jobs.deep_view();
            assert(round.statuses[i as int] == self.statuses@[i as int].deep_view());
            if self.statuses[i].is_none() {
                let entry: &SavedAccountEntry = &self.ordered[i];
                assert(round.ordered[i as int] == entry.deep_view());
                jobs.push(
                    StatusJob {
                        index: i,
                        entry: entry.clone(),
                        summary: summary_from_entry(entry, &self.saved.active_account_key),
                        email: account_email(&entry.auth),
                        plan_type: account_plan_type(&entry.auth),
                    },
                );
                assert(jobs.deep_view() =~= before.push(round.job(i as int)));
            }
            assert(jobs.deep_view() =~= round.waiting((i + 1) as nat).map_values(as_job));
            i += 1;
        }
        jobs
    }

    /// Takes in what a task came to at `now`: the status of the entry at an
    /// index, or why the task did not come to its end. Then nothing changes.
    pub fn record(
        &mut self,
        joined: Result<(usize, FetchedSavedAccountStatus), String>,
        now: Timestamp,
    ) -> (recorded: Result<(), AccountsError>)
        requires
            old(self).deep_view().is_valid(),
            joined matches Ok((index, _)) ==> index < old(self).statuses@.len(),
        ensures
            match joined {
                Ok((index, fetched)) => recorded is Ok && final(self).deep_view() == old(
                    self,
                ).deep_view().with_status(index as int, fetched.deep_view(), now),
                Err(error) => result_view(recorded) == Err::<(), AccountsErrorModel>(
                    AccountsErrorModel::StatusTaskFailed(error@),
                ) && *final(self) == *old(self),
            },
            final(self).deep_view().is_valid(),
    {
        let (index, fetched): (usize, FetchedSavedAccountStatus) = match joined {
            Ok(joined) => joined,
            Err(error) => {
                return Err(AccountsError::StatusTaskFailed(error));
            },
        };
        let ghost before = self.deep_view();
        if let Some(updated_auth) = fetched.updated_auth {
            if let Some(at) = position_of(
                &self.saved.accounts,
                fetched.status.summary.key.as_str(),
            ) {
                let mut entry: SavedAccountEntry = self.saved.accounts[at].clone();
                assert(entry.deep_view() == before.saved.accounts[at as int]);
                entry.auth = updated_auth;
                entry.updated_at = now;
                let ghost model = entry.deep_view();
                self.saved.accounts.set(at, entry);
                assert(self.saved.accounts.deep_view() =~= before.saved.accounts.update(
                    at as int,
                    model,
                ));
            }
        }
        self.statuses.set(index, Some(fetched.status));
        assert(self.statuses.deep_view() =~= before.statuses.update(
            index as int,
            Some(fetched.status.deep_view()),
        ));
        Ok(())
    }

    /// Ends the round: the accounts file to be written, in display order, and
    /// the status of each account, in the order in which they are listed.
    pub fn finish(self) -> (outcome: (
        SavedAccountsFile,
        Result<Vec<SavedAccountStatus>, AccountsError>,
    ))
        requires
            self.deep_view().is_valid(),
        ensures
            outcome.0.deep_view() == self.deep_view().file_to_write(),
            match outcome.1 {
                Ok(statuses) => self.deep_view().is_complete() && all_there(
                    self.deep_view().statuses,
                    statuses.deep_view(),
                ),
                Err(error) => error == AccountsError::MissingStatus
                    && !self.deep_view().is_complete(),
            },
    {
        let ghost round = self.deep_view();
        let StatusRound { saved, ordered, statuses }: StatusRound = self;
        let mut saved: SavedAccountsFile = saved;
        if !same_entries(&saved.accounts, &ordered) {
            saved.accounts = sort_entries(&saved);
        }
        match collect_statuses(statuses) {
            Some(listed) => (saved, Ok(listed)),
            None => (saved, Err(AccountsError::MissingStatus)),
        }
    }
}

/// The entries that wait for their status are those that have none, each once
/// and in order.
pub proof fn what_has_no_status_waits(round: RoundModel, n: nat)
    requires
        n <= round.statuses.len(),
    ensures
        forall|i: int|
            round.waiting(n).contains(i) <==> 0 <= i < n && (#[trigger] round.statuses[i]) is None,
        forall|a: int, b: int|
            0 <= a < b < round.waiting(n).len() ==> #[trigger] round.waiting(n)[a]
                < #[trigger] round.waiting(n)[b],
    decreases n,
{
    if n > 0 {
        let before = round.waiting((n - 1) as nat);
        let now = round.waiting(n);
        what_has_no_status_waits(round, (n - 1) as nat);
        assert forall|a: int| 0 <= a < before.len() implies #[trigger] before[a] < n - 1 by {
            assert(before.contains(before[a]));
            assert(round.statuses[before[a]] is None);
        }
        assert forall|i: int|
            now.contains(i) <==> 0 <= i < n && (#[trigger] round.statuses[i]) is None by {
            if now.contains(i) {
                let a = choose|a: int| 0 <= a < now.len() && now[a] == i;
                if a < before.len() {
                    assert(before[a] == i);
                    assert(before.contains(i));
                }
            }
            if 0 <= i < n && round.statuses[i] is None {
                if i < n - 1 {
                    assert(before.contains(i));
                    let a = choose|a: int| 0 <= a < before.len() && before[a] == i;
                    assert(now[a] == i);
                } else {
                    assert(now[now.len() - 1] == i);
                }
            }
        }
        assert forall|a: int, b: int| 0 <= a < b < now.len() implies #[trigger] now[a]
            < #[trigger] now[b] by {
            if b < before.len() {
                assert(before[a] < before[b]);
            } else {
                assert(before[a] < n - 1);
            }
        }
    }
}

/// A round is complete once nothing waits any more.
pub proof fn a_round_is_complete_when_nothing_waits(round: RoundModel)
    ensures
        round.is_complete() <==> round.waiting(round.statuses.len()).len() == 0,
{
    let waiting = round.waiting(round.statuses.len());
    what_has_no_status_waits(round, round.statuses.len());
    if waiting.len() > 0 {
        assert(waiting.contains(waiting[0]));
        assert(round.statuses[waiting[0]] is None);
    }
}

/// A status that comes in is that of its entry, which waits no more. No other
/// status changes.
pub proof fn a_status_ends_the_wait_of_one_entry(
    round: RoundModel,
    index: int,
    fetched: FetchedModel,
    now: Timestamp,
    i: int,
)
    requires
        0 <= index < round.statuses.len(),
        0 <= i < round.statuses.len(),
    ensures
        ({
            let after = round.with_status(index, fetched, now);
            &&& after.statuses.len() == round.statuses.len()
            &&& after.statuses[index] == Some(fetched.status)
            &&& i != index ==> after.statuses[i] == round.statuses[i]
        }),
{
}

/// The statuses stand in the order of the list of accounts: those that are
/// known at once, and those to be fetched, have the summaries of that list.
pub proof fn statuses_follow_the_list(saved: AccountsModel, i: int)
    requires
        0 <= i < saved.accounts.len(),
    ensures
        ({
            let round = new_round(saved);
            &&& round.statuses.len() == summaries_of(saved).len()
            &&& round.statuses[i] matches Some(status) ==> status.summary == summaries_of(saved)[i]
            &&& round.job(i).summary == summaries_of(saved)[i]
        }),
{
    display_order_is_a_permutation(saved.accounts, saved.active);
}

/// A change to the credentials and the time of an entry leaves the keys where
/// they were.
proof fn update_keeps_keys(accounts: Seq<EntryModel>, at: int, entry: EntryModel, key: Seq<char>)
    requires
        0 <= at < accounts.len(),
        entry.key == accounts[at].key,
    ensures
        has_key(accounts.update(at, entry), key) == has_key(accounts, key),
        has_key(accounts, key) ==> first_with_key(accounts.update(at, entry), key)
            == first_with_key(accounts, key),
{
    let updated = accounts.update(at, entry);
    assert forall|i: int| 0 <= i < accounts.len() implies updated[i].key == (
    #[trigger] accounts[i]).key by {}
    assert forall|i: int| 0 <= i < updated.len() implies accounts[i].key == (
    #[trigger] updated[i]).key by {}
    if has_key(accounts, key) {
        let i = choose|i: int| 0 <= i < accounts.len() && (#[trigger] accounts[i]).key == key;
        assert(updated[i].key == key);
        first_is_found(accounts, key);
        first_is_found(updated, key);
        let a = first_with_key(accounts, key);
        let b = first_with_key(updated, key);
        assert(updated[a].key == key);
        assert(accounts[b].key == key);
    }
    if has_key(updated, key) {
        let i = choose|i: int| 0 <= i < updated.len() && (#[trigger] updated[i]).key == key;
        assert(accounts[i].key == key);
    }
}

/// Statuses of different accounts may come in in any order: the round comes to
/// the same.
pub proof fn statuses_may_come_in_any_order(
    round: RoundModel,
    i: int,
    a: FetchedModel,
    a_at: Timestamp,
    j: int,
    b: FetchedModel,
    b_at: Timestamp,
)
    requires
        0 <= i < round.statuses.len(),
        0 <= j < round.statuses.len(),
        i != j,
        a.status.summary.key != b.status.summary.key,
    ensures
        round.with_status(i, a, a_at).with_status(j, b, b_at) == round.with_status(
            j,
            b,
            b_at,
        ).with_status(i, a, a_at),
{
    let accounts = round.saved.accounts;
    let a_key = a.status.summary.key;
    let b_key = b.status.summary.key;
    assert(round.statuses.update(i, Some(a.status)).update(j, Some(b.status))
        =~= round.statuses.update(j, Some(b.status)).update(i, Some(a.status)));
    if a.updated_auth is Some && has_key(accounts, a_key) {
        first_is_found(accounts, a_key);
        let at = first_with_key(accounts, a_key);
        let entry = EntryModel { auth: a.updated_auth->0, updated_at: a_at, ..accounts[at] };
        update_keeps_keys(accounts, at, entry, b_key);
    }
    if b.updated_auth is Some && has_key(accounts, b_key) {
        first_is_found(accounts, b_key);
        let at = first_with_key(accounts, b_key);
        let entry = EntryModel { auth: b.updated_auth->0, updated_at: b_at, ..accounts[at] };
        update_keeps_keys(accounts, at, entry, a_key);
    }
    let one = round.with_status(i, a, a_at).with_status(j, b, b_at);
    let other = round.with_status(j, b, b_at).with_status(i, a, a_at);
    assert(one.saved.accounts =~= other.saved.accounts);
}

/// What statuses that come in leave as it was, and where they go.
proof fn what_arrivals_change(round: RoundModel, arrivals: Seq<ArrivalModel>)
    requires
        round.are_answers(arrivals),
    ensures
        ({
            let after = round.with_all(arrivals);
            &&& after.ordered == round.ordered
            &&& after.saved.active == round.saved.active
            &&& after.saved.version == round.saved.version
            &&& after.saved.accounts.len() == round.saved.accounts.len()
            &&& after.statuses.len() == round.statuses.len()
            &&& forall|i: int|
                0 <= i < round.statuses.len() ==> if answers(arrivals, i) {
                    #[trigger] after.statuses[i] matches Some(status) && status.summary
                        == round.job(i).summary
                } else {
                    after.statuses[i] == round.statuses[i]
                }
            &&& forall|i: int|
                0 <= i < round.saved.accounts.len() ==> {
                    &&& (#[trigger] after.saved.accounts[i]).key == round.saved.accounts[i].key
                    &&& after.saved.accounts[i].label == round.saved.accounts[i].label
                    &&& after.saved.accounts[i].auth_mode == round.saved.accounts[i].auth_mode
                }
        }),
    decreases arrivals.len(),
{
    if arrivals.len() > 0 {
        let rest = arrivals.drop_last();
        let last = arrivals.last();
        assert(arrivals[arrivals.len() - 1] == last);
        assert forall|a: int| 0 <= a < rest.len() implies 0 <= (#[trigger] rest[a]).index
            < round.statuses.len() && rest[a].fetched.status.summary == round.job(
            rest[a].index,
        ).summary by {
            assert(rest[a] == arrivals[a]);
        }
        what_arrivals_change(round, rest);
        let before = round.with_all(rest);
        let after = round.with_all(arrivals);
        let key = last.fetched.status.summary.key;
        if has_key(before.saved.accounts, key) {
            first_is_found(before.saved.accounts, key);
        }
        assert forall|i: int| 0 <= i < round.statuses.len() implies if answers(arrivals, i) {
            #[trigger] after.statuses[i] matches Some(status) && status.summary == round.job(
                i,
            ).summary
        } else {
            after.statuses[i] == round.statuses[i]
        } by {
            assert(before.statuses[i] == before.statuses[i]);
            if answers(rest, i) {
                let a = choose|a: int| 0 <= a < rest.len() && (#[trigger] rest[a]).index == i;
                assert(arrivals[a].index == i);
            }
            if answers(arrivals, i) && i != last.index {
                let a = choose|a: int|
                    0 <= a < arrivals.len() && (#[trigger] arrivals[a]).index == i;
                assert(rest[a].index == i);
            }
        }
        assert forall|i: int| 0 <= i < round.saved.accounts.len() implies (
        #[trigger] after.saved.accounts[i]).key == round.saved.accounts[i].key
            && after.saved.accounts[i].label == round.saved.accounts[i].label
            && after.saved.accounts[i].auth_mode == round.saved.accounts[i].auth_mode by {
            assert(before.saved.accounts[i].key == round.saved.accounts[i].key);
        }
    }
}

/// Once every entry that waited has its answer, a round has a status for every
/// account, in the order in which the accounts are listed, each with the
/// summary of that list.
pub proof fn a_round_brings_the_status_of_every_account(
    saved: AccountsModel,
    arrivals: Seq<ArrivalModel>,
)
    requires
        new_round(saved).are_answers(arrivals),
        forall|i: int|
            new_round(saved).waiting(saved.accounts.len()).contains(i) ==> #[trigger] answers(
                arrivals,
                i,
            ),
    ensures
        ({
            let after = new_round(saved).with_all(arrivals);
            &&& after.is_complete()
            &&& after.statuses.len() == summaries_of(saved).len()
            &&& forall|i: int|
                0 <= i < after.statuses.len() ==> (#[trigger] after.statuses[i])->0.summary
                    == summaries_of(saved)[i]
        }),
{
    let round = new_round(saved);
    let after = round.with_all(arrivals);
    display_order_is_a_permutation(saved.accounts, saved.active);
    what_arrivals_change(round, arrivals);
    what_has_no_status_waits(round, saved.accounts.len());
    assert forall|i: int| 0 <= i < after.statuses.len() implies (
    #[trigger] after.statuses[i]) is Some && after.statuses[i]->0.summary == summaries_of(
        saved,
    )[i] by {
        statuses_follow_the_list(saved, i);
        if !answers(arrivals, i) {
            assert(round.statuses[i] is Some);
        }
    }
}

/// Whatever came in, a round leaves the accounts what they are: their number,
/// their keys, their labels and how they sign in. The active account stays
/// active. Only credentials, and when an account was last used, may change.
pub proof fn a_round_changes_credentials_alone(
    saved: AccountsModel,
    arrivals: Seq<ArrivalModel>,
    key: Seq<char>,
)
    requires
        keys_distinct(saved.accounts),
        new_round(saved).are_answers(arrivals),
    ensures
        ({
            let before = account_map(saved.accounts);
            let written = new_round(saved).with_all(arrivals).file_to_write();
            let after = account_map(written.accounts);
            &&& written.active == saved.active
            &&& has_active_account(saved) ==> has_active_account(written)
            &&& written.accounts.len() == saved.accounts.len()
            &&& keys_distinct(written.accounts)
            &&& after.contains_key(key) <==> before.contains_key(key)
            &&& before.contains_key(key) ==> after[key].label == before[key].label
                && after[key].auth_mode == before[key].auth_mode
        }),
{
    let round = new_round(saved);
    let after = round.with_all(arrivals).saved.accounts;
    what_arrivals_change(round, arrivals);
    assert forall|i: int, j: int| 0 <= i < j < after.len() implies (#[trigger] after[i]).key != (
    #[trigger] after[j]).key by {
        assert(saved.accounts[i].key != saved.accounts[j].key);
    }
    display_order_is_a_permutation(after, saved.active);
    display_order_keeps_keys_distinct(after, saved.active);
    display_order_keeps_accounts(after, saved.active);
    if has_key(saved.accounts, key) {
        first_is_found(saved.accounts, key);
        let at = first_with_key(saved.accounts, key);
        assert(after[at].key == key);
        first_is_found(after, key);
        let found = first_with_key(after, key);
        if found < at {
            assert(saved.accounts[found].key != key);
        } else if at < found {
            assert(after[at].key != key);
        }
    }
    if has_key(after, key) {
        let i = choose|i: int| 0 <= i < after.len() && (#[trigger] after[i]).key == key;
        assert(saved.accounts[i].key == key);
    }
}

/// Whatever the file held that was read, and whatever came in, what a round
/// writes reads back as it was written.
pub proof fn a_round_reads_back(contents: Option<AccountsModel>, arrivals: Seq<ArrivalModel>)
    requires
        new_round(accounts_from(contents)).are_answers(arrivals),
    ensures
        ({
            let written = new_round(accounts_from(contents)).with_all(arrivals).file_to_write();
            accounts_from(Some(written)) == written
        }),
{
    let saved = accounts_from(contents);
    let round = new_round(saved);
    let after = round.with_all(arrivals).saved;
    what_arrivals_change(round, arrivals);
    if saved.active is Some {
        let key = saved.active->0;
        let i = choose|i: int|
            0 <= i < saved.accounts.len() && (#[trigger] saved.accounts[i]).key == key;
        assert(after.accounts[i].key == key);
        assert(has_key(after.accounts, key));
        display_order_keeps_has_key(after.accounts, saved.active, key);
    }
}

/// A usable file stays usable when a status comes in, and when a round writes
/// it.
pub proof fn a_round_leaves_a_usable_file(
    round: RoundModel,
    index: int,
    fetched: FetchedModel,
    now: Timestamp,
)
    requires
        is_usable(round.saved),
        0 <= index < round.statuses.len(),
    ensures
        is_usable(round.with_status(index, fetched, now).saved),
        is_usable(round.file_to_write()),
{
    let accounts = round.saved.accounts;
    let key = fetched.status.summary.key;
    if round.saved.active is Some {
        let active = round.saved.active->0;
        if fetched.updated_auth is Some && has_key(accounts, key) {
            first_is_found(accounts, key);
            let at = first_with_key(accounts, key);
            let entry = EntryModel {
                auth: fetched.updated_auth->0,
                updated_at: now,
                ..accounts[at]
            };
            update_keeps_keys(accounts, at, entry, active);
        }
        display_order_keeps_has_key(accounts, round.saved.active, active);
    }
}

/// A fetch that left the credentials as they were, whatever it came to, leaves
/// the saved accounts as they were.
pub proof fn a_fetch_without_a_refresh_changes_no_account(
    round: RoundModel,
    index: int,
    summary: SummaryModel,
    fetched: Result<Seq<SnapshotModel>, Seq<char>>,
    now: Timestamp,
)
    requires
        0 <= index < round.ordered.len(),
    ensures
        ({
            let entry = round.ordered[index];
            let status = fetched_status_of(entry, entry.auth, summary, fetched);
            round.with_status(index, status, now).saved == round.saved
        }),
{
}

/// Fresh credentials that come with a status go to the account they are for,
/// which keeps its label and how it signs in. Every other entry stays as it
/// was.
pub proof fn a_status_changes_the_credentials_of_one_account(
    round: RoundModel,
    index: int,
    fetched: FetchedModel,
    now: Timestamp,
)
    requires
        keys_distinct(round.saved.accounts),
        0 <= index < round.statuses.len(),
    ensures
        ({
            let before = round.saved.accounts;
            let after = round.with_status(index, fetched, now).saved.accounts;
            let key = fetched.status.summary.key;
            &&& keys_distinct(after)
            &&& after.len() == before.len()
            &&& forall|i: int|
                0 <= i < before.len() && before[i].key != key ==> #[trigger] after[i] == before[i]
            &&& account_map(after) == if fetched.updated_auth is Some && has_key(before, key) {
                account_map(before).insert(
                    key,
                    AccountModel { auth: fetched.updated_auth->0, ..account_map(before)[key] },
                )
            } else {
                account_map(before)
            }
        }),
{
    let before = round.saved.accounts;
    let after = round.with_status(index, fetched, now).saved.accounts;
    let key = fetched.status.summary.key;
    if fetched.updated_auth is Some && has_key(before, key) {
        first_is_found(before, key);
        let at = first_with_key(before, key);
        let entry = EntryModel { auth: fetched.updated_auth->0, updated_at: now, ..before[at] };
        assert forall|i: int, j: int| 0 <= i < j < after.len() implies (#[trigger] after[i]).key
            != (#[trigger] after[j]).key by {
            assert(before[i].key != before[j].key);
        }
        assert forall|k: Seq<char>| has_key(after, k) == has_key(before, k) && (has_key(before, k)
            ==> first_with_key(after, k) == first_with_key(before, k)) by {
            update_keeps_keys(before, at, entry, k);
        }
        assert forall|k: Seq<char>| has_key(before, k) && k != key implies first_with_key(
            before,
            k,
        ) != at by {
            first_is_found(before, k);
        }
        assert forall|k: Seq<char>| has_key(before, k) implies 0 <= #[trigger] first_with_key(
            before,
            k,
        ) < before.len() by {
            first_is_found(before, k);
        }
        assert(account_map(after) =~= account_map(before).insert(
            key,
            AccountModel { auth: fetched.updated_auth->0, ..account_map(before)[key] },
        ));
    }
}

/// The status of an account is known at once if it signs in by an API key or
/// as an agent, and has to be fetched if it signs in by ChatGPT. What is known
/// at once says why there are no rate limits, and shows the account as it is.
pub proof fn only_chatgpt_statuses_are_fetched(entry: EntryModel, active: Option<Seq<char>>)
    ensures
        match status_at_once(entry, active) {
            Some(status) => {
                &&& status.summary.key == entry.key
                &&& status.summary.label == entry.label
                &&& status.summary.auth_mode == entry.auth_mode
                &&& status.summary.is_active <==> active == Some(entry.key)
                &&& status.email == email_of(entry.auth)
                &&& status.plan_type == plan_of(entry.auth)
                &&& match entry.auth_mode {
                    ApiAuthMode::ApiKey => status.rate_limits == (RateLimitsModel::Unsupported {
                        reason: "limits unavailable for API key auth"@,
                    }),
                    ApiAuthMode::AgentIdentity => status.rate_limits == (
                    RateLimitsModel::Unsupported {
                        reason: "limits unavailable for agent identity auth"@,
                    }),
                    _ => false,
                }
            },
            None => entry.auth_mode == ApiAuthMode::Chatgpt || entry.auth_mode
                == ApiAuthMode::ChatgptAuthTokens,
        },
{
}

/// A new round is over the saved accounts as they are listed, and has a status
/// for those, and only those, that need no fetch.
pub proof fn a_new_round_is_over_the_listed_accounts(saved: AccountsModel, i: int)
    requires
        0 <= i < saved.accounts.len(),
    ensures
        ({
            let round = new_round(saved);
            &&& round.saved == saved
            &&& round.ordered == display_order(saved.accounts, saved.active)
            &&& round.statuses.len() == saved.accounts.len()
            &&& round.statuses[i] is None <==> round.ordered[i].auth_mode == ApiAuthMode::Chatgpt
                || round.ordered[i].auth_mode == ApiAuthMode::ChatgptAuthTokens
            &&& round.statuses[i] matches Some(status) ==> status.summary.key
                == round.ordered[i].key && status.email == email_of(round.ordered[i].auth)
                && status.plan_type == plan_of(round.ordered[i].auth)
        }),
{
    display_order_is_a_permutation(saved.accounts, saved.active);
}

/// What is to be fetched for an entry is that of the entry, and what is shown
/// where it takes too long is what the entry tells.
pub proof fn a_job_is_for_its_entry(round: RoundModel, i: int)
    requires
        0 <= i < round.ordered.len(),
    ensures
        round.job(i).index == i,
        round.job(i).entry == round.ordered[i],
        round.job(i).summary.key == round.ordered[i].key,
        round.job(i).summary.label == round.ordered[i].label,
        round.job(i).summary.auth_mode == round.ordered[i].auth_mode,
        round.job(i).summary.is_active <==> round.saved.active == Some(round.ordered[i].key),
        round.job(i).email == email_of(round.ordered[i].auth),
        round.job(i).plan_type == plan_of(round.ordered[i].auth),
{
}

/// Credentials that a fetch refreshed reach the accounts file, whether the
/// usage came or not: the account then has exactly these credentials, used now.
/// Everything else in the file stays as it was.
pub proof fn refreshed_credentials_reach_the_file(
    round: RoundModel,
    index: int,
    entry: EntryModel,
    auth: AuthModel,
    summary: SummaryModel,
    fetched: Result<Seq<SnapshotModel>, Seq<char>>,
    now: Timestamp,
    i: int,
    j: int,
)
    requires
        auth != entry.auth,
        is_first_with_key(round.saved.accounts, summary.key, i),
        0 <= j < round.saved.accounts.len(),
        j != i,
    ensures
        ({
            let before = round.saved;
            let after = round.with_status(
                index,
                fetched_status_of(entry, auth, summary, fetched),
                now,
            ).saved;
            &&& after.accounts.len() == before.accounts.len()
            &&& after.accounts[i].auth == auth
            &&& after.accounts[i].updated_at == now
            &&& after.accounts[i].key == before.accounts[i].key
            &&& after.accounts[i].label == before.accounts[i].label
            &&& after.accounts[i].auth_mode == before.accounts[i].auth_mode
            &&& after.accounts[j] == before.accounts[j]
            &&& after.active == before.active
            &&& after.version == before.version
        }),
{
    first_is_unique(round.saved.accounts, summary.key, i);
}

/// Any status that brings credentials puts them into the entry with its key,
/// used now; one that brings none, or is for an account that is not saved any
/// more, changes nothing in the file. Either way the status is kept in its
/// place.
pub proof fn a_status_brings_its_credentials(
    round: RoundModel,
    index: int,
    fetched: FetchedModel,
    now: Timestamp,
    i: int,
)
    requires
        0 <= index < round.statuses.len(),
    ensures
        ({
            let after = round.with_status(index, fetched, now);
            let key = fetched.status.summary.key;
            &&& after.ordered == round.ordered
            &&& after.statuses == round.statuses.update(index, Some(fetched.status))
            &&& fetched.updated_auth is None ==> after.saved == round.saved
            &&& !has_key(round.saved.accounts, key) ==> after.saved == round.saved
            &&& fetched.updated_auth is Some && is_first_with_key(round.saved.accounts, key, i)
                ==> after.saved.accounts == round.saved.accounts.update(
                i,
                EntryModel {
                    key: round.saved.accounts[i].key,
                    label: round.saved.accounts[i].label,
                    auth_mode: round.saved.accounts[i].auth_mode,
                    auth: fetched.updated_auth->0,
                    updated_at: now,
                },
            )
        }),
{
    if is_first_with_key(round.saved.accounts, fetched.status.summary.key, i) {
        first_is_unique(round.saved.accounts, fetched.status.summary.key, i);
    }
}

/// What a round writes holds the entries that it has, each as often, in display
/// order, with the same active account.
pub proof fn a_round_writes_what_it_has(round: RoundModel)
    ensures
        round.file_to_write().accounts == display_order(round.saved.accounts, round.saved.active),
        round.file_to_write().accounts.to_multiset() == round.saved.accounts.to_multiset(),
        is_in_display_order(round.file_to_write()),
        round.file_to_write().active == round.saved.active,
        round.file_to_write().version == round.saved.version,
{
    display_order_is_a_permutation(round.saved.accounts, round.saved.active);
    display_order_is_idempotent(round.saved.accounts, round.saved.active);
}

/// Statuses are listed if none is missing, each in its place, and not at all if
/// one is missing.
pub proof fn statuses_are_listed_in_their_places(
    statuses: Seq<Option<StatusModel>>,
    listed: Seq<StatusModel>,
    i: int,
)
    requires
        all_there(statuses, listed),
    ensures
        listed.len() == statuses.len(),
        0 <= i < listed.len() ==> statuses[i] == Some(listed[i]),
{
}

} // verus!
