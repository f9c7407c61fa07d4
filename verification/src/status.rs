//! The status of a saved account: who it belongs to, and how much of its rate
//! limits is used.

use vstd::prelude::*;

use crate::auth::{AccountPlanType, AuthDotJson, AuthModel};
use crate::entry::{EntryModel, SavedAccountEntry};
use crate::identity::{account_email, account_plan_type, email_of, plan_of};
use crate::limits::{RateLimitSnapshot, SnapshotModel};
use crate::store::{SavedAccountSummary, SummaryModel};

verus! {

/// What is known of the rate limits of a saved account.
#[derive(Debug, PartialEq)]
pub enum SavedAccountRateLimits {
    Available(Vec<RateLimitSnapshot>),
    Unsupported { reason: String },
    Unavailable { error: String },
}

/// The model of `SavedAccountRateLimits`.
pub enum RateLimitsModel {
    Available(Seq<SnapshotModel>),
    Unsupported { reason: Seq<char> },
    Unavailable { error: Seq<char> },
}

impl DeepView for SavedAccountRateLimits {
    type V = RateLimitsModel;

    open spec fn deep_view(&self) -> RateLimitsModel {
        match self {
            SavedAccountRateLimits::Available(snapshots) => RateLimitsModel::Available(
                snapshots.deep_view(),
            ),
            SavedAccountRateLimits::Unsupported { reason } => RateLimitsModel::Unsupported {
                reason: reason@,
            },
            SavedAccountRateLimits::Unavailable { error } => RateLimitsModel::Unavailable {
                error: error@,
            },
        }
    }
}

impl Clone for SavedAccountRateLimits {
    fn clone(&self) -> (copy: Self)
        ensures
            copy.deep_view() == self.deep_view(),
    {
        match self {
            SavedAccountRateLimits::Available(snapshots) => {
                let copy: Vec<RateLimitSnapshot> = snapshots.clone();
                assert(copy.deep_view() =~= snapshots.deep_view());
                SavedAccountRateLimits::Available(copy)
            },
            SavedAccountRateLimits::Unsupported { reason } => SavedAccountRateLimits::Unsupported {
                reason: reason.clone(),
            },
            SavedAccountRateLimits::Unavailable { error } => SavedAccountRateLimits::Unavailable {
                error: error.clone(),
            },
        }
    }
}

/// The status of a saved account.
#[derive(Debug, PartialEq)]
pub struct SavedAccountStatus {
    pub summary: SavedAccountSummary,
    pub email: Option<String>,
    pub plan_type: Option<AccountPlanType>,
    pub rate_limits: SavedAccountRateLimits,
}

/// The model of `SavedAccountStatus`.
pub struct StatusModel {
    pub summary: SummaryModel,
    pub email: Option<Seq<char>>,
    pub plan_type: Option<AccountPlanType>,
    pub rate_limits: RateLimitsModel,
}

impl DeepView for SavedAccountStatus {
    type V = StatusModel;

    open spec fn deep_view(&self) -> StatusModel {
        StatusModel {
            summary: self.summary.deep_view(),
            email: self.email.deep_view(),
            plan_type: self.plan_type,
            rate_limits: self.rate_limits.deep_view(),
        }
    }
}

impl Clone for SavedAccountStatus {
    fn clone(&self) -> (copy: Self)
        ensures
            copy.deep_view() == self.deep_view(),
    {
        SavedAccountStatus {
            summary: self.summary.clone(),
            email: self.email.clone(),
            plan_type: self.plan_type,
            rate_limits: self.rate_limits.clone(),
        }
    }
}

/// A status that was fetched, with the credentials where fetching it changed
/// them.
#[derive(Debug, PartialEq)]
pub struct FetchedSavedAccountStatus {
    pub status: SavedAccountStatus,
    pub updated_auth: Option<AuthDotJson>,
}

/// The model of `FetchedSavedAccountStatus`.
pub struct FetchedModel {
    pub status: StatusModel,
    pub updated_auth: Option<AuthModel>,
}

impl DeepView for FetchedSavedAccountStatus {
    type V = FetchedModel;

    open spec fn deep_view(&self) -> FetchedModel {
        FetchedModel {
            status: self.status.deep_view(),
            updated_auth: self.updated_auth.deep_view(),
        }
    }
}

/// The first plan that any of the snapshots names.
pub open spec fn first_plan_of(snapshots: Seq<SnapshotModel>) -> Option<AccountPlanType>
    decreases snapshots.len(),
{
    if snapshots.len() == 0 {
        None
    } else if snapshots[0].plan_type is Some {
        snapshots[0].plan_type
    } else {
        first_plan_of(snapshots.drop_first())
    }
}

/// The first plan that any of the snapshots names.
fn first_plan(snapshots: &Vec<RateLimitSnapshot>) -> (plan_type: Option<AccountPlanType>)
    ensures
        plan_type == first_plan_of(snapshots.deep_view()),
{
    let ghost all = snapshots.deep_view();
    let mut i: usize = 0;
    assert(all.skip(0) =~= all);
    while i < snapshots.len()
        invariant
            all == snapshots.deep_view(),
            i <= snapshots.len(),
            first_plan_of(all) == first_plan_of(all.skip(i as int)),
        decreases snapshots.len() - i,
    {
        assert(all.skip(i as int)[0] == snapshots@[i as int].deep_view());
        if snapshots[i].plan_type.is_some() {
            return snapshots[i].plan_type;
        }
        assert(all.skip(i as int).drop_first() =~= all.skip(i + 1));
        i += 1;
    }
    None
}

/// The status that a fetch for an entry comes to, and the credentials that it
/// leaves in `auth` where these differ from those of the entry. The plan that
/// the rate limits name goes before that of the credentials.
pub open spec fn fetched_status_of(
    entry: EntryModel,
    auth: AuthModel,
    summary: SummaryModel,
    fetched: Result<Seq<SnapshotModel>, Seq<char>>,
) -> FetchedModel {
    FetchedModel {
        status: StatusModel {
            summary,
            email: email_of(entry.auth),
            plan_type: match fetched {
                Ok(snapshots) => match first_plan_of(snapshots) {
                    Some(plan) => Some(plan),
                    None => plan_of(entry.auth),
                },
                Err(_) => plan_of(entry.auth),
            },
            rate_limits: match fetched {
                Ok(snapshots) => RateLimitsModel::Available(snapshots),
                Err(error) => RateLimitsModel::Unavailable { error },
            },
        },
        updated_auth: if auth == entry.auth {
            None
        } else {
            Some(auth)
        },
    }
}

/// What a fetch of rate limits came to, by its model.
pub open spec fn fetched_view(fetched: Result<Vec<RateLimitSnapshot>, String>) -> Result<
    Seq<SnapshotModel>,
    Seq<char>,
> {
    match fetched {
        Ok(snapshots) => Ok(snapshots.deep_view()),
        Err(error) => Err(error@),
    }
}

/// The status that a fetch for `entry` comes to. `auth` holds the credentials
/// as the fetch left them.
pub fn fetch_saved_chatgpt_status(
    entry: &SavedAccountEntry,
    auth: AuthDotJson,
    summary: SavedAccountSummary,
    fetched: Result<Vec<RateLimitSnapshot>, String>,
) -> (status: FetchedSavedAccountStatus)
    ensures
        status.deep_view() == fetched_status_of(
            entry.deep_view(),
            auth.deep_view(),
            summary.deep_view(),
            fetched_view(fetched),
        ),
{
    let email: Option<String> = account_email(&entry.auth);
    let fallback_plan_type: Option<AccountPlanType> = account_plan_type(&entry.auth);
    let updated_auth: Option<AuthDotJson> = if auth.same(&entry.auth) {
        None
    } else {
        Some(auth)
    };
    match fetched {
        Ok(rate_limits) => {
            let plan_type: Option<AccountPlanType> = match first_plan(&rate_limits) {
                Some(plan) => Some(plan),
                None => fallback_plan_type,
            };
            FetchedSavedAccountStatus {
                status: SavedAccountStatus {
                    summary,
                    email,
                    plan_type,
                    rate_limits: SavedAccountRateLimits::Available(rate_limits),
                },
                updated_auth,
            }
        },
        Err(error) => FetchedSavedAccountStatus {
            status: SavedAccountStatus {
                summary,
                email,
                plan_type: fallback_plan_type,
                rate_limits: SavedAccountRateLimits::Unavailable { error },
            },
            updated_auth,
        },
    }
}

/// Credentials that a fetch changed are handed back, whether the usage came or
/// not; those that it left as they were are not.
pub proof fn refreshed_credentials_are_handed_back(
    entry: EntryModel,
    auth: AuthModel,
    summary: SummaryModel,
    fetched: Result<Seq<SnapshotModel>, Seq<char>>,
)
    ensures
        auth != entry.auth ==> fetched_status_of(entry, auth, summary, fetched).updated_auth
            == Some(auth),
        auth == entry.auth ==> fetched_status_of(entry, auth, summary, fetched).updated_auth is None,
{
}

/// A status tells what a fetch came to: the rate limits that it brought, or why
/// it brought none. It is for the account that was asked for, whose email
/// address is that of the entry, whatever the fetch did to the credentials.
pub proof fn a_status_tells_what_a_fetch_came_to(
    entry: EntryModel,
    auth: AuthModel,
    summary: SummaryModel,
    fetched: Result<Seq<SnapshotModel>, Seq<char>>,
)
    ensures
        ({
            let status = fetched_status_of(entry, auth, summary, fetched).status;
            &&& status.summary == summary
            &&& status.email == email_of(entry.auth)
            &&& match fetched {
                Ok(snapshots) => status.rate_limits == RateLimitsModel::Available(snapshots),
                Err(reason) => status.rate_limits == (RateLimitsModel::Unavailable {
                    error: reason,
                }),
            }
        }),
{
}

/// The plan that is shown is the first that the rate limits name. Where they
/// name none, or none came, it is that of the entry.
pub proof fn rate_limits_name_the_plan(
    entry: EntryModel,
    auth: AuthModel,
    summary: SummaryModel,
    fetched: Result<Seq<SnapshotModel>, Seq<char>>,
    i: int,
)
    ensures
        ({
            let plan = fetched_status_of(entry, auth, summary, fetched).status.plan_type;
            match fetched {
                Ok(snapshots) => {
                    &&& 0 <= i < snapshots.len() && snapshots[i].plan_type is Some && (forall|j: int|
                        0 <= j < i ==> (#[trigger] snapshots[j]).plan_type is None) ==> plan
                        == snapshots[i].plan_type
                    &&& (forall|j: int|
                        0 <= j < snapshots.len() ==> (#[trigger] snapshots[j]).plan_type is None)
                        ==> plan == plan_of(entry.auth)
                },
                Err(_) => plan == plan_of(entry.auth),
            }
        }),
{
    if let Ok(snapshots) = fetched {
        if 0 <= i < snapshots.len() && snapshots[i].plan_type is Some && (forall|j: int|
            0 <= j < i ==> (#[trigger] snapshots[j]).plan_type is None) {
            the_first_plan_counts(snapshots, i);
        }
        if forall|j: int|
            0 <= j < snapshots.len() ==> (#[trigger] snapshots[j]).plan_type is None {
            no_plan_is_named(snapshots);
        }
    }
}

/// The first plan is that of the first snapshot that names one.
proof fn the_first_plan_counts(snapshots: Seq<SnapshotModel>, i: int)
    requires
        0 <= i < snapshots.len(),
        snapshots[i].plan_type is Some,
        forall|j: int| 0 <= j < i ==> (#[trigger] snapshots[j]).plan_type is None,
    ensures
        first_plan_of(snapshots) == snapshots[i].plan_type,
    decreases i,
{
    if i > 0 {
        let rest = snapshots.drop_first();
        assert(snapshots[0].plan_type is None);
        assert forall|j: int| 0 <= j < i - 1 implies (#[trigger] rest[j]).plan_type is None by {
            assert(rest[j] == snapshots[j + 1]);
        }
        the_first_plan_counts(rest, i - 1);
    }
}

/// Snapshots that name no plan have no first one.
proof fn no_plan_is_named(snapshots: Seq<SnapshotModel>)
    requires
        forall|j: int| 0 <= j < snapshots.len() ==> (#[trigger] snapshots[j]).plan_type is None,
    ensures
        first_plan_of(snapshots) is None,
    decreases snapshots.len(),
{
    if snapshots.len() > 0 {
        let rest = snapshots.drop_first();
        assert(snapshots[0].plan_type is None);
        assert forall|j: int| 0 <= j < rest.len() implies (#[trigger] rest[j]).plan_type is None by {
            assert(rest[j] == snapshots[j + 1]);
        }
        no_plan_is_named(rest);
    }
}

} // verus!
