//! The course of a fetch of rate limits: tokens that look stale are refreshed
//! first, and where the credentials are not accepted they are refreshed and
//! the request is made once more.

use vstd::prelude::*;

use crate::auth::AuthDotJson;
use crate::error::attempt_view;
use crate::limits::{
    rate_limit_snapshots_from_payload, snapshots_of, RateLimitSnapshot, RateLimitStatusPayload,
    SnapshotModel,
};
use crate::refresh::{needs_refresh, should_refresh_proactively};
use crate::status::fetched_view;
use crate::time::Timestamp;
use crate::usage::{UsageErrorModel, UsageFetchError};

verus! {

/// What a fetch has to do next.
#[derive(Debug, PartialEq)]
pub enum FetchPhase {
    /// Refresh the tokens, then ask for the usage.
    RefreshFirst,
    /// Ask for the usage.
    FirstRequest,
    /// Refresh the tokens that were not accepted, then ask again.
    RefreshAgain,
    /// Ask for the usage for the last time.
    SecondRequest,
    /// Nothing: this is what the fetch came to.
    Done(Result<Vec<RateLimitSnapshot>, String>),
}

/// The model of `FetchPhase`.
pub enum PhaseModel {
    RefreshFirst,
    FirstRequest,
    RefreshAgain,
    SecondRequest,
    Done(Result<Seq<SnapshotModel>, Seq<char>>),
}

impl DeepView for FetchPhase {
    type V = PhaseModel;

    open spec fn deep_view(&self) -> PhaseModel {
        match self {
            FetchPhase::RefreshFirst => PhaseModel::RefreshFirst,
            FetchPhase::FirstRequest => PhaseModel::FirstRequest,
            FetchPhase::RefreshAgain => PhaseModel::RefreshAgain,
            FetchPhase::SecondRequest => PhaseModel::SecondRequest,
            FetchPhase::Done(fetched) => PhaseModel::Done(fetched_view(*fetched)),
        }
    }
}

impl PhaseModel {
    /// Whether the tokens are to be refreshed.
    pub open spec fn is_refresh(self) -> bool {
        self is RefreshFirst || self is RefreshAgain
    }

    /// Whether the usage is to be asked for.
    pub open spec fn is_request(self) -> bool {
        self is FirstRequest || self is SecondRequest
    }

    /// How many steps the fetch can still take.
    pub open spec fn steps_left(self) -> nat {
        match self {
            PhaseModel::RefreshFirst => 4,
            PhaseModel::FirstRequest => 3,
            PhaseModel::RefreshAgain => 2,
            PhaseModel::SecondRequest => 1,
            PhaseModel::Done(_) => 0,
        }
    }
}

/// How a fetch begins.
pub open spec fn first_phase(stale: bool) -> PhaseModel {
    if stale {
        PhaseModel::RefreshFirst
    } else {
        PhaseModel::FirstRequest
    }
}

/// How a fetch goes on after a refresh.
pub open spec fn phase_after_refresh(phase: PhaseModel, refreshed: Result<(), Seq<char>>) -> PhaseModel {
    match refreshed {
        Ok(()) => if phase is RefreshFirst {
            PhaseModel::FirstRequest
        } else {
            PhaseModel::SecondRequest
        },
        Err(error) => PhaseModel::Done(Err(error)),
    }
}

/// How a fetch goes on after a request for usage.
pub open spec fn phase_after_usage(
    phase: PhaseModel,
    usage: Result<Seq<SnapshotModel>, UsageErrorModel>,
) -> PhaseModel {
    match usage {
        Ok(snapshots) => PhaseModel::Done(Ok(snapshots)),
        Err(UsageErrorModel::Unauthorized) => if phase is FirstRequest {
            PhaseModel::RefreshAgain
        } else {
            PhaseModel::Done(Err("credentials expired"@))
        },
        Err(UsageErrorModel::Other(error)) => PhaseModel::Done(Err(error)),
    }
}

/// What a request for usage came to, by its model.
pub open spec fn usage_view(usage: Result<RateLimitStatusPayload, UsageFetchError>) -> Result<
    Seq<SnapshotModel>,
    UsageErrorModel,
> {
    match usage {
        Ok(payload) => Ok(snapshots_of(payload)),
        Err(error) => Err(error.deep_view()),
    }
}

/// How the fetch for `auth` begins. `access_token_expires_at` is when the
/// access token says that it expires, if it does.
pub fn begin_fetch(
    auth: &AuthDotJson,
    access_token_expires_at: Option<Timestamp>,
    now: Timestamp,
) -> (phase: FetchPhase)
    requires
        now.is_clock_reading(),
    ensures
        phase.deep_view() == first_phase(
            needs_refresh(auth.deep_view(), access_token_expires_at, now),
        ),
{
    if should_refresh_proactively(auth, access_token_expires_at, now) {
        FetchPhase::RefreshFirst
    } else {
        FetchPhase::FirstRequest
    }
}

/// How the fetch goes on after the refresh that it asked for.
pub fn after_refresh(phase: FetchPhase, refreshed: Result<(), String>) -> (next: FetchPhase)
    requires
        phase.deep_view().is_refresh(),
    ensures
        next.deep_view() == phase_after_refresh(phase.deep_view(), attempt_view(refreshed)),
        next.deep_view().steps_left() < phase.deep_view().steps_left(),
{
    match refreshed {
        Ok(()) => match phase {
            FetchPhase::RefreshFirst => FetchPhase::FirstRequest,
            _ => FetchPhase::SecondRequest,
        },
        Err(error) => FetchPhase::Done(Err(error)),
    }
}

/// How the fetch goes on after the request for usage that it asked for.
pub fn after_usage(
    phase: FetchPhase,
    usage: Result<RateLimitStatusPayload, UsageFetchError>,
) -> (next: FetchPhase)
    requires
        phase.deep_view().is_request(),
    ensures
        next.deep_view() == phase_after_usage(phase.deep_view(), usage_view(usage)),
        next.deep_view().steps_left() < phase.deep_view().steps_left(),
{
    match usage {
        Ok(payload) => FetchPhase::Done(Ok(rate_limit_snapshots_from_payload(payload))),
        Err(UsageFetchError::Unauthorized) => match phase {
            FetchPhase::FirstRequest => FetchPhase::RefreshAgain,
            _ => FetchPhase::Done(Err("credentials expired".to_owned())),
        },
        Err(UsageFetchError::Other(error)) => FetchPhase::Done(Err(error)),
    }
}

/// What a fetch comes to, given what each of its steps would come to.
pub open spec fn fetch_outcome(
    stale: bool,
    first_refresh: Result<(), Seq<char>>,
    first_usage: Result<Seq<SnapshotModel>, UsageErrorModel>,
    second_refresh: Result<(), Seq<char>>,
    second_usage: Result<Seq<SnapshotModel>, UsageErrorModel>,
) -> Result<Seq<SnapshotModel>, Seq<char>> {
    if stale && first_refresh is Err {
        Err(first_refresh->Err_0)
    } else {
        match first_usage {
            Ok(snapshots) => Ok(snapshots),
            Err(UsageErrorModel::Other(error)) => Err(error),
            Err(UsageErrorModel::Unauthorized) => if second_refresh is Err {
                Err(second_refresh->Err_0)
            } else {
                match second_usage {
                    Ok(snapshots) => Ok(snapshots),
                    Err(UsageErrorModel::Other(error)) => Err(error),
                    Err(UsageErrorModel::Unauthorized) => Err("credentials expired"@),
                }
            },
        }
    }
}

/// A phase taken to its next one, given what each step would come to.
pub open spec fn stepped(
    phase: PhaseModel,
    first_refresh: Result<(), Seq<char>>,
    first_usage: Result<Seq<SnapshotModel>, UsageErrorModel>,
    second_refresh: Result<(), Seq<char>>,
    second_usage: Result<Seq<SnapshotModel>, UsageErrorModel>,
) -> PhaseModel {
    match phase {
        PhaseModel::RefreshFirst => phase_after_refresh(phase, first_refresh),
        PhaseModel::FirstRequest => phase_after_usage(phase, first_usage),
        PhaseModel::RefreshAgain => phase_after_refresh(phase, second_refresh),
        PhaseModel::SecondRequest => phase_after_usage(phase, second_usage),
        PhaseModel::Done(_) => phase,
    }
}

/// A fetch ends after at most four steps. Stale tokens are refreshed first;
/// credentials that are not accepted are refreshed and tried once more, and
/// have expired if they are not accepted then either; any other failure ends
/// the fetch as it is.
pub proof fn a_fetch_ends_after_one_retry(
    stale: bool,
    first_refresh: Result<(), Seq<char>>,
    first_usage: Result<Seq<SnapshotModel>, UsageErrorModel>,
    second_refresh: Result<(), Seq<char>>,
    second_usage: Result<Seq<SnapshotModel>, UsageErrorModel>,
)
    ensures
        ({
            let step = |phase: PhaseModel|
                stepped(phase, first_refresh, first_usage, second_refresh, second_usage);
            step(step(step(step(first_phase(stale))))) == PhaseModel::Done(
                fetch_outcome(stale, first_refresh, first_usage, second_refresh, second_usage),
            )
        }),
{
}

/// A fetch begins with a refresh if the tokens are stale, and with a request if
/// they are not.
pub proof fn a_fetch_begins_with_fresh_tokens(stale: bool)
    ensures
        stale ==> first_phase(stale) is RefreshFirst,
        !stale ==> first_phase(stale) is FirstRequest,
{
}

/// After a refresh that succeeded comes a request, and one that failed ends the
/// fetch with its reason.
pub proof fn a_refresh_leads_to_a_request(phase: PhaseModel, refreshed: Result<(), Seq<char>>)
    requires
        phase.is_refresh(),
    ensures
        match refreshed {
            Ok(()) => phase_after_refresh(phase, refreshed).is_request(),
            Err(reason) => phase_after_refresh(phase, refreshed) == PhaseModel::Done(Err(reason)),
        },
        phase is RefreshFirst && refreshed is Ok ==> phase_after_refresh(phase, refreshed) is FirstRequest,
{
}

/// Usage that came ends the fetch with it, at the first request and at the
/// second, and a failure other than a refusal ends it with its reason.
pub proof fn usage_ends_a_fetch(
    phase: PhaseModel,
    usage: Result<Seq<SnapshotModel>, UsageErrorModel>,
)
    requires
        phase.is_request(),
    ensures
        match usage {
            Ok(snapshots) => phase_after_usage(phase, usage) == PhaseModel::Done(Ok(snapshots)),
            Err(UsageErrorModel::Other(reason)) => phase_after_usage(phase, usage)
                == PhaseModel::Done(Err(reason)),
            Err(UsageErrorModel::Unauthorized) => true,
        },
{
}

/// Credentials that are refused at first are refreshed and tried once more, and
/// if they are refused again they have expired.
pub proof fn refused_credentials_are_tried_once_more(
    refreshed: Result<(), Seq<char>>,
    usage: Result<Seq<SnapshotModel>, UsageErrorModel>,
)
    ensures
        ({
            let refused = phase_after_usage(
                PhaseModel::FirstRequest,
                Err(UsageErrorModel::Unauthorized),
            );
            let again = phase_after_refresh(refused, refreshed);
            let end = phase_after_usage(again, usage);
            &&& refused.is_refresh()
            &&& match refreshed {
                Err(reason) => again == PhaseModel::Done(Err(reason)),
                Ok(()) => {
                    &&& again.is_request()
                    &&& match usage {
                        Ok(snapshots) => end == PhaseModel::Done(Ok(snapshots)),
                        Err(UsageErrorModel::Unauthorized) => end == PhaseModel::Done(
                            Err("credentials expired"@),
                        ),
                        Err(UsageErrorModel::Other(reason)) => end == PhaseModel::Done(Err(reason)),
                    }
                },
            }
        }),
{
}

} // verus!
