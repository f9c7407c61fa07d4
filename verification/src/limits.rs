//! Rate limits: what the backend reports of them, and the snapshots that are
//! made of it.

use vstd::prelude::*;

use crate::auth::{plan_name, AccountPlanType};

verus! {

/// The plan that the backend reports.
#[derive(Debug, Clone, Copy, PartialEq, Eq, Structural)]
pub enum BackendPlanType {
    Guest,
    Free,
    Go,
    Plus,
    Pro,
    ProLite,
    FreeWorkspace,
    Team,
    SelfServeBusinessUsageBased,
    Business,
    EnterpriseCbpUsageBased,
    Education,
    Quorum,
    K12,
    Enterprise,
    Edu,
    Unknown,
}

/// The kind of limit that the backend reports as reached.
#[derive(Debug, Clone, Copy, PartialEq, Eq, Structural)]
pub enum BackendRateLimitReachedKind {
    RateLimitReached,
    WorkspaceOwnerCreditsDepleted,
    WorkspaceMemberCreditsDepleted,
    WorkspaceOwnerUsageLimitReached,
    WorkspaceMemberUsageLimitReached,
    Unknown,
}

/// The limit that the backend reports as reached.
#[derive(Debug, Clone, Copy, PartialEq, Eq, Structural)]
pub struct RateLimitReachedDetails {
    pub kind: BackendRateLimitReachedKind,
}

/// One window of a rate limit, as the backend reports it.
#[derive(Debug, Clone, Copy, PartialEq, Eq, Structural)]
pub struct RateLimitWindowSnapshot {
    pub used_percent: i32,
    pub limit_window_seconds: i32,
    pub reset_at: i32,
}

/// A rate limit, as the backend reports it. An outer `None` is a field that is
/// missing, an inner one a field that is null.
#[derive(Debug, PartialEq, Eq)]
pub struct RateLimitStatusDetails {
    pub primary_window: Option<Option<Box<RateLimitWindowSnapshot>>>,
    pub secondary_window: Option<Option<Box<RateLimitWindowSnapshot>>>,
}

/// The credits of an account, as the backend reports them.
#[derive(Debug, PartialEq, Eq)]
pub struct CreditStatusDetails {
    pub has_credits: bool,
    pub unlimited: bool,
    pub balance: Option<Option<String>>,
}

/// A further rate limit, as the backend reports it.
#[derive(Debug, PartialEq, Eq)]
pub struct AdditionalRateLimitDetails {
    pub limit_name: String,
    pub metered_feature: String,
    pub rate_limit: Option<Option<Box<RateLimitStatusDetails>>>,
}

/// The usage that the backend reports for an account.
#[derive(Debug, PartialEq, Eq)]
pub struct RateLimitStatusPayload {
    pub plan_type: BackendPlanType,
    pub rate_limit: Option<Option<Box<RateLimitStatusDetails>>>,
    pub credits: Option<Option<Box<CreditStatusDetails>>>,
    pub additional_rate_limits: Option<Option<Vec<AdditionalRateLimitDetails>>>,
    pub rate_limit_reached_type: Option<Option<Box<RateLimitReachedDetails>>>,
}

/// The kind of limit that was reached.
#[derive(Debug, Clone, Copy, PartialEq, Eq, Structural)]
pub enum RateLimitReachedType {
    RateLimitReached,
    WorkspaceOwnerCreditsDepleted,
    WorkspaceMemberCreditsDepleted,
    WorkspaceOwnerUsageLimitReached,
    WorkspaceMemberUsageLimitReached,
}

/// One window of a rate limit: how much of it is used, in percent, how long
/// it is, and when it starts again, in seconds since the Unix epoch.
#[derive(Debug, Clone, Copy, PartialEq, Eq, Structural)]
pub struct RateLimitWindow {
    pub used_percent: i32,
    pub window_minutes: Option<i64>,
    pub resets_at: Option<i64>,
}

/// The credits of an account.
#[derive(Debug, PartialEq, Eq)]
pub struct CreditsSnapshot {
    pub has_credits: bool,
    pub unlimited: bool,
    pub balance: Option<String>,
}

/// The model of `CreditsSnapshot`.
pub struct CreditsModel {
    pub has_credits: bool,
    pub unlimited: bool,
    pub balance: Option<Seq<char>>,
}

impl DeepView for CreditsSnapshot {
    type V = CreditsModel;

    open spec fn deep_view(&self) -> CreditsModel {
        CreditsModel {
            has_credits: self.has_credits,
            unlimited: self.unlimited,
            balance: self.balance.deep_view(),
        }
    }
}

impl Clone for CreditsSnapshot {
    fn clone(&self) -> (copy: Self)
        ensures
            copy == *self,
    {
        CreditsSnapshot {
            has_credits: self.has_credits,
            unlimited: self.unlimited,
            balance: self.balance.clone(),
        }
    }
}

/// The state of one rate limit.
#[derive(Debug, PartialEq, Eq)]
pub struct RateLimitSnapshot {
    pub limit_id: Option<String>,
    pub limit_name: Option<String>,
    pub primary: Option<RateLimitWindow>,
    pub secondary: Option<RateLimitWindow>,
    pub credits: Option<CreditsSnapshot>,
    pub plan_type: Option<AccountPlanType>,
    pub rate_limit_reached_type: Option<RateLimitReachedType>,
}

/// The model of `RateLimitSnapshot`.
pub struct SnapshotModel {
    pub limit_id: Option<Seq<char>>,
    pub limit_name: Option<Seq<char>>,
    pub primary: Option<RateLimitWindow>,
    pub secondary: Option<RateLimitWindow>,
    pub credits: Option<CreditsModel>,
    pub plan_type: Option<AccountPlanType>,
    pub rate_limit_reached_type: Option<RateLimitReachedType>,
}

impl DeepView for RateLimitSnapshot {
    type V = SnapshotModel;

    open spec fn deep_view(&self) -> SnapshotModel {
        SnapshotModel {
            limit_id: self.limit_id.deep_view(),
            limit_name: self.limit_name.deep_view(),
            primary: self.primary,
            secondary: self.secondary,
            credits: self.credits.deep_view(),
            plan_type: self.plan_type,
            rate_limit_reached_type: self.rate_limit_reached_type,
        }
    }
}

impl Clone for RateLimitSnapshot {
    fn clone(&self) -> (copy: Self)
        ensures
            copy == *self,
    {
        RateLimitSnapshot {
            limit_id: self.limit_id.clone(),
            limit_name: self.limit_name.clone(),
            primary: self.primary,
            secondary: self.secondary,
            credits: self.credits.clone(),
            plan_type: self.plan_type,
            rate_limit_reached_type: self.rate_limit_reached_type,
        }
    }
}

/// An optional value that may be missing or null: `None` in either case.
pub open spec fn flat<T>(value: Option<Option<T>>) -> Option<T> {
    match value {
        Some(inner) => inner,
        None => None,
    }
}

/// `value`, with missing and null taken together.
fn flatten<T>(value: Option<Option<T>>) -> (flattened: Option<T>)
    ensures
        flattened == flat(value),
{
    match value {
        Some(inner) => inner,
        None => None,
    }
}

/// The plan that is shown for one that the backend reports.
pub open spec fn shown_backend_plan_of(plan: BackendPlanType) -> AccountPlanType {
    match plan {
        BackendPlanType::Guest => AccountPlanType::Free,
        BackendPlanType::Free => AccountPlanType::Free,
        BackendPlanType::FreeWorkspace => AccountPlanType::Free,
        BackendPlanType::Go => AccountPlanType::Go,
        BackendPlanType::Plus => AccountPlanType::Plus,
        BackendPlanType::Pro => AccountPlanType::Pro,
        BackendPlanType::ProLite => AccountPlanType::ProLite,
        BackendPlanType::Team => AccountPlanType::Team,
        BackendPlanType::SelfServeBusinessUsageBased =>
            AccountPlanType::SelfServeBusinessUsageBased,
        BackendPlanType::Business => AccountPlanType::Business,
        BackendPlanType::EnterpriseCbpUsageBased => AccountPlanType::EnterpriseCbpUsageBased,
        BackendPlanType::Enterprise => AccountPlanType::Enterprise,
        BackendPlanType::Education => AccountPlanType::Edu,
        BackendPlanType::Edu => AccountPlanType::Edu,
        BackendPlanType::Quorum => AccountPlanType::Unknown,
        BackendPlanType::K12 => AccountPlanType::Unknown,
        BackendPlanType::Unknown => AccountPlanType::Unknown,
    }
}

/// The plan that is shown for one that the backend reports.
pub fn map_backend_plan_type(plan_type: BackendPlanType) -> (shown: AccountPlanType)
    ensures
        shown == shown_backend_plan_of(plan_type),
{
    match plan_type {
        BackendPlanType::Guest | BackendPlanType::Free | BackendPlanType::FreeWorkspace =>
            AccountPlanType::Free,
        BackendPlanType::Go => AccountPlanType::Go,
        BackendPlanType::Plus => AccountPlanType::Plus,
        BackendPlanType::Pro => AccountPlanType::Pro,
        BackendPlanType::ProLite => AccountPlanType::ProLite,
        BackendPlanType::Team => AccountPlanType::Team,
        BackendPlanType::SelfServeBusinessUsageBased =>
            AccountPlanType::SelfServeBusinessUsageBased,
        BackendPlanType::Business => AccountPlanType::Business,
        BackendPlanType::EnterpriseCbpUsageBased => AccountPlanType::EnterpriseCbpUsageBased,
        BackendPlanType::Enterprise => AccountPlanType::Enterprise,
        BackendPlanType::Education | BackendPlanType::Edu => AccountPlanType::Edu,
        BackendPlanType::Quorum | BackendPlanType::K12 | BackendPlanType::Unknown =>
            AccountPlanType::Unknown,
    }
}

/// The kind of limit that is shown as reached, if it is known.
pub open spec fn reached_type_of(kind: BackendRateLimitReachedKind) -> Option<
    RateLimitReachedType,
> {
    match kind {
        BackendRateLimitReachedKind::RateLimitReached => Some(
            RateLimitReachedType::RateLimitReached,
        ),
        BackendRateLimitReachedKind::WorkspaceOwnerCreditsDepleted => Some(
            RateLimitReachedType::WorkspaceOwnerCreditsDepleted,
        ),
        BackendRateLimitReachedKind::WorkspaceMemberCreditsDepleted => Some(
            RateLimitReachedType::WorkspaceMemberCreditsDepleted,
        ),
        BackendRateLimitReachedKind::WorkspaceOwnerUsageLimitReached => Some(
            RateLimitReachedType::WorkspaceOwnerUsageLimitReached,
        ),
        BackendRateLimitReachedKind::WorkspaceMemberUsageLimitReached => Some(
            RateLimitReachedType::WorkspaceMemberUsageLimitReached,
        ),
        BackendRateLimitReachedKind::Unknown => None,
    }
}

/// The kind of limit that is shown as reached, if it is known.
pub fn map_rate_limit_reached_type(kind: BackendRateLimitReachedKind) -> (reached: Option<
    RateLimitReachedType,
>)
    ensures
        reached == reached_type_of(kind),
{
    match kind {
        BackendRateLimitReachedKind::RateLimitReached => Some(
            RateLimitReachedType::RateLimitReached,
        ),
        BackendRateLimitReachedKind::WorkspaceOwnerCreditsDepleted => Some(
            RateLimitReachedType::WorkspaceOwnerCreditsDepleted,
        ),
        BackendRateLimitReachedKind::WorkspaceMemberCreditsDepleted => Some(
            RateLimitReachedType::WorkspaceMemberCreditsDepleted,
        ),
        BackendRateLimitReachedKind::WorkspaceOwnerUsageLimitReached => Some(
            RateLimitReachedType::WorkspaceOwnerUsageLimitReached,
        ),
        BackendRateLimitReachedKind::WorkspaceMemberUsageLimitReached => Some(
            RateLimitReachedType::WorkspaceMemberUsageLimitReached,
        ),
        BackendRateLimitReachedKind::Unknown => None,
    }
}

/// The length of a window in minutes: the least number of whole minutes that
/// holds its seconds, where it has any.
pub open spec fn minutes_of(seconds: int) -> Option<int> {
    if seconds <= 0 {
        None
    } else {
        Some((seconds + 59) / 60)
    }
}

/// The length of a window in minutes, rounded up. A window of no length has
/// none.
pub fn window_minutes_from_seconds(seconds: i32) -> (minutes: Option<i64>)
    ensures
        match minutes {
            Some(m) => minutes_of(seconds as int) == Some(m as int),
            None => minutes_of(seconds as int) is None,
        },
        minutes matches Some(m) ==> 60 * (m - 1) < seconds <= 60 * m,
{
    if seconds <= 0 {
        return None;
    }
    let seconds: i64 = seconds as i64;
    Some((seconds + 59) / 60)
}

/// The window that is made of one that the backend reports.
pub open spec fn window_of(window: Option<RateLimitWindowSnapshot>) -> Option<RateLimitWindow> {
    match window {
        Some(snapshot) => Some(
            RateLimitWindow {
                used_percent: snapshot.used_percent,
                window_minutes: match minutes_of(snapshot.limit_window_seconds as int) {
                    Some(minutes) => Some(minutes as i64),
                    None => None,
                },
                resets_at: Some(snapshot.reset_at as i64),
            },
        ),
        None => None,
    }
}

/// A window that the backend reports, without the two ways of leaving it out.
pub open spec fn reported_window(window: Option<Option<Box<RateLimitWindowSnapshot>>>) -> Option<
    RateLimitWindowSnapshot,
> {
    match flat(window) {
        Some(snapshot) => Some(*snapshot),
        None => None,
    }
}

/// The window that is made of one that the backend reports.
pub fn map_rate_limit_window(window: Option<Option<Box<RateLimitWindowSnapshot>>>) -> (mapped:
    Option<RateLimitWindow>)
    ensures
        mapped == window_of(reported_window(window)),
{
    match flatten(window) {
        Some(snapshot) => Some(
            RateLimitWindow {
                used_percent: snapshot.used_percent,
                window_minutes: window_minutes_from_seconds(snapshot.limit_window_seconds),
                resets_at: Some(snapshot.reset_at as i64),
            },
        ),
        None => None,
    }
}

/// The credits that are made of what the backend reports.
pub open spec fn credits_of(credits: Option<CreditStatusDetails>) -> Option<CreditsModel> {
    match credits {
        Some(details) => Some(
            CreditsModel {
                has_credits: details.has_credits,
                unlimited: details.unlimited,
                balance: flat(details.balance).deep_view(),
            },
        ),
        None => None,
    }
}

/// The credits that are made of what the backend reports.
pub fn map_credits(credits: Option<CreditStatusDetails>) -> (mapped: Option<CreditsSnapshot>)
    ensures
        mapped.deep_view() == credits_of(credits),
{
    match credits {
        Some(details) => Some(
            CreditsSnapshot {
                has_credits: details.has_credits,
                unlimited: details.unlimited,
                balance: flatten(details.balance),
            },
        ),
        None => None,
    }
}

/// The snapshot of a rate limit that the backend reports.
pub open spec fn snapshot_of(
    limit_id: Option<Seq<char>>,
    limit_name: Option<Seq<char>>,
    rate_limit: Option<RateLimitStatusDetails>,
    credits: Option<CreditStatusDetails>,
    plan_type: Option<AccountPlanType>,
    rate_limit_reached_type: Option<RateLimitReachedType>,
) -> SnapshotModel {
    SnapshotModel {
        limit_id,
        limit_name,
        primary: match rate_limit {
            Some(details) => window_of(reported_window(details.primary_window)),
            None => None,
        },
        secondary: match rate_limit {
            Some(details) => window_of(reported_window(details.secondary_window)),
            None => None,
        },
        credits: credits_of(credits),
        plan_type,
        rate_limit_reached_type,
    }
}

/// The snapshot of a rate limit that the backend reports.
pub fn make_rate_limit_snapshot(
    limit_id: Option<String>,
    limit_name: Option<String>,
    rate_limit: Option<RateLimitStatusDetails>,
    credits: Option<CreditStatusDetails>,
    plan_type: Option<AccountPlanType>,
    rate_limit_reached_type: Option<RateLimitReachedType>,
) -> (snapshot: RateLimitSnapshot)
    ensures
        snapshot.deep_view() == snapshot_of(
            limit_id.deep_view(),
            limit_name.deep_view(),
            rate_limit,
            credits,
            plan_type,
            rate_limit_reached_type,
        ),
{
    let (primary, secondary): (Option<RateLimitWindow>, Option<RateLimitWindow>) =
        match rate_limit {
        Some(details) => (
            map_rate_limit_window(details.primary_window),
            map_rate_limit_window(details.secondary_window),
        ),
        None => (None, None),
    };
    RateLimitSnapshot {
        limit_id,
        limit_name,
        primary,
        secondary,
        credits: map_credits(credits),
        plan_type,
        rate_limit_reached_type,
    }
}

/// A boxed value that may be missing or null, without its box.
pub open spec fn unboxed<T>(value: Option<Option<Box<T>>>) -> Option<T> {
    match flat(value) {
        Some(boxed) => Some(*boxed),
        None => None,
    }
}

/// The snapshot of the main rate limit in a report.
pub open spec fn main_snapshot_of(payload: RateLimitStatusPayload) -> SnapshotModel {
    snapshot_of(
        Some("codex"@),
        None,
        unboxed(payload.rate_limit),
        unboxed(payload.credits),
        Some(shown_backend_plan_of(payload.plan_type)),
        match unboxed(payload.rate_limit_reached_type) {
            Some(details) => reached_type_of(details.kind),
            None => None,
        },
    )
}

/// The snapshot of a further rate limit in a report. It carries the plan, but
/// neither credits nor which limit was reached.
pub open spec fn further_snapshot_of(
    details: AdditionalRateLimitDetails,
    plan_type: BackendPlanType,
) -> SnapshotModel {
    snapshot_of(
        Some(details.metered_feature@),
        Some(details.limit_name@),
        unboxed(details.rate_limit),
        None,
        Some(shown_backend_plan_of(plan_type)),
        None,
    )
}

/// The snapshots of a report: the main limit first, then the further ones as
/// they are listed.
pub open spec fn snapshots_of(payload: RateLimitStatusPayload) -> Seq<SnapshotModel> {
    let further = match flat(payload.additional_rate_limits) {
        Some(list) => list@.map_values(
            |details: AdditionalRateLimitDetails| further_snapshot_of(details, payload.plan_type),
        ),
        None => seq![],
    };
    seq![main_snapshot_of(payload)] + further
}

/// `value` without its box, with missing and null taken together.
fn unbox<T>(value: Option<Option<Box<T>>>) -> (inner: Option<T>)
    ensures
        inner == unboxed(value),
{
    match flatten(value) {
        Some(boxed) => Some(*boxed),
        None => None,
    }
}

/// The snapshots of the rate limits that the backend reports.
pub fn rate_limit_snapshots_from_payload(payload: RateLimitStatusPayload) -> (snapshots: Vec<
    RateLimitSnapshot,
>)
    ensures
        snapshots.deep_view() == snapshots_of(payload),
{
    let plan_type: Option<AccountPlanType> = Some(map_backend_plan_type(payload.plan_type));
    let rate_limit_reached_type: Option<RateLimitReachedType> = match unbox(
        payload.rate_limit_reached_type,
    ) {
        Some(details) => map_rate_limit_reached_type(details.kind),
        None => None,
    };
    let mut snapshots: Vec<RateLimitSnapshot> = Vec::new();
    snapshots.push(
        make_rate_limit_snapshot(
            Some("codex".to_owned()),
            None,
            unbox(payload.rate_limit),
            unbox(payload.credits),
            plan_type,
            rate_limit_reached_type,
        ),
    );
    let ghost wanted = snapshots_of(payload);
    assert(snapshots.deep_view() =~= wanted.take(1));
    if let Some(additional) = flatten(payload.additional_rate_limits) {
        for details in it: additional
            invariant
                plan_type == Some(shown_backend_plan_of(payload.plan_type)),
                it.seq() == additional@,
                flat(payload.additional_rate_limits) == Some(additional),
                wanted == snapshots_of(payload),
                snapshots.deep_view() == wanted.take(it.index() + 1),
        {
            let ghost before = snapshots.deep_view();
            let snapshot: RateLimitSnapshot = make_rate_limit_snapshot(
                Some(details.metered_feature),
                Some(details.limit_name),
                unbox(details.rate_limit),
                None,
                plan_type,
                None,
            );
            assert(snapshot.deep_view() == wanted[it.index() + 1]);
            let ghost model = snapshot.deep_view();
            snapshots.push(snapshot);
            assert(snapshots.deep_view() =~= before.push(model));
            assert(wanted.take(it.index() + 2) =~= wanted.take(it.index() + 1).push(model));
        }
    }
    assert(wanted.take(wanted.len() as int) =~= wanted);
    snapshots
}

/// The length of a window in minutes is the least number of whole minutes that
/// holds its seconds. A window without seconds has none.
pub proof fn minutes_hold_the_seconds(seconds: int)
    ensures
        match minutes_of(seconds) {
            Some(minutes) => 0 < seconds && 60 * (minutes - 1) < seconds <= 60 * minutes,
            None => seconds <= 0,
        },
{
}

/// A window is made of each that is reported, neither missing nor null, with
/// how much of it is used, its length in minutes and when it starts again; and
/// of no other.
pub proof fn windows_are_made_of_those_reported(
    window: Option<Option<Box<RateLimitWindowSnapshot>>>,
)
    ensures
        match window {
            Some(Some(reported)) => {
                &&& window_of(reported_window(window)) matches Some(made)
                &&& made.used_percent == reported.used_percent
                &&& made.resets_at == Some(reported.reset_at as i64)
                &&& made.window_minutes is Some <==> reported.limit_window_seconds > 0
                &&& made.window_minutes matches Some(minutes) ==> 60 * (minutes - 1)
                    < reported.limit_window_seconds <= 60 * minutes
            },
            _ => window_of(reported_window(window)) is None,
        },
{
}

/// Each window of a snapshot is the one reported in its place, whatever the
/// other window is, and whatever else is reported.
pub proof fn a_snapshot_has_both_windows(
    limit_id: Option<Seq<char>>,
    limit_name: Option<Seq<char>>,
    details: RateLimitStatusDetails,
    credits: Option<CreditStatusDetails>,
    plan_type: Option<AccountPlanType>,
    reached: Option<RateLimitReachedType>,
)
    ensures
        ({
            let snapshot = snapshot_of(
                limit_id,
                limit_name,
                Some(details),
                credits,
                plan_type,
                reached,
            );
            &&& match details.primary_window {
                Some(Some(reported)) => {
                    &&& snapshot.primary matches Some(made)
                    &&& made.used_percent == reported.used_percent
                    &&& made.resets_at == Some(reported.reset_at as i64)
                    &&& made.window_minutes is Some <==> reported.limit_window_seconds > 0
                    &&& made.window_minutes matches Some(minutes) ==> 60 * (minutes - 1)
                        < reported.limit_window_seconds <= 60 * minutes
                },
                _ => snapshot.primary is None,
            }
            &&& match details.secondary_window {
                Some(Some(reported)) => {
                    &&& snapshot.secondary matches Some(made)
                    &&& made.used_percent == reported.used_percent
                    &&& made.resets_at == Some(reported.reset_at as i64)
                    &&& made.window_minutes is Some <==> reported.limit_window_seconds > 0
                    &&& made.window_minutes matches Some(minutes) ==> 60 * (minutes - 1)
                        < reported.limit_window_seconds <= 60 * minutes
                },
                _ => snapshot.secondary is None,
            }
        }),
{
}

/// A snapshot carries its names, its plan and which limit was reached as they
/// are, and the credits that are reported. Where no rate limit is reported it
/// has no windows.
pub proof fn a_snapshot_carries_what_it_is_made_of(
    limit_id: Option<Seq<char>>,
    limit_name: Option<Seq<char>>,
    rate_limit: Option<RateLimitStatusDetails>,
    credits: Option<CreditStatusDetails>,
    plan_type: Option<AccountPlanType>,
    reached: Option<RateLimitReachedType>,
)
    ensures
        ({
            let snapshot = snapshot_of(
                limit_id,
                limit_name,
                rate_limit,
                credits,
                plan_type,
                reached,
            );
            &&& snapshot.limit_id == limit_id
            &&& snapshot.limit_name == limit_name
            &&& snapshot.plan_type == plan_type
            &&& snapshot.rate_limit_reached_type == reached
            &&& rate_limit is None ==> snapshot.primary is None && snapshot.secondary is None
            &&& match credits {
                Some(reported) => {
                    &&& snapshot.credits matches Some(made)
                    &&& made.has_credits == reported.has_credits
                    &&& made.unlimited == reported.unlimited
                    &&& match reported.balance {
                        Some(Some(balance)) => made.balance == Some(balance@),
                        _ => made.balance is None,
                    }
                },
                None => snapshot.credits is None,
            }
        }),
{
}

/// A report gives one snapshot for the main limit and one for each further
/// limit, in order, all with the plan. The main one alone has credits, and
/// alone says which limit was reached; the further ones have names of their
/// own.
pub proof fn a_report_gives_a_snapshot_of_each_limit(payload: RateLimitStatusPayload, i: int)
    ensures
        ({
            let snapshots = snapshots_of(payload);
            &&& snapshots.len() > 0
            &&& snapshots[0].limit_id == Some("codex"@)
            &&& snapshots[0].limit_name is None
            &&& snapshots[0].plan_type == Some(shown_backend_plan_of(payload.plan_type))
            &&& snapshots[0].credits is Some <==> payload.credits is Some && payload.credits->0 is Some
            &&& match payload.rate_limit_reached_type {
                Some(Some(reached)) => snapshots[0].rate_limit_reached_type == reached_type_of(
                    reached.kind,
                ),
                _ => snapshots[0].rate_limit_reached_type is None,
            }
            &&& match payload.additional_rate_limits {
                Some(Some(further)) => {
                    &&& snapshots.len() == further@.len() + 1
                    &&& 0 <= i < further@.len() ==> {
                        let snapshot = snapshots[i + 1];
                        &&& snapshot.limit_id == Some(further@[i].metered_feature@)
                        &&& snapshot.limit_name == Some(further@[i].limit_name@)
                        &&& snapshot.plan_type == snapshots[0].plan_type
                        &&& snapshot.credits is None
                        &&& snapshot.rate_limit_reached_type is None
                    }
                },
                _ => snapshots.len() == 1,
            }
        }),
{
}

/// The windows of the main snapshot are those reported for the main limit, and
/// its credits those reported for the account.
pub proof fn the_main_snapshot_is_that_of_the_main_limit(payload: RateLimitStatusPayload)
    ensures
        ({
            let main = snapshots_of(payload)[0];
            &&& match payload.rate_limit {
                Some(Some(details)) => main.primary == window_of(
                    reported_window(details.primary_window),
                ) && main.secondary == window_of(reported_window(details.secondary_window)),
                _ => main.primary is None && main.secondary is None,
            }
            &&& payload.credits matches Some(Some(reported)) ==> {
                &&& main.credits matches Some(made)
                &&& made.has_credits == reported.has_credits
                &&& made.unlimited == reported.unlimited
                &&& match reported.balance {
                    Some(Some(balance)) => made.balance == Some(balance@),
                    _ => made.balance is None,
                }
            }
        }),
{
}

/// The windows of each further snapshot are those reported for its limit.
pub proof fn each_further_snapshot_is_that_of_its_limit(payload: RateLimitStatusPayload, i: int)
    requires
        payload.additional_rate_limits matches Some(Some(further)) && 0 <= i < further@.len(),
    ensures
        ({
            let details = payload.additional_rate_limits->0->0@[i];
            let snapshot = snapshots_of(payload)[i + 1];
            match details.rate_limit {
                Some(Some(limit)) => snapshot.primary == window_of(
                    reported_window(limit.primary_window),
                ) && snapshot.secondary == window_of(reported_window(limit.secondary_window)),
                _ => snapshot.primary is None && snapshot.secondary is None,
            }
        }),
{
}

/// The name of a plan that the backend reports.
pub open spec fn backend_plan_name(plan: BackendPlanType) -> Seq<char> {
    match plan {
        BackendPlanType::Guest => "guest"@,
        BackendPlanType::Free => "free"@,
        BackendPlanType::Go => "go"@,
        BackendPlanType::Plus => "plus"@,
        BackendPlanType::Pro => "pro"@,
        BackendPlanType::ProLite => "prolite"@,
        BackendPlanType::FreeWorkspace => "free_workspace"@,
        BackendPlanType::Team => "team"@,
        BackendPlanType::SelfServeBusinessUsageBased => "self_serve_business_usage_based"@,
        BackendPlanType::Business => "business"@,
        BackendPlanType::EnterpriseCbpUsageBased => "enterprise_cbp_usage_based"@,
        BackendPlanType::Education => "education"@,
        BackendPlanType::Quorum => "quorum"@,
        BackendPlanType::K12 => "k12"@,
        BackendPlanType::Enterprise => "enterprise"@,
        BackendPlanType::Edu => "edu"@,
        BackendPlanType::Unknown => "unknown"@,
    }
}

/// A plan that the backend reports is shown under its own name. Guests and free
/// workspaces count as free, education has a short name, and plans that are
/// not offered here are shown as unknown.
pub proof fn backend_plans_keep_their_names(plan: BackendPlanType)
    ensures
        plan_name(shown_backend_plan_of(plan)) == match plan {
            BackendPlanType::Guest | BackendPlanType::FreeWorkspace => "free"@,
            BackendPlanType::Education => "edu"@,
            BackendPlanType::Quorum | BackendPlanType::K12 => "unknown"@,
            _ => backend_plan_name(plan),
        },
{
}

/// The name of a kind of limit that the backend reports as reached.
pub open spec fn reached_kind_name(kind: BackendRateLimitReachedKind) -> Seq<char> {
    match kind {
        BackendRateLimitReachedKind::RateLimitReached => "rate_limit_reached"@,
        BackendRateLimitReachedKind::WorkspaceOwnerCreditsDepleted =>
            "workspace_owner_credits_depleted"@,
        BackendRateLimitReachedKind::WorkspaceMemberCreditsDepleted =>
            "workspace_member_credits_depleted"@,
        BackendRateLimitReachedKind::WorkspaceOwnerUsageLimitReached =>
            "workspace_owner_usage_limit_reached"@,
        BackendRateLimitReachedKind::WorkspaceMemberUsageLimitReached =>
            "workspace_member_usage_limit_reached"@,
        BackendRateLimitReachedKind::Unknown => "unknown"@,
    }
}

/// The name of a kind of limit that was reached.
pub open spec fn reached_type_name(reached: RateLimitReachedType) -> Seq<char> {
    match reached {
        RateLimitReachedType::RateLimitReached => "rate_limit_reached"@,
        RateLimitReachedType::WorkspaceOwnerCreditsDepleted => "workspace_owner_credits_depleted"@,
        RateLimitReachedType::WorkspaceMemberCreditsDepleted =>
            "workspace_member_credits_depleted"@,
        RateLimitReachedType::WorkspaceOwnerUsageLimitReached =>
            "workspace_owner_usage_limit_reached"@,
        RateLimitReachedType::WorkspaceMemberUsageLimitReached =>
            "workspace_member_usage_limit_reached"@,
    }
}

/// A limit that was reached is shown under its own name if its kind is known,
/// and else not at all.
pub proof fn limits_that_were_reached_keep_their_names(kind: BackendRateLimitReachedKind)
    ensures
        match reached_type_of(kind) {
            Some(reached) => reached_type_name(reached) == reached_kind_name(kind),
            None => kind == BackendRateLimitReachedKind::Unknown,
        },
{
}

} // verus!
