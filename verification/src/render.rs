//! The saved accounts in words: their names, their rate limits, and the lines
//! in which the other accounts are listed.

use vstd::prelude::*;

use crate::limits::{RateLimitSnapshot, SnapshotModel};
use crate::status::{RateLimitsModel, SavedAccountRateLimits, SavedAccountStatus, StatusModel};
use crate::text::{ascii_lower, concat2, concat3, concat4, join_texts, joined, to_ascii_lower};

verus! {

/// Whether the words for rate limits also say when they start again.
#[derive(Debug, Clone, Copy, PartialEq, Eq, Structural)]
pub enum SavedAccountRateLimitSummaryMode {
    Compact,
    WithResets,
}

/// What a row about a rate limit says: how much of a window is left, in words,
/// and when it starts again, or some other text.
#[derive(Debug, PartialEq, Eq)]
pub enum StatusRateLimitValue {
    Window { remaining: String, resets_at: Option<String> },
    Text(String),
}

/// The model of `StatusRateLimitValue`.
pub enum ValueModel {
    Window { remaining: Seq<char>, resets_at: Option<Seq<char>> },
    Text(Seq<char>),
}

impl DeepView for StatusRateLimitValue {
    type V = ValueModel;

    open spec fn deep_view(&self) -> ValueModel {
        match self {
            StatusRateLimitValue::Window { remaining, resets_at } => ValueModel::Window {
                remaining: remaining@,
                resets_at: resets_at.deep_view(),
            },
            StatusRateLimitValue::Text(text) => ValueModel::Text(text@),
        }
    }
}

/// A row about a rate limit.
#[derive(Debug, PartialEq, Eq)]
pub struct StatusRateLimitRow {
    pub label: String,
    pub value: StatusRateLimitValue,
}

/// The model of `StatusRateLimitRow`.
pub struct RowModel {
    pub label: Seq<char>,
    pub value: ValueModel,
}

impl DeepView for StatusRateLimitRow {
    type V = RowModel;

    open spec fn deep_view(&self) -> RowModel {
        RowModel { label: self.label@, value: self.value.deep_view() }
    }
}

/// What the rate limits of an account come to at some time.
#[derive(Debug, PartialEq, Eq)]
pub enum StatusRateLimitData {
    Available(Vec<StatusRateLimitRow>),
    Stale(Vec<StatusRateLimitRow>),
    Unavailable,
    Missing,
}

/// The model of `StatusRateLimitData`.
pub enum DataModel {
    Available(Seq<RowModel>),
    Stale(Seq<RowModel>),
    Unavailable,
    Missing,
}

impl DeepView for StatusRateLimitData {
    type V = DataModel;

    open spec fn deep_view(&self) -> DataModel {
        match self {
            StatusRateLimitData::Available(rows) => DataModel::Available(rows.deep_view()),
            StatusRateLimitData::Stale(rows) => DataModel::Stale(rows.deep_view()),
            StatusRateLimitData::Unavailable => DataModel::Unavailable,
            StatusRateLimitData::Missing => DataModel::Missing,
        }
    }
}

/// `text` with its ASCII capitals made small.
pub open spec fn lower(text: Seq<char>) -> Seq<char> {
    text.map_values(|c: char| ascii_lower(c))
}

/// The words for a row, if it has anything to say.
pub open spec fn row_text(row: RowModel, mode: SavedAccountRateLimitSummaryMode) -> Option<
    Seq<char>,
> {
    match row.value {
        ValueModel::Window { remaining, resets_at } => {
            let text = lower(row.label) + " "@ + remaining;
            if mode == SavedAccountRateLimitSummaryMode::WithResets && resets_at is Some {
                Some(text + ", resets "@ + resets_at->0)
            } else {
                Some(text)
            }
        },
        ValueModel::Text(text) => if text.len() > 0 {
            Some(lower(row.label) + " "@ + text)
        } else {
            None
        },
    }
}

/// The words for those of the rows that have anything to say, in order.
pub open spec fn row_texts(rows: Seq<RowModel>, mode: SavedAccountRateLimitSummaryMode) -> Seq<
    Seq<char>,
>
    decreases rows.len(),
{
    if rows.len() == 0 {
        seq![]
    } else {
        let before = row_texts(rows.drop_last(), mode);
        match row_text(rows.last(), mode) {
            Some(text) => before.push(text),
            None => before,
        }
    }
}

/// The words for some rows.
pub open spec fn rows_summary(
    rows: Seq<RowModel>,
    stale: bool,
    mode: SavedAccountRateLimitSummaryMode,
) -> Seq<char> {
    let texts = row_texts(rows, mode);
    let parts = if stale {
        texts.push("may be stale"@)
    } else {
        texts
    };
    if parts.len() == 0 {
        "limits unavailable"@
    } else {
        joined(parts, " · "@)
    }
}

/// The words for a row, if it has anything to say.
fn render_row(row: &StatusRateLimitRow, mode: SavedAccountRateLimitSummaryMode) -> (text: Option<
    String,
>)
    ensures
        text.deep_view() == row_text(row.deep_view(), mode),
{
    let label: String = to_ascii_lower(row.label.as_str());
    match &row.value {
        StatusRateLimitValue::Window { remaining, resets_at } => {
            let text: String = concat3(label.as_str(), " ", remaining.as_str());
            match (mode, resets_at) {
                (SavedAccountRateLimitSummaryMode::WithResets, Some(resets_at)) => Some(
                    concat3(text.as_str(), ", resets ", resets_at.as_str()),
                ),
                _ => Some(text),
            }
        },
        StatusRateLimitValue::Text(text) => {
            if text.as_str().is_empty() {
                None
            } else {
                Some(concat3(label.as_str(), " ", text.as_str()))
            }
        },
    }
}

/// The words for some rows.
pub fn render_rate_limit_rows(
    rows: &Vec<StatusRateLimitRow>,
    stale: bool,
    mode: SavedAccountRateLimitSummaryMode,
) -> (text: String)
    ensures
        text@ == rows_summary(rows.deep_view(), stale, mode),
{
    let ghost all = rows.deep_view();
    let mut parts: Vec<String> = Vec::new();
    let mut i: usize = 0;
    assert(parts.deep_view() =~= row_texts(all.take(0), mode));
    while i < rows.len()
        invariant
            all == rows.deep_view(),
            i <= rows.len(),
            parts.deep_view() == row_texts(all.take(i as int), mode),
        decreases rows.len() - i,
    {
        let ghost before = parts.deep_view();
        assert(all.take(i + 1).drop_last() =~= all.take(i as int));
        assert(all.take(i + 1).last() == rows@[i as int].deep_view());
        if let Some(text) = render_row(&rows[i], mode) {
            let ghost words = text@;
            parts.push(text);
            assert(parts.deep_view() =~= before.push(words));
        }
        i += 1;
    }
    assert(all.take(all.len() as int) =~= all);
    if stale {
        let ghost before = parts.deep_view();
        parts.push("may be stale".to_owned());
        assert(parts.deep_view() =~= before.push("may be stale"@));
    }
    if parts.len() == 0 {
        "limits unavailable".to_owned()
    } else {
        join_texts(&parts, " · ")
    }
}

/// The words for the rate limits of an account.
pub open spec fn limits_summary(data: DataModel, mode: SavedAccountRateLimitSummaryMode) -> Seq<
    char,
> {
    match data {
        DataModel::Available(rows) => rows_summary(rows, false, mode),
        DataModel::Stale(rows) => rows_summary(rows, true, mode),
        DataModel::Unavailable => "limits unavailable"@,
        DataModel::Missing => "limits unavailable"@,
    }
}

/// The words for the rate limits of an account.
pub fn render_rate_limit_summary(
    data: &StatusRateLimitData,
    mode: SavedAccountRateLimitSummaryMode,
) -> (text: String)
    ensures
        text@ == limits_summary(data.deep_view(), mode),
{
    match data {
        StatusRateLimitData::Available(rows) => render_rate_limit_rows(rows, false, mode),
        StatusRateLimitData::Stale(rows) => render_rate_limit_rows(rows, true, mode),
        StatusRateLimitData::Unavailable | StatusRateLimitData::Missing =>
            "limits unavailable".to_owned(),
    }
}

/// What a rate limit is called: by its name, or else by its identifier.
pub open spec fn limit_label_of(snapshot: SnapshotModel) -> Seq<char> {
    match (snapshot.limit_name, snapshot.limit_id) {
        (Some(name), _) => name,
        (None, Some(id)) => id,
        (None, None) => "codex"@,
    }
}

/// What the rate limit of `snapshot` is called.
pub fn limit_label(snapshot: &RateLimitSnapshot) -> (label: String)
    ensures
        label@ == limit_label_of(snapshot.deep_view()),
{
    match (&snapshot.limit_name, &snapshot.limit_id) {
        (Some(name), _) => name.clone(),
        (None, Some(id)) => id.clone(),
        (None, None) => "codex".to_owned(),
    }
}

/// A status as it is shown at some time: with the name of its plan, which is
/// read where it has a plan, and with what its rate limits come to, which is
/// read where they are available.
#[derive(Debug, PartialEq)]
pub struct ShownStatus {
    pub status: SavedAccountStatus,
    pub plan_name: String,
    pub limits: StatusRateLimitData,
}

/// The model of `ShownStatus`.
pub struct ShownModel {
    pub status: StatusModel,
    pub plan_name: Seq<char>,
    pub limits: DataModel,
}

impl DeepView for ShownStatus {
    type V = ShownModel;

    open spec fn deep_view(&self) -> ShownModel {
        ShownModel {
            status: self.status.deep_view(),
            plan_name: self.plan_name@,
            limits: self.limits.deep_view(),
        }
    }
}

impl ShownModel {
    /// The name of the account: its email address or else its label, with its
    /// plan where that is known.
    pub open spec fn name(self) -> Seq<char> {
        let base = match self.status.email {
            Some(email) => email,
            None => self.status.summary.label,
        };
        match self.status.plan_type {
            Some(_) => base + " ("@ + self.plan_name + ")"@,
            None => base,
        }
    }

    /// The words for the rate limits of the account.
    pub open spec fn detail(self, mode: SavedAccountRateLimitSummaryMode) -> Seq<char> {
        match self.status.rate_limits {
            RateLimitsModel::Available(_) => limits_summary(self.limits, mode),
            RateLimitsModel::Unsupported { reason } => reason,
            RateLimitsModel::Unavailable { error } => "failed to load limits: "@ + error,
        }
    }
}

/// The name of the account.
pub fn account_display_name(account: &ShownStatus) -> (name: String)
    ensures
        name@ == account.deep_view().name(),
{
    match (&account.status.email, account.status.plan_type) {
        (Some(email), Some(_)) => concat4(email.as_str(), " (", account.plan_name.as_str(), ")"),
        (Some(email), None) => email.clone(),
        (None, Some(_)) => concat4(
            account.status.summary.label.as_str(),
            " (",
            account.plan_name.as_str(),
            ")",
        ),
        (None, None) => account.status.summary.label.clone(),
    }
}

/// The words for the rate limits of the account.
pub fn account_detail(account: &ShownStatus, mode: SavedAccountRateLimitSummaryMode) -> (detail:
    String)
    ensures
        detail@ == account.deep_view().detail(mode),
{
    match &account.status.rate_limits {
        SavedAccountRateLimits::Available(_) => render_rate_limit_summary(&account.limits, mode),
        SavedAccountRateLimits::Unsupported { reason } => reason.clone(),
        SavedAccountRateLimits::Unavailable { error } => concat2(
            "failed to load limits: ",
            error.as_str(),
        ),
    }
}

/// What is known of the saved accounts while they are shown.
#[derive(Debug, PartialEq)]
pub enum SavedAccountsState {
    Hidden,
    Loading,
    Failed(String),
    Loaded(Vec<ShownStatus>),
}

/// The model of `SavedAccountsState`.
pub enum StateModel {
    Hidden,
    Loading,
    Failed(Seq<char>),
    Loaded(Seq<ShownModel>),
}

impl DeepView for SavedAccountsState {
    type V = StateModel;

    open spec fn deep_view(&self) -> StateModel {
        match self {
            SavedAccountsState::Hidden => StateModel::Hidden,
            SavedAccountsState::Loading => StateModel::Loading,
            SavedAccountsState::Failed(error) => StateModel::Failed(error@),
            SavedAccountsState::Loaded(accounts) => StateModel::Loaded(accounts.deep_view()),
        }
    }
}

/// Something to be listed among the other accounts.
#[derive(Debug)]
pub enum RenderedSavedAccount<'a> {
    Message(String),
    Account(&'a ShownStatus),
}

/// The model of `RenderedSavedAccount`.
pub enum RenderedModel {
    Message(Seq<char>),
    Account(ShownModel),
}

impl<'a> DeepView for RenderedSavedAccount<'a> {
    type V = RenderedModel;

    open spec fn deep_view(&self) -> RenderedModel {
        match self {
            RenderedSavedAccount::Message(message) => RenderedModel::Message(message@),
            RenderedSavedAccount::Account(account) => RenderedModel::Account(account.deep_view()),
        }
    }
}

/// The accounts that are not active, in order.
pub open spec fn other_accounts(accounts: Seq<ShownModel>) -> Seq<RenderedModel>
    decreases accounts.len(),
{
    if accounts.len() == 0 {
        seq![]
    } else {
        let before = other_accounts(accounts.drop_last());
        if accounts.last().status.summary.is_active {
            before
        } else {
            before.push(RenderedModel::Account(accounts.last()))
        }
    }
}

/// What is to be listed among the other accounts, if anything is.
pub open spec fn renderable_of(state: StateModel) -> Option<Seq<RenderedModel>> {
    match state {
        StateModel::Hidden => None,
        StateModel::Loading => Some(seq![RenderedModel::Message("loading..."@)]),
        StateModel::Failed(error) => Some(
            seq![RenderedModel::Message("failed to load saved accounts: "@ + error)],
        ),
        StateModel::Loaded(accounts) => if other_accounts(accounts).len() == 0 {
            None
        } else {
            Some(other_accounts(accounts))
        },
    }
}

/// What is to be listed among the other accounts, if anything is.
pub fn renderable_accounts<'a>(state: &'a SavedAccountsState) -> (renderable: Option<
    Vec<RenderedSavedAccount<'a>>,
>)
    ensures
        renderable.deep_view() == renderable_of(state.deep_view()),
{
    match state {
        SavedAccountsState::Hidden => None,
        SavedAccountsState::Loading => {
            let mut rendered: Vec<RenderedSavedAccount<'a>> = Vec::new();
            rendered.push(RenderedSavedAccount::Message("loading...".to_owned()));
            assert(rendered.deep_view() =~= seq![RenderedModel::Message("loading..."@)]);
            Some(rendered)
        },
        SavedAccountsState::Failed(error) => {
            let mut rendered: Vec<RenderedSavedAccount<'a>> = Vec::new();
            rendered.push(
                RenderedSavedAccount::Message(
                    concat2("failed to load saved accounts: ", error.as_str()),
                ),
            );
            assert(rendered.deep_view() =~= seq![
                RenderedModel::Message("failed to load saved accounts: "@ + error@),
            ]);
            Some(rendered)
        },
        SavedAccountsState::Loaded(accounts) => {
            let ghost all = accounts.deep_view();
            let mut rendered: Vec<RenderedSavedAccount<'a>> = Vec::new();
            let mut i: usize = 0;
            assert(rendered.deep_view() =~= other_accounts(all.take(0)));
            while i < accounts.len()
                invariant
                    all == accounts.deep_view(),
                    i <= accounts.len(),
                    rendered.deep_view() == other_accounts(all.take(i as int)),
                decreases accounts.len() - i,
            {
                let ghost before = rendered.deep_view();
                assert(all.take(i + 1).drop_last() =~= all.take(i as int));
                assert(all.take(i + 1).last() == accounts@[i as int].deep_view());
                if !accounts[i].status.summary.is_active {
                    rendered.push(RenderedSavedAccount::Account(&accounts[i]));
                    assert(rendered.deep_view() =~= before.push(
                        RenderedModel::Account(all[i as int]),
                    ));
                }
                i += 1;
            }
            assert(all.take(all.len() as int) =~= all);
            if rendered.len() == 0 {
                None
            } else {
                Some(rendered)
            }
        },
    }
}

/// The words for something listed among the other accounts.
pub open spec fn rendered_text(account: RenderedModel) -> Seq<char> {
    match account {
        RenderedModel::Message(message) => message,
        RenderedModel::Account(account) => account.name() + " · "@ + account.detail(
            SavedAccountRateLimitSummaryMode::Compact,
        ),
    }
}

/// The words for something listed among the other accounts.
pub fn render_saved_account(account: &RenderedSavedAccount<'_>) -> (text: String)
    ensures
        text@ == rendered_text(account.deep_view()),
{
    match account {
        RenderedSavedAccount::Message(message) => message.clone(),
        RenderedSavedAccount::Account(account) => {
            let name: String = account_display_name(account);
            let detail: String = account_detail(account, SavedAccountRateLimitSummaryMode::Compact);
            concat3(name.as_str(), " · ", detail.as_str())
        },
    }
}

/// The label of the list of other accounts, where there is one.
pub fn collect_saved_account_labels(state: &SavedAccountsState) -> (label: Option<String>)
    ensures
        label.deep_view() == if renderable_of(state.deep_view()) is Some {
            Some("Other accounts"@)
        } else {
            None
        },
{
    if renderable_accounts(state).is_some() {
        Some("Other accounts".to_owned())
    } else {
        None
    }
}

/// A text broken into lines of some width, without breaking words.
pub uninterp spec fn wrapped_lines(text: Seq<char>, width: usize) -> Seq<Seq<char>>;

/// `textwrap::wrap` with `Options::new(width).break_words(false)`. Where the
/// lines are broken is named, not stated. Each part of the text between line
/// feeds, and there is at least one, gives at least one line.
#[verifier::external_body]
pub(crate) fn wrap_text(text: &str, width: usize) -> (lines: Vec<String>)
    ensures
        lines.deep_view() == wrapped_lines(text@, width),
        lines@.len() >= 1,
{
    let options = textwrap::Options::new(width).break_words(false);
    textwrap::wrap(text, options).into_iter().map(|line| line.into_owned()).collect()
}

/// A line of the list of other accounts. The first one carries the label.
#[derive(Debug, PartialEq, Eq)]
pub struct StatusLine {
    pub label: Option<String>,
    pub text: String,
}

/// The model of `StatusLine`.
pub struct LineModel {
    pub label: Option<Seq<char>>,
    pub text: Seq<char>,
}

impl DeepView for StatusLine {
    type V = LineModel;

    open spec fn deep_view(&self) -> LineModel {
        LineModel { label: self.label.deep_view(), text: self.text@ }
    }
}

/// The lines for some texts, the first of them with the label.
pub open spec fn lines_of(texts: Seq<Seq<char>>) -> Seq<LineModel> {
    Seq::new(
        texts.len(),
        |i: int|
            LineModel {
                label: if i == 0 {
                    Some("Other accounts"@)
                } else {
                    None
                },
                text: texts[i],
            },
    )
}

/// A list of lines with one more for each of some texts. The first line of the
/// list gets the label.
pub open spec fn appended_lines(lines: Seq<LineModel>, texts: Seq<Seq<char>>) -> Seq<LineModel> {
    lines + Seq::new(
        texts.len(),
        |i: int|
            LineModel {
                label: if lines.len() + i == 0 {
                    Some("Other accounts"@)
                } else {
                    None
                },
                text: texts[i],
            },
    )
}

/// Adds texts to the list of other accounts, a line for each.
pub fn append_lines(lines: &mut Vec<StatusLine>, texts: Vec<String>)
    ensures
        final(lines).deep_view() == appended_lines(old(lines).deep_view(), texts.deep_view()),
{
    let ghost start = lines.deep_view();
    let ghost wanted = appended_lines(start, texts.deep_view());
    assert(start =~= wanted.take(start.len() as int));
    for text in it: texts
        invariant
            it.seq() == texts@,
            wanted == appended_lines(start, texts.deep_view()),
            lines@.len() == start.len() + it.index(),
            lines.deep_view() == wanted.take(start.len() + it.index()),
    {
        let ghost before = lines.deep_view();
        let label: Option<String> = if lines.len() == 0 {
            Some("Other accounts".to_owned())
        } else {
            None
        };
        let line = StatusLine { label, text };
        let ghost model = line.deep_view();
        lines.push(line);
        assert(texts.deep_view()[it.index() as int] == text@);
        assert(model == wanted[start.len() + it.index()]);
        assert(lines.deep_view() =~= before.push(model));
        assert(lines.deep_view() =~= wanted.take(start.len() + it.index() + 1));
    }
    assert(wanted.take(wanted.len() as int) =~= wanted);
}

/// The texts of what is listed, broken into lines of some width.
pub open spec fn wrapped_texts(accounts: Seq<RenderedModel>, width: usize) -> Seq<Seq<char>>
    decreases accounts.len(),
{
    if accounts.len() == 0 {
        seq![]
    } else {
        wrapped_texts(accounts.drop_last(), width) + wrapped_lines(
            rendered_text(accounts.last()),
            width,
        )
    }
}

/// The lines in which the other accounts are listed, broken to a width of
/// `value_width` columns, but of one at least.
pub open spec fn account_lines(state: StateModel, value_width: usize) -> Seq<LineModel> {
    let width = if value_width == 0 {
        1
    } else {
        value_width
    };
    match renderable_of(state) {
        Some(accounts) => lines_of(wrapped_texts(accounts, width)),
        None => seq![],
    }
}

/// The lines in which the other accounts are listed.
pub fn render_saved_account_lines(state: &SavedAccountsState, value_width: usize) -> (lines: Vec<
    StatusLine,
>)
    ensures
        lines.deep_view() == account_lines(state.deep_view(), value_width),
        lines@.len() > 0 <==> renderable_of(state.deep_view()) is Some,
{
    let mut lines: Vec<StatusLine> = Vec::new();
    let accounts: Vec<RenderedSavedAccount<'_>> = match renderable_accounts(state) {
        Some(accounts) => accounts,
        None => {
            assert(lines.deep_view() =~= seq![]);
            return lines;
        },
    };
    let width: usize = if value_width == 0 {
        1
    } else {
        value_width
    };
    let ghost all = accounts.deep_view();
    let mut i: usize = 0;
    assert(lines.deep_view() =~= lines_of(wrapped_texts(all.take(0), width)));
    while i < accounts.len()
        invariant
            all == accounts.deep_view(),
            i <= accounts.len(),
            lines.deep_view() == lines_of(wrapped_texts(all.take(i as int), width)),
            i > 0 ==> lines@.len() > 0,
        decreases accounts.len() - i,
    {
        assert(all.take(i + 1).drop_last() =~= all.take(i as int));
        assert(all.take(i + 1).last() == accounts@[i as int].deep_view());
        let text: String = render_saved_account(&accounts[i]);
        let wrapped: Vec<String> = wrap_text(text.as_str(), width);
        append_lines(&mut lines, wrapped);
        assert(lines.deep_view() =~= lines_of(wrapped_texts(all.take(i + 1), width)));
        assert(lines.deep_view().len() > 0);
        i += 1;
    }
    assert(all.take(all.len() as int) =~= all);
    lines
}

/// Of the accounts that were loaded, those and only those are listed that are
/// not active.
pub proof fn only_other_accounts_are_listed(accounts: Seq<ShownModel>, account: ShownModel)
    ensures
        other_accounts(accounts).contains(RenderedModel::Account(account)) <==> accounts.contains(
            account,
        ) && !account.status.summary.is_active,
    decreases accounts.len(),
{
    let others = other_accounts(accounts);
    let item = RenderedModel::Account(account);
    if accounts.len() > 0 {
        let rest = accounts.drop_last();
        let before = other_accounts(rest);
        only_other_accounts_are_listed(rest, account);
        if others.contains(item) {
            let i = choose|i: int| 0 <= i < others.len() && others[i] == item;
            if i < before.len() {
                assert(before[i] == item);
                assert(before.contains(item));
                let j = choose|j: int| 0 <= j < rest.len() && rest[j] == account;
                assert(accounts[j] == account);
            } else {
                assert(accounts[accounts.len() - 1] == account);
            }
        }
        if accounts.contains(account) && !account.status.summary.is_active {
            let j = choose|j: int| 0 <= j < accounts.len() && accounts[j] == account;
            if j < rest.len() {
                assert(rest[j] == account);
                assert(rest.contains(account));
                let i = choose|i: int| 0 <= i < before.len() && before[i] == item;
                assert(others[i] == item);
            } else {
                assert(others[others.len() - 1] == item);
            }
        }
    }
}

/// Of the lines in which the other accounts are listed, the first and no other
/// carries the label.
pub proof fn the_first_line_carries_the_label(state: StateModel, value_width: usize, i: int)
    requires
        0 <= i < account_lines(state, value_width).len(),
    ensures
        account_lines(state, value_width)[i].label == if i == 0 {
            Some("Other accounts"@)
        } else {
            None
        },
{
}

/// A window is worded by its label in small letters and what is left of it. When
/// it starts again is added where that is wanted and known, and nowhere else.
pub proof fn windows_are_worded_by_what_is_left(
    label: Seq<char>,
    remaining: Seq<char>,
    resets_at: Option<Seq<char>>,
    mode: SavedAccountRateLimitSummaryMode,
)
    ensures
        ({
            let row = RowModel { label, value: ValueModel::Window { remaining, resets_at } };
            let words = label.map_values(|c: char| ascii_lower(c)) + " "@ + remaining;
            match (mode, resets_at) {
                (SavedAccountRateLimitSummaryMode::WithResets, Some(at)) => row_text(row, mode)
                    == Some(words + ", resets "@ + at),
                _ => row_text(row, mode) == Some(words),
            }
        }),
{
}

/// Other rows are worded by their label in small letters and their text, the
/// same in either mode. A row without text has nothing to say.
pub proof fn other_rows_are_worded_by_their_text(
    label: Seq<char>,
    text: Seq<char>,
    mode: SavedAccountRateLimitSummaryMode,
)
    ensures
        ({
            let row = RowModel { label, value: ValueModel::Text(text) };
            match row_text(row, mode) {
                Some(words) => text.len() > 0 && words == label.map_values(
                    |c: char| ascii_lower(c),
                ) + " "@ + text,
                None => text.len() == 0,
            }
        }),
{
}

/// Rows are worded one by one, in order.
pub proof fn rows_are_worded_one_by_one(
    a: Seq<RowModel>,
    b: Seq<RowModel>,
    mode: SavedAccountRateLimitSummaryMode,
)
    ensures
        row_texts(a + b, mode) == row_texts(a, mode) + row_texts(b, mode),
    decreases b.len(),
{
    if b.len() == 0 {
        assert(a + b =~= a);
        assert(row_texts(a, mode) + row_texts(b, mode) =~= row_texts(a, mode));
    } else {
        rows_are_worded_one_by_one(a, b.drop_last(), mode);
        assert((a + b).drop_last() =~= a + b.drop_last());
        assert((a + b).last() == b.last());
        assert(row_texts(a + b, mode) =~= row_texts(a, mode) + row_texts(b, mode));
    }
}

/// One row gives its words, if it has any.
pub proof fn one_row_gives_its_words(row: RowModel, mode: SavedAccountRateLimitSummaryMode)
    ensures
        match row_text(row, mode) {
            Some(words) => row_texts(seq![row], mode) == seq![words],
            None => row_texts(seq![row], mode).len() == 0,
        },
        row_texts(seq![], mode).len() == 0,
{
    reveal_with_fuel(row_texts, 2);
    assert(seq![row].drop_last() =~= Seq::<RowModel>::empty());
    if let Some(words) = row_text(row, mode) {
        assert(row_texts(seq![row], mode) =~= seq![words]);
    }
}

/// Rate limits are put into the words of all their rows. Stale ones are put
/// into the same words with a warning behind them. Without any words they are
/// said to be unavailable.
pub proof fn stale_limits_come_with_a_warning(
    rows: Seq<RowModel>,
    mode: SavedAccountRateLimitSummaryMode,
)
    ensures
        ({
            let texts = row_texts(rows, mode);
            let current = limits_summary(DataModel::Available(rows), mode);
            let stale = limits_summary(DataModel::Stale(rows), mode);
            &&& rows_summary(rows, false, mode) == current
            &&& rows_summary(rows, true, mode) == stale
            &&& texts.len() == 0 ==> current == "limits unavailable"@ && stale == "may be stale"@
            &&& texts.len() > 0 ==> current == joined(texts, " · "@) && stale == current + " · "@
                + "may be stale"@
        }),
        limits_summary(DataModel::Unavailable, mode) == "limits unavailable"@,
        limits_summary(DataModel::Missing, mode) == "limits unavailable"@,
{
    let texts = row_texts(rows, mode);
    let warned = texts.push("may be stale"@);
    assert(warned.drop_last() =~= texts);
}

/// A rate limit is called by its name, whatever its identifier; or else by its
/// identifier; or else by the name of the main limit.
pub proof fn limits_are_called_by_their_names(snapshot: SnapshotModel)
    ensures
        snapshot.limit_name matches Some(name) ==> limit_label_of(snapshot) == name,
        snapshot.limit_name is None ==> (snapshot.limit_id matches Some(id) ==> limit_label_of(
            snapshot,
        ) == id),
        snapshot.limit_name is None && snapshot.limit_id is None ==> limit_label_of(snapshot)
            == "codex"@,
{
}

/// An account is called by its email address, whatever its label, or else by
/// its label. Its plan is added in brackets where it has one, and nothing is
/// added where it has none.
pub proof fn accounts_are_called_by_address_and_plan(account: ShownModel)
    ensures
        ({
            let base = match account.status.email {
                Some(email) => email,
                None => account.status.summary.label,
            };
            &&& account.status.plan_type is None ==> account.name() == base
            &&& account.status.plan_type is Some ==> account.name() == base + " ("@
                + account.plan_name + ")"@
        }),
{
}

/// The words for an account's rate limits are those for what they come to where
/// they are available, and else why they are not there.
pub proof fn accounts_tell_their_limits_or_why_not(
    account: ShownModel,
    mode: SavedAccountRateLimitSummaryMode,
)
    ensures
        match account.status.rate_limits {
            RateLimitsModel::Available(_) => account.detail(mode) == limits_summary(
                account.limits,
                mode,
            ),
            RateLimitsModel::Unsupported { reason } => account.detail(mode) == reason,
            RateLimitsModel::Unavailable { error } => account.detail(mode)
                == "failed to load limits: "@ + error,
        },
{
}

/// The accounts that are not active are listed one by one, in order.
pub proof fn other_accounts_are_listed_one_by_one(a: Seq<ShownModel>, b: Seq<ShownModel>)
    ensures
        other_accounts(a + b) == other_accounts(a) + other_accounts(b),
    decreases b.len(),
{
    if b.len() == 0 {
        assert(a + b =~= a);
        assert(other_accounts(a) + other_accounts(b) =~= other_accounts(a));
    } else {
        other_accounts_are_listed_one_by_one(a, b.drop_last());
        assert((a + b).drop_last() =~= a + b.drop_last());
        assert((a + b).last() == b.last());
        assert(other_accounts(a + b) =~= other_accounts(a) + other_accounts(b));
    }
}

/// One account is listed if it is not active.
pub proof fn one_account_is_listed_unless_active(account: ShownModel)
    ensures
        account.status.summary.is_active ==> other_accounts(seq![account]).len() == 0,
        !account.status.summary.is_active ==> other_accounts(seq![account]) == seq![
            RenderedModel::Account(account),
        ],
        other_accounts(seq![]).len() == 0,
{
    reveal_with_fuel(other_accounts, 2);
    assert(seq![account].drop_last() =~= Seq::<ShownModel>::empty());
    if !account.status.summary.is_active {
        assert(other_accounts(seq![account]) =~= seq![RenderedModel::Account(account)]);
    }
}

/// While accounts load, and where they could not be loaded, one message is
/// listed, which says so. Once they are loaded the other accounts are listed,
/// and nothing if there are none. Nothing is listed where accounts are hidden.
pub proof fn what_is_listed_follows_the_state(error: Seq<char>, accounts: Seq<ShownModel>)
    ensures
        renderable_of(StateModel::Hidden) is None,
        renderable_of(StateModel::Loading) == Some(
            seq![RenderedModel::Message("loading..."@)],
        ),
        renderable_of(StateModel::Failed(error)) == Some(
            seq![RenderedModel::Message("failed to load saved accounts: "@ + error)],
        ),
        renderable_of(StateModel::Loaded(accounts)) is None <==> forall|i: int|
            0 <= i < accounts.len() ==> (#[trigger] accounts[i]).status.summary.is_active,
        renderable_of(StateModel::Loaded(accounts)) matches Some(listed) ==> listed
            == other_accounts(accounts),
{
    let others = other_accounts(accounts);
    if others.len() > 0 {
        listed_items_are_accounts(accounts, 0);
        let account = others[0]->Account_0;
        only_other_accounts_are_listed(accounts, account);
        assert(others.contains(RenderedModel::Account(account)));
        let i = choose|i: int| 0 <= i < accounts.len() && accounts[i] == account;
        assert(!accounts[i].status.summary.is_active);
    } else {
        assert forall|i: int| 0 <= i < accounts.len() implies (
        #[trigger] accounts[i]).status.summary.is_active by {
            only_other_accounts_are_listed(accounts, accounts[i]);
            assert(accounts.contains(accounts[i]));
        }
    }
}

/// What is listed of accounts that were loaded are accounts.
proof fn listed_items_are_accounts(accounts: Seq<ShownModel>, i: int)
    requires
        0 <= i < other_accounts(accounts).len(),
    ensures
        other_accounts(accounts)[i] is Account,
    decreases accounts.len(),
{
    if accounts.len() > 0 {
        let before = other_accounts(accounts.drop_last());
        if i < before.len() {
            listed_items_are_accounts(accounts.drop_last(), i);
        }
    }
}

/// A message is shown as it is, and an account by its name and its rate limits,
/// without when they start again.
pub proof fn listed_items_are_shown_in_words(message: Seq<char>, account: ShownModel)
    ensures
        rendered_text(RenderedModel::Message(message)) == message,
        rendered_text(RenderedModel::Account(account)) == account.name() + " · "@
            + account.detail(SavedAccountRateLimitSummaryMode::Compact),
{
}

/// What is listed is broken into lines item by item, in order.
pub proof fn items_are_broken_one_by_one(
    a: Seq<RenderedModel>,
    b: Seq<RenderedModel>,
    width: usize,
)
    ensures
        wrapped_texts(a + b, width) == wrapped_texts(a, width) + wrapped_texts(b, width),
    decreases b.len(),
{
    if b.len() == 0 {
        assert(a + b =~= a);
        assert(wrapped_texts(a, width) + wrapped_texts(b, width) =~= wrapped_texts(a, width));
    } else {
        items_are_broken_one_by_one(a, b.drop_last(), width);
        assert((a + b).drop_last() =~= a + b.drop_last());
        assert((a + b).last() == b.last());
        assert(wrapped_texts(a + b, width) =~= wrapped_texts(a, width) + wrapped_texts(b, width));
    }
}

/// One item gives the lines that its words are broken into.
pub proof fn one_item_gives_its_lines(item: RenderedModel, width: usize)
    ensures
        wrapped_texts(seq![item], width) == wrapped_lines(rendered_text(item), width),
        wrapped_texts(seq![], width).len() == 0,
{
    reveal_with_fuel(wrapped_texts, 2);
    assert(seq![item].drop_last() =~= Seq::<RenderedModel>::empty());
    assert(wrapped_texts(seq![item], width) =~= wrapped_lines(rendered_text(item), width));
}

/// The lines of the list are those that its items are broken into, at the width
/// that there is, or at one column where there is none.
pub proof fn the_list_has_a_line_for_each_text(state: StateModel, value_width: usize, i: int)
    ensures
        match renderable_of(state) {
            Some(items) => {
                let texts = wrapped_texts(
                    items,
                    if value_width > 0 {
                        value_width
                    } else {
                        1
                    },
                );
                &&& account_lines(state, value_width).len() == texts.len()
                &&& 0 <= i < texts.len() ==> account_lines(state, value_width)[i].text == texts[i]
            },
            None => account_lines(state, value_width).len() == 0,
        },
{
}

/// Lines are added behind those that are there, which stay as they are, one for
/// each text. Only the first line of all has the label.
pub proof fn lines_are_added_behind_others(lines: Seq<LineModel>, texts: Seq<Seq<char>>, i: int)
    ensures
        ({
            let more = appended_lines(lines, texts);
            &&& more.len() == lines.len() + texts.len()
            &&& 0 <= i < lines.len() ==> more[i] == lines[i]
            &&& 0 <= i < texts.len() ==> more[lines.len() + i].text == texts[i]
            &&& 0 <= i < texts.len() ==> (more[lines.len() + i].label is Some <==> lines.len() == 0
                && i == 0)
            &&& 0 <= i < texts.len() && more[lines.len() + i].label is Some ==> more[lines.len()
                + i].label == Some("Other accounts"@)
        }),
{
}

} // verus!
