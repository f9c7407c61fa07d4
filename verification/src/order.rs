//! The order in which saved accounts are kept and shown: the active account
//! first, then the others by when they were last used, the latest first, and
//! by their labels where that is the same.

use vstd::prelude::*;

use crate::entry::{EntryModel, SavedAccountEntry, SavedAccountsFile};
use crate::text::{text_before, text_lt, text_lt_irreflexive, text_lt_total, text_lt_transitive};

verus! {

/// Whether `entry` is the active account.
pub open spec fn is_active_entry(entry: EntryModel, active: Option<Seq<char>>) -> bool {
    active == Some(entry.key)
}

/// Whether `a` ranks before `b`.
pub open spec fn ranks_before(a: EntryModel, b: EntryModel, active: Option<Seq<char>>) -> bool {
    if is_active_entry(a, active) != is_active_entry(b, active) {
        is_active_entry(a, active)
    } else if a.updated_at != b.updated_at {
        b.updated_at.earlier_than(a.updated_at)
    } else {
        text_lt(a.label, b.label)
    }
}

/// Whether neither of `a` and `b` ranks before the other.
pub open spec fn ranks_with(a: EntryModel, b: EntryModel, active: Option<Seq<char>>) -> bool {
    &&& is_active_entry(a, active) == is_active_entry(b, active)
    &&& a.updated_at == b.updated_at
    &&& a.label == b.label
}

/// The entries that rank with `entry`, as they stand in `entries`.
pub open spec fn peers(
    entries: Seq<EntryModel>,
    entry: EntryModel,
    active: Option<Seq<char>>,
) -> Seq<EntryModel> {
    entries.filter(|e: EntryModel| ranks_with(e, entry, active))
}

/// Whether no entry ranks before one that stands ahead of it.
pub open spec fn is_ranked(entries: Seq<EntryModel>, active: Option<Seq<char>>) -> bool {
    forall|i: int, j: int|
        0 <= i < j < entries.len() ==> !ranks_before(
            #[trigger] entries[j],
            #[trigger] entries[i],
            active,
        )
}

/// Whether `ordered` holds the entries of `entries` by rank, those of the same
/// rank as they stood.
pub open spec fn is_display_order(
    entries: Seq<EntryModel>,
    active: Option<Seq<char>>,
    ordered: Seq<EntryModel>,
) -> bool {
    &&& is_ranked(ordered, active)
    &&& forall|entry: EntryModel| #[trigger]
        peers(ordered, entry, active) == peers(entries, entry, active)
}

/// The entries by rank, those of the same rank as they stood. There is exactly
/// one such sequence: see `display_order_is_determined`.
pub open spec fn display_order(entries: Seq<EntryModel>, active: Option<Seq<char>>) -> Seq<
    EntryModel,
> {
    choose|ordered: Seq<EntryModel>| is_display_order(entries, active, ordered)
}

/// Rank is a total order up to entries that rank with each other.
pub proof fn ranks_are_total(a: EntryModel, b: EntryModel, active: Option<Seq<char>>)
    ensures
        ranks_before(a, b, active) || ranks_before(b, a, active) || ranks_with(a, b, active),
        !(ranks_before(a, b, active) && ranks_before(b, a, active)),
        !(ranks_before(a, b, active) && ranks_with(a, b, active)),
{
    text_lt_total(a.label, b.label);
    text_lt_irreflexive(a.label);
    if text_lt(a.label, b.label) && text_lt(b.label, a.label) {
        text_lt_transitive(a.label, b.label, a.label);
    }
}

/// Rank is transitive.
pub proof fn ranks_are_transitive(
    a: EntryModel,
    b: EntryModel,
    c: EntryModel,
    active: Option<Seq<char>>,
)
    requires
        ranks_before(a, b, active),
        ranks_before(b, c, active),
    ensures
        ranks_before(a, c, active),
{
    if text_lt(a.label, b.label) && text_lt(b.label, c.label) {
        text_lt_transitive(a.label, b.label, c.label);
    }
}

/// `entries` with `entry` put in behind the first `at` of them.
pub open spec fn placed(entries: Seq<EntryModel>, entry: EntryModel, at: int) -> Seq<EntryModel> {
    entries.take(at).push(entry) + entries.skip(at)
}

/// The filter of an entry behind others.
proof fn filter_of_push(entries: Seq<EntryModel>, entry: EntryModel, keep: spec_fn(EntryModel) -> bool)
    ensures
        entries.push(entry).filter(keep) == if keep(entry) {
            entries.filter(keep).push(entry)
        } else {
            entries.filter(keep)
        },
{
    reveal(Seq::filter);
    assert(entries.push(entry).drop_last() =~= entries);
}

/// A filter that keeps nothing.
proof fn filter_of_none(entries: Seq<EntryModel>, keep: spec_fn(EntryModel) -> bool)
    requires
        forall|i: int| 0 <= i < entries.len() ==> !keep(#[trigger] entries[i]),
    ensures
        entries.filter(keep) == Seq::<EntryModel>::empty(),
    decreases entries.len(),
{
    reveal(Seq::filter);
    if entries.len() > 0 {
        assert forall|i: int| 0 <= i < entries.drop_last().len() implies !keep(
            #[trigger] entries.drop_last()[i],
        ) by {
            assert(entries.drop_last()[i] == entries[i]);
        }
        filter_of_none(entries.drop_last(), keep);
        assert(!keep(entries[entries.len() - 1]));
    }
}

/// Putting one more entry in where its rank begins keeps the display order.
proof fn placing_keeps_display_order(
    entries: Seq<EntryModel>,
    active: Option<Seq<char>>,
    ordered: Seq<EntryModel>,
    entry: EntryModel,
    at: int,
)
    requires
        is_display_order(entries, active, ordered),
        0 <= at <= ordered.len(),
        forall|i: int| at <= i < ordered.len() ==> ranks_before(entry, #[trigger] ordered[i], active),
        at > 0 ==> !ranks_before(entry, ordered[at - 1], active),
    ensures
        is_display_order(entries.push(entry), active, placed(ordered, entry, at)),
{
    let result = placed(ordered, entry, at);
    assert forall|i: int| 0 <= i < at implies !ranks_before(
        entry,
        #[trigger] ordered[i],
        active,
    ) by {
        if i < at - 1 && ranks_before(entry, ordered[i], active) {
            // `ordered[i]` does not rank after `ordered[at - 1]`.
            ranks_are_total(ordered[i], ordered[at - 1], active);
            if ranks_before(ordered[i], ordered[at - 1], active) {
                ranks_are_transitive(entry, ordered[i], ordered[at - 1], active);
            }
        }
    }
    assert forall|i: int, j: int| 0 <= i < j < result.len() implies !ranks_before(
        #[trigger] result[j],
        #[trigger] result[i],
        active,
    ) by {
        if i == at {
            ranks_are_total(entry, result[j], active);
        }
    }
    assert forall|e: EntryModel| #[trigger]
        peers(result, e, active) == peers(entries.push(entry), e, active) by {
        let keep = |x: EntryModel| ranks_with(x, e, active);
        let head = ordered.take(at);
        let tail = ordered.skip(at);
        assert(head + tail =~= ordered);
        Seq::filter_distributes_over_add(head, tail, keep);
        Seq::filter_distributes_over_add(head.push(entry), tail, keep);
        filter_of_push(head, entry, keep);
        filter_of_push(entries, entry, keep);
        assert(peers(ordered, e, active) == peers(entries, e, active));
        if keep(entry) {
            assert forall|i: int| 0 <= i < tail.len() implies !keep(#[trigger] tail[i]) by {
                assert(tail[i] == ordered[at + i]);
                ranks_are_total(entry, ordered[at + i], active);
            }
            filter_of_none(tail, keep);
            assert(head.filter(keep) + tail.filter(keep) =~= head.filter(keep));
            assert(head.push(entry).filter(keep) + tail.filter(keep) =~= head.push(entry).filter(
                keep,
            ));
        }
    }
}

/// An entry that some entry of a ranked sequence ranks with does not rank after
/// the last of the sequence.
proof fn last_is_not_before(
    entries: Seq<EntryModel>,
    entry: EntryModel,
    active: Option<Seq<char>>,
)
    requires
        is_ranked(entries, active),
        peers(entries, entry, active).len() > 0,
    ensures
        entries.len() > 0,
        !ranks_before(entries.last(), entry, active),
{
    let keep = |e: EntryModel| ranks_with(e, entry, active);
    let peer = entries.filter(keep)[0];
    entries.lemma_filter_pred(keep, 0);
    assert(entries.filter(keep).contains(peer));
    entries.lemma_filter_contains_rev(keep, peer);
    let i = choose|i: int| 0 <= i < entries.len() && entries[i] == peer;
    if i < entries.len() - 1 {
        assert(!ranks_before(entries[entries.len() - 1], entries[i], active));
    } else {
        ranks_are_total(peer, entry, active);
        ranks_are_total(entry, peer, active);
    }
}

/// Two ranked sequences with the same entries of each rank are the same.
proof fn ranked_is_determined(
    a: Seq<EntryModel>,
    b: Seq<EntryModel>,
    active: Option<Seq<char>>,
)
    requires
        is_ranked(a, active),
        is_ranked(b, active),
        forall|entry: EntryModel| #[trigger]
            peers(a, entry, active) == peers(b, entry, active),
    ensures
        a == b,
    decreases a.len(),
{
    reveal(Seq::filter);
    if a.len() == 0 {
        if b.len() > 0 {
            let x = b.last();
            assert(peers(a, x, active).len() == 0);
            assert(peers(b, x, active).len() > 0);
        }
        assert(a =~= b);
    } else {
        let x = a.last();
        assert(peers(a, x, active).last() == x);
        assert(peers(b, x, active).len() > 0);
        last_is_not_before(b, x, active);
        let y = b.last();
        assert(peers(b, y, active).last() == y);
        assert(peers(a, y, active).len() > 0);
        last_is_not_before(a, y, active);
        ranks_are_total(x, y, active);
        assert(peers(b, x, active).last() == y);
        let a_rest = a.drop_last();
        let b_rest = b.drop_last();
        assert forall|entry: EntryModel| #[trigger]
            peers(a_rest, entry, active) == peers(b_rest, entry, active) by {
            assert(peers(a, entry, active) == peers(b, entry, active));
            if ranks_with(x, entry, active) {
                assert(peers(a, entry, active).drop_last() =~= peers(a_rest, entry, active));
                assert(peers(b, entry, active).drop_last() =~= peers(b_rest, entry, active));
            }
        }
        ranked_is_determined(a_rest, b_rest, active);
        assert(a =~= a_rest.push(x));
        assert(b =~= b_rest.push(y));
    }
}

/// Builds the display order of a sequence, entry by entry.
proof fn display_order_exists(entries: Seq<EntryModel>, active: Option<Seq<char>>) -> (ordered: Seq<
    EntryModel,
>)
    ensures
        is_display_order(entries, active, ordered),
        ordered.to_multiset() == entries.to_multiset(),
    decreases entries.len(),
{
    broadcast use vstd::seq_lib::group_to_multiset_ensures;

    if entries.len() == 0 {
        entries
    } else {
        let entry = entries.last();
        let rest = display_order_exists(entries.drop_last(), active);
        let at = place_of(rest, entry, active, rest.len());
        assert(entries.drop_last().push(entry) =~= entries);
        placing_keeps_display_order(entries.drop_last(), active, rest, entry, at);
        assert(placed(rest, entry, at) =~= rest.insert(at, entry));
        assert(rest.insert(at, entry).to_multiset() =~= rest.to_multiset().insert(entry));
        placed(rest, entry, at)
    }
}

/// Where an entry is to be put into a ranked sequence, looked for from `end`.
proof fn place_of(
    ordered: Seq<EntryModel>,
    entry: EntryModel,
    active: Option<Seq<char>>,
    end: nat,
) -> (at: int)
    requires
        end <= ordered.len(),
        forall|i: int|
            end <= i < ordered.len() ==> ranks_before(entry, #[trigger] ordered[i], active),
    ensures
        0 <= at <= ordered.len(),
        forall|i: int| at <= i < ordered.len() ==> ranks_before(entry, #[trigger] ordered[i], active),
        at > 0 ==> !ranks_before(entry, ordered[at - 1], active),
    decreases end,
{
    if end > 0 && ranks_before(entry, ordered[end - 1], active) {
        place_of(ordered, entry, active, (end - 1) as nat)
    } else {
        end as int
    }
}

/// Every sequence of entries has a display order, and no other sequence is
/// one.
pub proof fn display_order_is_determined(
    entries: Seq<EntryModel>,
    active: Option<Seq<char>>,
    ordered: Seq<EntryModel>,
)
    ensures
        is_display_order(entries, active, display_order(entries, active)),
        is_display_order(entries, active, ordered) ==> ordered == display_order(entries, active),
{
    let witness = display_order_exists(entries, active);
    if is_display_order(entries, active, ordered) {
        let chosen = display_order(entries, active);
        assert forall|entry: EntryModel| #[trigger]
            peers(ordered, entry, active) == peers(chosen, entry, active) by {
            assert(peers(ordered, entry, active) == peers(entries, entry, active));
            assert(peers(chosen, entry, active) == peers(entries, entry, active));
        }
        ranked_is_determined(ordered, chosen, active);
    }
}

/// Putting a sequence into display order keeps its entries, each as often as
/// it occurs.
pub proof fn display_order_is_a_permutation(entries: Seq<EntryModel>, active: Option<Seq<char>>)
    ensures
        display_order(entries, active).to_multiset() == entries.to_multiset(),
        display_order(entries, active).len() == entries.len(),
        forall|entry: EntryModel| #[trigger]
            display_order(entries, active).contains(entry) <==> entries.contains(entry),
{
    broadcast use vstd::seq_lib::group_to_multiset_ensures;

    let witness = display_order_exists(entries, active);
    display_order_is_determined(entries, active, witness);
    assert(witness.len() == witness.to_multiset().len());
    assert(entries.len() == entries.to_multiset().len());
    assert forall|entry: EntryModel| #[trigger]
        witness.contains(entry) <==> entries.contains(entry) by {
        assert(witness.contains(entry) <==> witness.to_multiset().count(entry) > 0);
        assert(entries.contains(entry) <==> entries.to_multiset().count(entry) > 0);
    }
}

/// Putting a sequence into display order twice is the same as once.
pub proof fn display_order_is_idempotent(entries: Seq<EntryModel>, active: Option<Seq<char>>)
    ensures
        display_order(display_order(entries, active), active) == display_order(entries, active),
{
    let once = display_order(entries, active);
    display_order_is_determined(entries, active, once);
    display_order_is_determined(once, active, once);
}

/// Whether `a` ranks before `b`.
fn entry_ranks_before(
    a: &SavedAccountEntry,
    b: &SavedAccountEntry,
    active: &Option<String>,
) -> (before: bool)
    ensures
        before == ranks_before(a.deep_view(), b.deep_view(), active.deep_view()),
{
    let a_is_active: bool = has_active_key(a, active);
    let b_is_active: bool = has_active_key(b, active);
    if a_is_active != b_is_active {
        a_is_active
    } else if a.updated_at != b.updated_at {
        b.updated_at.is_earlier_than(&a.updated_at)
    } else {
        text_before(a.label.as_str(), b.label.as_str())
    }
}

/// Whether `entry` is the active account.
pub fn has_active_key(entry: &SavedAccountEntry, active: &Option<String>) -> (is_active: bool)
    ensures
        is_active == is_active_entry(entry.deep_view(), active.deep_view()),
{
    match active {
        Some(key) => *key == entry.key,
        None => false,
    }
}

/// The saved accounts in display order.
pub fn sort_entries(saved: &SavedAccountsFile) -> (ordered: Vec<SavedAccountEntry>)
    ensures
        ordered.deep_view() == display_order(
            saved.accounts.deep_view(),
            saved.active_account_key.deep_view(),
        ),
{
    let ghost entries = saved.accounts.deep_view();
    let ghost active = saved.active_account_key.deep_view();
    let mut ordered: Vec<SavedAccountEntry> = Vec::new();
    let mut i: usize = 0;
    assert(ordered.deep_view() =~= entries.take(0));
    while i < saved.accounts.len()
        invariant
            entries == saved.accounts.deep_view(),
            active == saved.active_account_key.deep_view(),
            i <= saved.accounts.len(),
            is_display_order(entries.take(i as int), active, ordered.deep_view()),
        decreases saved.accounts.len() - i,
    {
        let entry: SavedAccountEntry = saved.accounts[i].clone();
        let mut at: usize = ordered.len();
        while at > 0 && entry_ranks_before(&entry, &ordered[at - 1], &saved.active_account_key)
            invariant
                active == saved.active_account_key.deep_view(),
                at <= ordered.len(),
                forall|k: int|
                    at <= k < ordered.len() ==> ranks_before(
                        entry.deep_view(),
                        #[trigger] ordered.deep_view()[k],
                        active,
                    ),
            decreases at,
        {
            at -= 1;
        }
        let ghost before = ordered.deep_view();
        proof {
            placing_keeps_display_order(
                entries.take(i as int),
                active,
                before,
                entry.deep_view(),
                at as int,
            );
            assert(entries.take(i as int).push(entry.deep_view()) =~= entries.take(i + 1));
        }
        let ghost model = entry.deep_view();
        ordered.insert(at, entry);
        assert(ordered.deep_view() =~= placed(before, model, at as int));
        i += 1;
    }
    proof {
        assert(entries.take(entries.len() as int) =~= entries);
        display_order_is_determined(entries, active, ordered.deep_view());
    }
    ordered
}

/// Whether `ahead` may stand ahead of `behind`: the active account ahead of
/// others, one that was used later ahead of one that was used earlier, and of
/// two used at the same time the one whose label comes first.
pub open spec fn may_stand_ahead(
    ahead: EntryModel,
    behind: EntryModel,
    active: Option<Seq<char>>,
) -> bool {
    &&& active == Some(behind.key) ==> active == Some(ahead.key)
    &&& (active == Some(ahead.key) <==> active == Some(behind.key)) ==> {
        &&& !ahead.updated_at.earlier_than(behind.updated_at)
        &&& ahead.updated_at == behind.updated_at ==> !text_lt(behind.label, ahead.label)
    }
}

/// In display order, the active account stands ahead of all others, and of the
/// others each ahead of those that were used earlier, or of those that were
/// used at the same time and have a label that comes later.
pub proof fn entries_stand_by_activity_use_and_label(
    entries: Seq<EntryModel>,
    active: Option<Seq<char>>,
    i: int,
    j: int,
)
    requires
        0 <= i < j < entries.len(),
    ensures
        may_stand_ahead(
            display_order(entries, active)[i],
            display_order(entries, active)[j],
            active,
        ),
{
    let ordered = display_order(entries, active);
    display_order_is_determined(entries, active, ordered);
    display_order_is_a_permutation(entries, active);
    assert(!ranks_before(ordered[j], ordered[i], active));
}

/// Entries that stand in that order already stay as they stand.
pub proof fn entries_in_order_stay_as_they_stand(
    entries: Seq<EntryModel>,
    active: Option<Seq<char>>,
)
    requires
        forall|i: int, j: int|
            0 <= i < j < entries.len() ==> may_stand_ahead(
                #[trigger] entries[i],
                #[trigger] entries[j],
                active,
            ),
    ensures
        display_order(entries, active) == entries,
{
    assert forall|i: int, j: int| 0 <= i < j < entries.len() implies !ranks_before(
        #[trigger] entries[j],
        #[trigger] entries[i],
        active,
    ) by {
        assert(may_stand_ahead(entries[i], entries[j], active));
    }
    display_order_is_determined(entries, active, entries);
}

/// Entries that nothing tells apart, neither activity nor use nor label, keep
/// the order in which they stood.
pub proof fn ties_keep_their_order(
    entries: Seq<EntryModel>,
    active: Option<Seq<char>>,
    entry: EntryModel,
)
    ensures
        ({
            let ties = |other: EntryModel|
                (active == Some(other.key)) == (active == Some(entry.key)) && other.updated_at
                    == entry.updated_at && other.label == entry.label;
            display_order(entries, active).filter(ties) == entries.filter(ties)
        }),
{
    let ties = |other: EntryModel|
        (active == Some(other.key)) == (active == Some(entry.key)) && other.updated_at
            == entry.updated_at && other.label == entry.label;
    let ranked = |other: EntryModel| ranks_with(other, entry, active);
    assert(ties =~= ranked);
    let ordered = display_order(entries, active);
    display_order_is_determined(entries, active, ordered);
    assert(peers(ordered, entry, active) == peers(entries, entry, active));
}

} // verus!
