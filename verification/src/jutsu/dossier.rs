//! The dossier of a wallet: its assets grouped by collection, counted, and
//! ordered from the largest holding down.

use vstd::prelude::*;
use vstd::string::StringExecFns;
use vstd::seq_lib::{to_multiset_contains, to_multiset_insert};
use crate::model::{
    CollectionSummary, DossierReport, HeliusAsset, HeliusAssetsResponse, HeliusGrouping,
};
use crate::rpc::{is_success, ASSET_PAGE_LIMIT};
use crate::text::{decimal, to_decimal};

verus! {

/// The grouping key under which the indexer files an asset's collection.
pub open spec fn collection_key() -> Seq<char> {
    "collection"@
}

/// The label of an asset that names neither a collection nor itself.
pub open spec fn unknown_collection() -> Seq<char> {
    "Unknown Collection"@
}

/// The value of the first grouping filed under the collection key.
pub open spec fn first_collection(groups: Seq<HeliusGrouping>) -> Option<Seq<char>>
    decreases groups.len(),
{
    if groups.len() == 0 {
        None
    } else if groups[0].group_key@ == collection_key() {
        Some(groups[0].group_value@)
    } else {
        first_collection(groups.drop_first())
    }
}

/// The name an asset carries in its own metadata, if any.
pub open spec fn embedded_name(asset: HeliusAsset) -> Option<Seq<char>> {
    match asset.content {
        Some(content) => match content.metadata {
            Some(metadata) => match metadata.name {
                Some(name) => Some(name@),
                None => None,
            },
            None => None,
        },
        None => None,
    }
}

/// The label an asset is counted under: its collection, else its own
/// name, else the unknown collection.
pub open spec fn collection_label(asset: HeliusAsset) -> Seq<char> {
    let grouped = match asset.grouping {
        Some(groups) => first_collection(groups@),
        None => None,
    };
    match grouped {
        Some(value) => value,
        None => match embedded_name(asset) {
            Some(name) => name,
            None => unknown_collection(),
        },
    }
}

/// The labels of a list of assets, in order.
pub open spec fn asset_labels(assets: Seq<HeliusAsset>) -> Seq<Seq<char>> {
    Seq::new(assets.len(), |i: int| collection_label(assets[i]))
}

/// How often `name` occurs among `labels`.
pub open spec fn occurrences(labels: Seq<Seq<char>>, name: Seq<char>) -> nat
    decreases labels.len(),
{
    if labels.len() == 0 {
        0
    } else {
        occurrences(labels.drop_last(), name) + if labels.last() == name {
            1nat
        } else {
            0nat
        }
    }
}

/// The sum of the counts of a list of summaries.
pub open spec fn total_count(summaries: Seq<CollectionSummary>) -> nat
    decreases summaries.len(),
{
    if summaries.len() == 0 {
        0
    } else {
        total_count(summaries.drop_last()) + summaries.last().count as nat
    }
}

/// No two summaries carry the same name.
pub open spec fn distinct_names(summaries: Seq<CollectionSummary>) -> bool {
    forall|a: int, b: int|
        #![trigger summaries[a], summaries[b]]
        0 <= a < b < summaries.len() ==> summaries[a].name@ != summaries[b].name@
}

/// `summaries` is a tally of `labels`: one summary for each label that
/// occurs, none for any other, each holding the number of occurrences.
pub open spec fn is_tally_of(summaries: Seq<CollectionSummary>, labels: Seq<Seq<char>>) -> bool {
    &&& distinct_names(summaries)
    &&& counts_match(summaries, labels)
    &&& covers(summaries, labels)
}

/// Every summary holds the number of labels equal to its name, and that
/// number is not zero.
pub open spec fn counts_match(summaries: Seq<CollectionSummary>, labels: Seq<Seq<char>>) -> bool {
    forall|k: int|
        #![trigger summaries[k]]
        0 <= k < summaries.len() ==> summaries[k].count > 0 && summaries[k].count as nat
            == occurrences(labels, summaries[k].name@)
}

/// Every label is the name of some summary.
pub open spec fn covers(summaries: Seq<CollectionSummary>, labels: Seq<Seq<char>>) -> bool {
    forall|j: int| 0 <= j < labels.len() ==> #[trigger] has_name(summaries, labels[j])
}

/// Some summary carries the name `name`.
pub open spec fn has_name(summaries: Seq<CollectionSummary>, name: Seq<char>) -> bool {
    exists|k: int| 0 <= k < summaries.len() && (#[trigger] summaries[k]).name@ == name
}

/// The counts never rise from one summary to the next.
pub open spec fn sorted_by_count(summaries: Seq<CollectionSummary>) -> bool {
    forall|a: int, b: int|
        #![trigger summaries[a], summaries[b]]
        0 <= a < b < summaries.len() ==> summaries[a].count >= summaries[b].count
}

/// Finds the value of the first grouping filed under the collection key.
fn find_collection(groups: &Vec<HeliusGrouping>) -> (found: Option<String>)
    ensures
        match found {
            Some(value) => first_collection(groups@) == Some(value@),
            None => first_collection(groups@) is None,
        },
{
    let key = String::from_str("collection");
    let mut i: usize = 0;
    assert(groups@.skip(0) =~= groups@);
    while i < groups.len()
        invariant
            i <= groups.len(),
            key@ == collection_key(),
            first_collection(groups@) == first_collection(groups@.skip(i as int)),
        decreases groups.len() - i,
    {
        assert(groups@.skip(i as int).drop_first() =~= groups@.skip(i as int + 1));
        assert(groups@.skip(i as int)[0] == groups@[i as int]);
        if groups[i].group_key == key {
            return Some(groups[i].group_value.clone());
        }
        i += 1;
    }
    assert(groups@.skip(i as int).len() == 0);
    None
}

/// The label an asset is counted under.
pub fn collection_name(asset: &HeliusAsset) -> (name: String)
    ensures
        name@ == collection_label(*asset),
{
    if let Some(groups) = &asset.grouping {
        if let Some(value) = find_collection(groups) {
            return value;
        }
    }
    if let Some(content) = &asset.content {
        if let Some(metadata) = &content.metadata {
            if let Some(name) = &metadata.name {
                return name.clone();
            }
        }
    }
    String::from_str("Unknown Collection")
}

proof fn lemma_occurrences_step(labels: Seq<Seq<char>>, i: int, name: Seq<char>)
    requires
        0 <= i < labels.len(),
    ensures
        occurrences(labels.take(i + 1), name) == occurrences(labels.take(i), name) + if labels[i]
            == name {
            1nat
        } else {
            0nat
        },
{
    assert(labels.take(i + 1).drop_last() =~= labels.take(i));
    assert(labels.take(i + 1).last() == labels[i]);
}

proof fn lemma_occurrences_bound(labels: Seq<Seq<char>>, name: Seq<char>)
    ensures
        occurrences(labels, name) <= labels.len(),
    decreases labels.len(),
{
    if labels.len() > 0 {
        lemma_occurrences_bound(labels.drop_last(), name);
    }
}

proof fn lemma_total_update(s: Seq<CollectionSummary>, k: int, x: CollectionSummary)
    requires
        0 <= k < s.len(),
    ensures
        total_count(s.update(k, x)) + s[k].count == total_count(s) + x.count,
    decreases s.len(),
{
    if k == s.len() - 1 {
        assert(s.update(k, x).drop_last() =~= s.drop_last());
    } else {
        assert(s.update(k, x).drop_last() =~= s.drop_last().update(k, x));
        lemma_total_update(s.drop_last(), k, x);
    }
}

proof fn lemma_total_insert(s: Seq<CollectionSummary>, p: int, x: CollectionSummary)
    requires
        0 <= p <= s.len(),
    ensures
        total_count(s.insert(p, x)) == total_count(s) + x.count,
    decreases s.len() - p,
{
    if p == s.len() {
        assert(s.insert(p, x) =~= s.push(x));
        assert(s.push(x).drop_last() =~= s);
    } else {
        assert(s.insert(p, x).drop_last() =~= s.drop_last().insert(p, x));
        assert(s.insert(p, x).last() == s.last());
        lemma_total_insert(s.drop_last(), p, x);
    }
}

proof fn lemma_covers_rearranged(
    a: Seq<CollectionSummary>,
    b: Seq<CollectionSummary>,
    labels: Seq<Seq<char>>,
)
    requires
        forall|j: int| 0 <= j < a.len() ==> b.contains(#[trigger] a[j]),
        covers(a, labels),
    ensures
        covers(b, labels),
{
    assert forall|j: int| 0 <= j < labels.len() implies #[trigger] has_name(b, labels[j]) by {
        assert(has_name(a, labels[j]));
        let ja = choose|k: int| 0 <= k < a.len() && (#[trigger] a[k]).name@ == labels[j];
        assert(b.contains(a[ja]));
        let kb = b.index_of(a[ja]);
        assert(b[kb].name@ == labels[j]);
    }
}

/// A rearrangement of a tally is a tally of the same labels.
pub proof fn lemma_tally_rearranged(
    a: Seq<CollectionSummary>,
    b: Seq<CollectionSummary>,
    labels: Seq<Seq<char>>,
)
    requires
        a.to_multiset() == b.to_multiset(),
        is_tally_of(a, labels),
    ensures
        is_tally_of(b, labels),
{
    assert forall|k: int| 0 <= k < b.len() implies a.contains(#[trigger] b[k]) by {
        to_multiset_contains(b, b[k]);
        to_multiset_contains(a, b[k]);
        assert(b.contains(b[k]));
    }
    assert forall|j: int| 0 <= j < a.len() implies b.contains(#[trigger] a[j]) by {
        to_multiset_contains(a, a[j]);
        to_multiset_contains(b, a[j]);
        assert(a.contains(a[j]));
    }
    assert(a.no_duplicates()) by {
        assert forall|i: int, j: int| 0 <= i < a.len() && 0 <= j < a.len() && i != j implies a[i]
            != a[j] by {
            if i < j {
                assert(a[i].name@ != a[j].name@);
            } else {
                assert(a[j].name@ != a[i].name@);
            }
        }
    }
    a.lemma_multiset_has_no_duplicates();
    b.lemma_multiset_has_no_duplicates_conv();
    assert forall|x: int, y: int| 0 <= x < y < b.len() implies b[x].name@ != b[y].name@ by {
        assert(a.contains(b[x]) && a.contains(b[y]));
        let jx = a.index_of(b[x]);
        let jy = a.index_of(b[y]);
        assert(b[x] != b[y]);
        if jx < jy {
            assert(a[jx].name@ != a[jy].name@);
        } else if jy < jx {
            assert(a[jy].name@ != a[jx].name@);
        }
    }
    assert forall|k: int| 0 <= k < b.len() implies (#[trigger] b[k]).count > 0 && b[k].count as nat
        == occurrences(labels, b[k].name@) by {
        assert(a.contains(b[k]));
        let j = a.index_of(b[k]);
        assert(a[j].count > 0);
    }
    lemma_covers_rearranged(a, b, labels);
    assert(distinct_names(b));
    assert(counts_match(b, labels));
    assert(covers(b, labels));
}

/// The place of the summary named `name`, if there is one.
fn position_of(summaries: &Vec<CollectionSummary>, name: &String) -> (found: Option<usize>)
    ensures
        match found {
            Some(k) => k < summaries.len() && summaries[k as int].name@ == name@,
            None => forall|k: int|
                0 <= k < summaries.len() ==> (#[trigger] summaries[k]).name@ != name@,
        },
{
    let mut k: usize = 0;
    while k < summaries.len()
        invariant
            k <= summaries.len(),
            forall|j: int| 0 <= j < k ==> (#[trigger] summaries[j]).name@ != name@,
        decreases summaries.len() - k,
    {
        if summaries[k].name == *name {
            return Some(k);
        }
        k += 1;
    }
    None
}

/// Counts the assets of each collection: one summary for each label that
/// occurs among the assets.
pub fn tally_collections(assets: &Vec<HeliusAsset>) -> (summaries: Vec<CollectionSummary>)
    requires
        assets.len() <= u32::MAX,
    ensures
        is_tally_of(summaries@, asset_labels(assets@)),
        total_count(summaries@) == assets.len(),
{
    let mut summaries: Vec<CollectionSummary> = Vec::new();
    let ghost labels = asset_labels(assets@);
    let mut i: usize = 0;
    while i < assets.len()
        invariant
            i <= assets.len(),
            assets.len() <= u32::MAX,
            labels == asset_labels(assets@),
            is_tally_of(summaries@, labels.take(i as int)),
            total_count(summaries@) == i,
        decreases assets.len() - i,
    {
        let label = collection_name(&assets[i]);
        let found = position_of(&summaries, &label);
        let ghost before = summaries@;
        let ghost seen = labels.take(i as int);
        let ghost next = labels.take(i as int + 1);
        proof {
            assert(labels[i as int] == label@);
            assert forall|name: Seq<char>|
                #[trigger] occurrences(next, name) == occurrences(seen, name) + if label@ == name {
                    1nat
                } else {
                    0nat
                } by {
                lemma_occurrences_step(labels, i as int, name);
            }
            lemma_occurrences_bound(seen, label@);
        }
        match found {
            Some(k) => {
                let count = summaries[k].count;
                let bumped = CollectionSummary { name: label, count: count + 1 };
                summaries.set(k, bumped);
                proof {
                    lemma_total_update(before, k as int, bumped);
                    assert forall|j: int| 0 <= j < summaries@.len() implies summaries@[j].name@
                        == (#[trigger] before[j]).name@ by {}
                    assert forall|a: int, b: int| 0 <= a < b < summaries@.len() implies (
                    #[trigger] summaries@[a]).name@ != (#[trigger] summaries@[b]).name@ by {
                        assert(before[a].name@ != before[b].name@);
                    }
                    assert forall|j: int| 0 <= j < summaries@.len() implies (
                    #[trigger] summaries@[j]).count > 0 && summaries@[j].count as nat
                        == occurrences(next, summaries@[j].name@) by {
                        assert(before[j].count > 0);
                        if j < k as int {
                            assert(before[j].name@ != before[k as int].name@);
                        } else if j > k as int {
                            assert(before[k as int].name@ != before[j].name@);
                        }
                    }
                    assert forall|j: int| 0 <= j < next.len() implies #[trigger] has_name(
                        summaries@,
                        next[j],
                    ) by {
                        if j < i as int {
                            assert(seen[j] == next[j]);
                            assert(has_name(before, seen[j]));
                            let m = choose|m: int|
                                0 <= m < before.len() && (#[trigger] before[m]).name@ == seen[j];
                            assert(summaries@[m].name@ == next[j]);
                        } else {
                            assert(summaries@[k as int].name@ == next[j]);
                        }
                    }
                }
            },
            None => {
                let fresh = CollectionSummary { name: label, count: 1 };
                summaries.push(fresh);
                proof {
                    assert(summaries@.drop_last() =~= before);
                    assert forall|a: int, b: int| 0 <= a < b < summaries@.len() implies (
                    #[trigger] summaries@[a]).name@ != (#[trigger] summaries@[b]).name@ by {
                        if b < before.len() {
                            assert(before[a].name@ != before[b].name@);
                        } else {
                            assert(before[a].name@ != label@);
                        }
                    }
                    assert(occurrences(seen, label@) == 0) by {
                        lemma_absent_name(before, seen, label@);
                    }
                    assert forall|j: int| 0 <= j < summaries@.len() implies (
                    #[trigger] summaries@[j]).count > 0 && summaries@[j].count as nat
                        == occurrences(next, summaries@[j].name@) by {
                        if j < before.len() {
                            assert(before[j].count > 0);
                            assert(before[j].name@ != label@);
                        }
                    }
                    assert forall|j: int| 0 <= j < next.len() implies #[trigger] has_name(
                        summaries@,
                        next[j],
                    ) by {
                        if j < i as int {
                            assert(seen[j] == next[j]);
                            assert(has_name(before, seen[j]));
                            let m = choose|m: int|
                                0 <= m < before.len() && (#[trigger] before[m]).name@ == seen[j];
                            assert(summaries@[m].name@ == next[j]);
                        } else {
                            assert(summaries@[before.len() as int].name@ == next[j]);
                        }
                    }
                }
            },
        }
        i += 1;
    }
    assert(labels.take(i as int) =~= labels);
    summaries
}

/// A name that no summary of a covering list carries does not occur.
proof fn lemma_absent_name(
    summaries: Seq<CollectionSummary>,
    labels: Seq<Seq<char>>,
    name: Seq<char>,
)
    requires
        covers(summaries, labels),
        forall|k: int| 0 <= k < summaries.len() ==> (#[trigger] summaries[k]).name@ != name,
    ensures
        occurrences(labels, name) == 0,
    decreases labels.len(),
{
    if labels.len() > 0 {
        let rest = labels.drop_last();
        assert forall|j: int| 0 <= j < rest.len() implies #[trigger] has_name(
            summaries,
            rest[j],
        ) by {
            assert(rest[j] == labels[j]);
            assert(has_name(summaries, labels[j]));
        }
        lemma_absent_name(summaries, rest, name);
        assert(has_name(summaries, labels[labels.len() - 1]));
    }
}

/// Orders summaries from the highest count down. Which of two summaries
/// of equal count comes first is left open.
pub fn sort_by_count(items: Vec<CollectionSummary>) -> (sorted: Vec<CollectionSummary>)
    ensures
        sorted@.to_multiset() == items@.to_multiset(),
        sorted_by_count(sorted@),
        total_count(sorted@) == total_count(items@),
{
    let mut rest = items;
    let mut sorted: Vec<CollectionSummary> = Vec::new();
    assert(sorted@ + rest@ =~= items@);
    while rest.len() > 0
        invariant
            (sorted@ + rest@).to_multiset() == items@.to_multiset(),
            sorted_by_count(sorted@),
            total_count(sorted@) + total_count(rest@) == total_count(items@),
        decreases rest.len(),
    {
        let ghost rest_before = rest@;
        let ghost sorted_before = sorted@;
        let x = rest.pop().unwrap();
        let mut p: usize = 0;
        while p < sorted.len() && sorted[p].count > x.count
            invariant
                p <= sorted.len(),
                forall|a: int| 0 <= a < p ==> (#[trigger] sorted@[a]).count > x.count,
            decreases sorted.len() - p,
        {
            p += 1;
        }
        sorted.insert(p, x);
        proof {
            let joined = sorted_before + rest@;
            assert(sorted_before + rest_before =~= joined.insert(joined.len() as int, x));
            assert(sorted@ + rest@ =~= joined.insert(p as int, x));
            to_multiset_insert(joined, joined.len() as int, x);
            to_multiset_insert(joined, p as int, x);
            lemma_total_insert(sorted_before, p as int, x);
            assert(rest_before.drop_last() =~= rest@);
            assert forall|a: int, b: int| 0 <= a < b < sorted@.len() implies (
            #[trigger] sorted@[a]).count >= (#[trigger] sorted@[b]).count by {
                let pi = p as int;
                if b < pi {
                    assert(sorted_before[a].count >= sorted_before[b].count);
                } else if b == pi {
                    assert(sorted_before[a].count > x.count);
                } else if a < pi {
                    assert(sorted_before[a].count >= sorted_before[b - 1].count);
                } else if a == pi {
                    if pi < b - 1 {
                        assert(sorted_before[pi].count >= sorted_before[b - 1].count);
                    }
                } else {
                    assert(sorted_before[a - 1].count >= sorted_before[b - 1].count);
                }
            }
        }
    }
    assert(sorted@ + rest@ =~= sorted@);
    sorted
}

/// Compiles the dossier of a wallet from one page of its assets.
pub fn compile_report(wallet_address: String, response: HeliusAssetsResponse) -> (report:
    DossierReport)
    requires
        response.result.items.len() <= u32::MAX,
    ensures
        report.wallet_address@ == wallet_address@,
        report.total_nfts == response.result.total,
        is_tally_of(report.collections@, asset_labels(response.result.items@)),
        sorted_by_count(report.collections@),
        total_count(report.collections@) == response.result.items.len(),
{
    let tally = tally_collections(&response.result.items);
    let ghost counted = tally@;
    let collections = sort_by_count(tally);
    proof {
        lemma_tally_rearranged(counted, collections@, asset_labels(response.result.items@));
    }
    DossierReport { wallet_address, total_nfts: response.result.total, collections }
}

/// The labels other than `name`, in order.
pub open spec fn without(labels: Seq<Seq<char>>, name: Seq<char>) -> Seq<Seq<char>>
    decreases labels.len(),
{
    if labels.len() == 0 {
        labels
    } else if labels.last() == name {
        without(labels.drop_last(), name)
    } else {
        without(labels.drop_last(), name).push(labels.last())
    }
}

proof fn lemma_without(labels: Seq<Seq<char>>, name: Seq<char>)
    ensures
        without(labels, name).len() + occurrences(labels, name) == labels.len(),
        forall|other: Seq<char>|
            other != name ==> #[trigger] occurrences(without(labels, name), other) == occurrences(
                labels,
                other,
            ),
        forall|j: int|
            0 <= j < without(labels, name).len() ==> (#[trigger] without(labels, name)[j]) != name
                && labels.contains(without(labels, name)[j]),
    decreases labels.len(),
{
    if labels.len() > 0 {
        let rest = labels.drop_last();
        let kept = without(rest, name);
        lemma_without(rest, name);
        assert forall|j: int| 0 <= j < kept.len() implies labels.contains(#[trigger] kept[j]) by {
            assert(rest.contains(kept[j]));
            let m = rest.index_of(kept[j]);
            assert(labels[m] == kept[j]);
        }
        if labels.last() != name {
            let grown = kept.push(labels.last());
            assert(grown.drop_last() =~= kept);
            assert(grown.last() == labels.last());
            assert(labels[labels.len() - 1] == labels.last());
            assert forall|other: Seq<char>| other != name implies #[trigger] occurrences(
                grown,
                other,
            ) == occurrences(labels, other) by {
                assert(occurrences(kept, other) == occurrences(rest, other));
            }
        } else {
            assert forall|other: Seq<char>| other != name implies #[trigger] occurrences(
                kept,
                other,
            ) == occurrences(labels, other) by {
                assert(occurrences(kept, other) == occurrences(rest, other));
            }
        }
    }
}

/// The counts of a tally add up to the number of labels tallied: every
/// label is counted once, under one name. The counts of a dossier
/// therefore add up to its `total_nfts` exactly when that total is the
/// number of assets that were tallied.
pub proof fn lemma_tally_counts_each_label_once(
    summaries: Seq<CollectionSummary>,
    labels: Seq<Seq<char>>,
    total_nfts: u32,
)
    requires
        is_tally_of(summaries, labels),
    ensures
        total_count(summaries) == labels.len(),
        total_count(summaries) == total_nfts <==> labels.len() == total_nfts,
    decreases summaries.len(),
{
    if summaries.len() == 0 {
        if labels.len() > 0 {
            assert(has_name(summaries, labels[0]));
        }
    } else {
        let last = summaries.last();
        let rest = summaries.drop_last();
        let others = without(labels, last.name@);
        lemma_without(labels, last.name@);
        assert forall|a: int, b: int| 0 <= a < b < rest.len() implies (#[trigger] rest[a]).name@ != (
        #[trigger] rest[b]).name@ by {
            assert(summaries[a].name@ != summaries[b].name@);
        }
        assert forall|k: int| 0 <= k < rest.len() implies (#[trigger] rest[k]).count > 0
            && rest[k].count as nat == occurrences(others, rest[k].name@) by {
            assert(summaries[k].count > 0);
            assert(summaries[k].name@ != summaries[summaries.len() - 1].name@);
        }
        assert forall|j: int| 0 <= j < others.len() implies #[trigger] has_name(rest, others[j]) by {
            assert(labels.contains(others[j]));
            let m = labels.index_of(others[j]);
            assert(has_name(summaries, labels[m]));
            let k = choose|k: int|
                0 <= k < summaries.len() && (#[trigger] summaries[k]).name@ == labels[m];
            assert(rest[k].name@ == others[j]);
        }
        lemma_tally_counts_each_label_once(rest, others, total_nfts);
        assert(summaries[summaries.len() - 1].count as nat == occurrences(labels, last.name@));
    }
}

/// What a dossier says of the holder.
#[derive(Debug)]
pub enum Assessment {
    /// The largest holding is more than 30% of all assets.
    HighConviction { collection: String },
    /// No holding dominates, and there are more than five collections.
    Diversified,
    /// No holding dominates, among at most five collections.
    Selective,
    /// The wallet holds no collection at all.
    NoCollections,
}

/// A holding of `count` assets is more than 30% of `total` assets.
pub open spec fn exceeds_thirty_percent(count: u32, total: u32) -> bool {
    10 * (count as int) > 3 * (total as int)
}

/// The sentence that states an assessment.
pub open spec fn assessment_text(assessment: Assessment) -> Seq<char> {
    match assessment {
        Assessment::HighConviction { collection } => "High-conviction '"@ + collection@
            + "' holder."@,
        Assessment::Diversified => "Diversified collector across multiple collections."@,
        Assessment::Selective => "Selective NFT holder."@,
        Assessment::NoCollections => "No NFT collections detected."@,
    }
}

impl Assessment {
    /// The sentence that states this assessment.
    pub fn message(&self) -> (text: String)
        ensures
            text@ == assessment_text(*self),
    {
        match self {
            Assessment::HighConviction { collection } => {
                let mut text = String::from_str("High-conviction '");
                text.append(collection.as_str());
                text.append("' holder.");
                text
            },
            Assessment::Diversified => String::from_str(
                "Diversified collector across multiple collections.",
            ),
            Assessment::Selective => String::from_str("Selective NFT holder."),
            Assessment::NoCollections => String::from_str("No NFT collections detected."),
        }
    }
}

/// `assessment` is what a dossier says of the holder: nothing without
/// collections; else high conviction where the first collection is more
/// than 30% of all assets; else diversified with more than five
/// collections and selective with five at most.
pub open spec fn is_assessment_of(assessment: Assessment, report: DossierReport) -> bool {
    let collections = report.collections@;
    match assessment {
        Assessment::NoCollections => collections.len() == 0,
        Assessment::HighConviction { collection } => {
            &&& collections.len() > 0
            &&& exceeds_thirty_percent(collections[0].count, report.total_nfts)
            &&& collection@ == collections[0].name@
        },
        Assessment::Diversified => {
            &&& collections.len() > 5
            &&& !exceeds_thirty_percent(collections[0].count, report.total_nfts)
        },
        Assessment::Selective => {
            &&& 0 < collections.len() <= 5
            &&& !exceeds_thirty_percent(collections[0].count, report.total_nfts)
        },
    }
}

/// Judges a holder by the first collection of the dossier, which is the
/// largest where the dossier is ordered, and by the number of collections.
pub fn assess(report: &DossierReport) -> (assessment: Assessment)
    ensures
        is_assessment_of(assessment, *report),
{
    if report.collections.len() == 0 {
        return Assessment::NoCollections;
    }
    let top = &report.collections[0];
    let share: u64 = 10 * (top.count as u64);
    let bar: u64 = 3 * (report.total_nfts as u64);
    if share > bar {
        Assessment::HighConviction { collection: top.name.clone() }
    } else if report.collections.len() > 5 {
        Assessment::Diversified
    } else {
        Assessment::Selective
    }
}

/// What is asked of the indexer: one page of the assets of an owner.
#[derive(Debug)]
pub struct AssetsRequest {
    pub owner_address: String,
    pub page: u32,
    pub limit: u32,
    pub show_collection_metadata: bool,
}

/// The request for the assets of a wallet: its first page, of up to a
/// thousand assets, with the metadata of their collections.
pub fn assets_request(wallet_address: &str) -> (request: AssetsRequest)
    ensures
        request.owner_address@ == wallet_address@,
        request.page == 1,
        request.limit == ASSET_PAGE_LIMIT,
        request.show_collection_metadata,
{
    AssetsRequest {
        owner_address: String::from_str(wallet_address),
        page: 1,
        limit: ASSET_PAGE_LIMIT,
        show_collection_metadata: true,
    }
}

/// Why no dossier could be compiled.
#[derive(Debug)]
pub enum DossierError {
    /// The indexer answered with a status other than success; `reason`
    /// is the phrase that goes with the code.
    Status { code: u16, reason: String },
    /// The reply is no list of assets; `cause` says why.
    Malformed { cause: String },
    /// The reply lists more assets than can be counted.
    TooManyAssets,
}

/// The message of an error.
pub open spec fn dossier_error_text(error: DossierError) -> Seq<char> {
    match error {
        DossierError::Status { code, reason } => "Helius API request failed with status: "@
            + decimal(code as nat) + " "@ + reason@ + ". Make sure HELIUS_API_KEY is set."@,
        DossierError::Malformed { cause } => "Failed to parse the list of assets: "@ + cause@,
        DossierError::TooManyAssets => "Too many assets to count"@,
    }
}

impl DossierError {
    /// The message of this error.
    pub fn message(&self) -> (text: String)
        ensures
            text@ == dossier_error_text(*self),
    {
        match self {
            DossierError::Status { code, reason } => {
                let mut text = String::from_str("Helius API request failed with status: ");
                let number = to_decimal(*code as u32);
                text.append(number.as_str());
                text.append(" ");
                text.append(reason.as_str());
                text.append(". Make sure HELIUS_API_KEY is set.");
                text
            },
            DossierError::Malformed { cause } => {
                let mut text = String::from_str("Failed to parse the list of assets: ");
                text.append(cause.as_str());
                text
            },
            DossierError::TooManyAssets => String::from_str("Too many assets to count"),
        }
    }
}

/// What comes of the indexer's reply: the dossier, where the status is
/// one of success and the reply a list of assets.
pub open spec fn is_outcome_of(
    outcome: Result<DossierReport, DossierError>,
    wallet_address: Seq<char>,
    status: u16,
    reason: Seq<char>,
    parsed: Result<HeliusAssetsResponse, String>,
) -> bool {
    if !(200 <= status <= 299) {
        &&& outcome matches Err(error)
        &&& error matches DossierError::Status { code, reason: told }
        &&& code == status
        &&& told@ == reason
    } else {
        match parsed {
            Err(cause) => {
                &&& outcome matches Err(error)
                &&& error matches DossierError::Malformed { cause: told }
                &&& told@ == cause@
            },
            Ok(response) => if response.result.items@.len() > u32::MAX {
                outcome matches Err(error) && error is TooManyAssets
            } else {
                &&& outcome matches Ok(report)
                &&& report.wallet_address@ == wallet_address
                &&& report.total_nfts == response.result.total
                &&& is_tally_of(report.collections@, asset_labels(response.result.items@))
                &&& sorted_by_count(report.collections@)
                &&& total_count(report.collections@) == response.result.items@.len()
            },
        }
    }
}

/// Turns the indexer's reply into the dossier of a wallet. `reason` is
/// the phrase that goes with the status; `parsed` is the list of assets,
/// or why what came is none.
pub fn receive(
    wallet_address: String,
    status: u16,
    reason: String,
    parsed: Result<HeliusAssetsResponse, String>,
) -> (outcome: Result<DossierReport, DossierError>)
    ensures
        is_outcome_of(outcome, wallet_address@, status, reason@, parsed),
{
    if !is_success(status) {
        return Err(DossierError::Status { code: status, reason });
    }
    let response = match parsed {
        Ok(response) => response,
        Err(cause) => return Err(DossierError::Malformed { cause }),
    };
    if response.result.items.len() > u32::MAX as usize {
        return Err(DossierError::TooManyAssets);
    }
    Ok(compile_report(wallet_address, response))
}

} // verus!
