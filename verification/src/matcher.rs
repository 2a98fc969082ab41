//! The catalog matcher: resolves a noisy recognised string to the catalog
//! entry whose display name is nearest in edit distance.

use crate::error::OcrError;
use vstd::prelude::*;

verus! {

/// One known item. Only `item_name` takes part in matching.
#[derive(Debug, PartialEq, Eq)]
pub struct CatalogItem {
    pub id: String,
    pub url_name: String,
    pub thumb: String,
    pub item_name: String,
}

impl Clone for CatalogItem {
    fn clone(&self) -> (res: CatalogItem)
        ensures
            res == *self,
    {
        CatalogItem {
            id: self.id.clone(),
            url_name: self.url_name.clone(),
            thumb: self.thumb.clone(),
            item_name: self.item_name.clone(),
        }
    }
}

pub open spec fn least3(a: nat, b: nat, c: nat) -> nat {
    if a <= b && a <= c {
        a
    } else if b <= c {
        b
    } else {
        c
    }
}

/// The least number of single-character insertions, deletions and
/// substitutions that turn `a` into `b`.
pub open spec fn edit_distance(a: Seq<char>, b: Seq<char>) -> nat
    decreases a.len() + b.len(),
{
    if a.len() == 0 {
        b.len()
    } else if b.len() == 0 {
        a.len()
    } else {
        let step: nat = if a.last() == b.last() { 0 } else { 1 };
        least3(
            edit_distance(a.drop_last(), b.drop_last()) + step,
            edit_distance(a.drop_last(), b) + 1,
            edit_distance(a, b.drop_last()) + 1,
        )
    }
}

/// Two strings are at distance zero exactly when they are equal.
pub proof fn lemma_distance_zero(a: Seq<char>, b: Seq<char>)
    ensures
        edit_distance(a, b) == 0 <==> a == b,
    decreases a.len() + b.len(),
{
    if a.len() == 0 || b.len() == 0 {
        if a.len() == 0 && b.len() == 0 {
            assert(a =~= b);
        }
    } else {
        lemma_distance_zero(a.drop_last(), b.drop_last());
        if a == b {
            assert(a.drop_last() == b.drop_last());
        }
        if edit_distance(a, b) == 0 {
            assert(a.drop_last() == b.drop_last());
            assert(a.last() == b.last());
            assert(a =~= a.drop_last().push(a.last()));
            assert(b =~= b.drop_last().push(b.last()));
        }
    }
}

/// Calls `levenshtein::levenshtein`, which counts over the `char`s of both
/// strings with the usual single-row table. The contract claims that what it
/// returns is the edit distance between the two character sequences.
#[verifier::external_body]
fn levenshtein_distance(a: &str, b: &str) -> (d: usize)
    ensures
        d == edit_distance(a@, b@),
{
    levenshtein::levenshtein(a, b)
}

/// Distance from `target` to the display name of entry `k`.
pub open spec fn distance_to(catalog: Seq<CatalogItem>, target: Seq<char>, k: int) -> nat {
    edit_distance(target, catalog[k].item_name@)
}

/// Entry `k` is the match for `target`: no entry is nearer, and every entry
/// before it is strictly farther.
pub open spec fn is_closest(catalog: Seq<CatalogItem>, target: Seq<char>, k: int) -> bool {
    &&& 0 <= k < catalog.len()
    &&& forall|j: int|
        0 <= j < catalog.len() ==> distance_to(catalog, target, k) <= #[trigger] distance_to(
            catalog,
            target,
            j,
        )
    &&& forall|j: int|
        0 <= j < k ==> distance_to(catalog, target, k) < #[trigger] distance_to(catalog, target, j)
}

/// At most one entry is the match.
pub proof fn lemma_closest_unique(catalog: Seq<CatalogItem>, target: Seq<char>, k1: int, k2: int)
    requires
        is_closest(catalog, target, k1),
        is_closest(catalog, target, k2),
    ensures
        k1 == k2,
{
    if k1 < k2 {
        assert(distance_to(catalog, target, k2) < distance_to(catalog, target, k1));
    } else if k2 < k1 {
        assert(distance_to(catalog, target, k1) < distance_to(catalog, target, k2));
    }
}

/// When some entry carries exactly the target as its display name, the match
/// carries it too, and is the first entry that does.
pub proof fn lemma_exact_name_is_matched(
    catalog: Seq<CatalogItem>,
    target: Seq<char>,
    k: int,
    j: int,
)
    requires
        is_closest(catalog, target, k),
        0 <= j < catalog.len(),
        catalog[j].item_name@ == target,
    ensures
        catalog[k].item_name@ == target,
        k <= j,
{
    lemma_distance_zero(target, catalog[j].item_name@);
    lemma_distance_zero(target, catalog[k].item_name@);
    assert(distance_to(catalog, target, j) == 0);
    assert(distance_to(catalog, target, k) <= distance_to(catalog, target, j));
    if j < k {
        assert(distance_to(catalog, target, k) < distance_to(catalog, target, j));
    }
}

/// Position of the match for `target`, scanning in catalog order and keeping
/// the first entry among equals. `None` exactly for an empty catalog.
pub fn closest_index(items: &Vec<CatalogItem>, target: &str) -> (res: Option<usize>)
    ensures
        res is None <==> items.len() == 0,
        res matches Some(k) ==> is_closest(items@, target@, k as int),
{
    if items.len() == 0 {
        return None;
    }
    let mut best: usize = 0;
    let mut lowest: usize = levenshtein_distance(target, items[0].item_name.as_str());
    let mut i: usize = 1;
    while i < items.len()
        invariant
            1 <= i <= items.len(),
            best < i,
            lowest == distance_to(items@, target@, best as int),
            forall|j: int| 0 <= j < i ==> lowest <= #[trigger] distance_to(items@, target@, j),
            forall|j: int| 0 <= j < best ==> lowest < #[trigger] distance_to(items@, target@, j),
        decreases items.len() - i,
    {
        let diff: usize = levenshtein_distance(target, items[i].item_name.as_str());
        if diff < lowest {
            lowest = diff;
            best = i;
        }
        i += 1;
    }
    Some(best)
}

/// The catalog entry nearest to `target`, or `EmptyCatalog` when there is
/// nothing to choose from.
pub fn find_closest_levenshtein_match(items: &Vec<CatalogItem>, target: &str) -> (res: Result<
    CatalogItem,
    OcrError,
>)
    ensures
        res is Err <==> items.len() == 0,
        res matches Err(e) ==> e == OcrError::EmptyCatalog,
        res matches Ok(item) ==> exists|k: int|
            is_closest(items@, target@, k) && item == #[trigger] items@[k],
        forall|j: int|
            0 <= j < items@.len() && (#[trigger] items@[j]).item_name@ == target@ ==> (res matches Ok(
                item,
            ) && item.item_name@ == target@),
{
    match closest_index(items, target) {
        None => Err(OcrError::EmptyCatalog),
        Some(k) => {
            proof {
                assert forall|j: int|
                    0 <= j < items@.len() && (#[trigger] items@[j]).item_name@
                        == target@ implies items@[k as int].item_name@ == target@ by {
                    lemma_exact_name_is_matched(items@, target@, k as int, j);
                }
            }
            Ok(items[k].clone())
        },
    }
}

} // verus!
