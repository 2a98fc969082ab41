//! What is kept between runs, and the rules by which a loaded catalog is
//! made ready for matching.

use crate::matcher::CatalogItem;
use vstd::prelude::*;

verus! {

/// Seconds after which a stored catalog is fetched anew: one day.
pub const ITEMS_CACHE_EXPIRY_S: u64 = 24 * 60 * 60;

/// The stored configuration: the market token, the catalog, and the time
/// in seconds at which the catalog was fetched.
#[derive(Clone, Debug, PartialEq, Eq)]
pub struct Config {
    pub jwt_token: String,
    pub items_timestamp: u64,
    pub items: Vec<CatalogItem>,
}

impl Config {
    /// Whether more than a day lies between the catalog's time and `now`.
    pub fn is_stale(&self, now: u64) -> (res: bool)
        ensures
            res == (now - self.items_timestamp > ITEMS_CACHE_EXPIRY_S),
    {
        now > self.items_timestamp && now - self.items_timestamp > ITEMS_CACHE_EXPIRY_S
    }
}

/// `needle` stands somewhere in `hay` as a run of consecutive characters.
pub open spec fn occurs_in(hay: Seq<char>, needle: Seq<char>) -> bool {
    exists|i: int|
        0 <= i && i + needle.len() <= hay.len() && #[trigger] hay.subrange(i, i + needle.len())
            == needle
}

/// The name is that of a warframe part, which the reward screen shows with
/// the word "blueprint" after it.
pub open spec fn names_a_part(name: Seq<char>) -> bool {
    occurs_in(name, "Neuroptics"@) || occurs_in(name, "Systems"@) || occurs_in(name, "Chassis"@)
}

/// The display name as the reward screen shows it.
pub open spec fn shown_name(name: Seq<char>) -> Seq<char> {
    if names_a_part(name) {
        name + " blueprint"@
    } else {
        name
    }
}

/// Calls `str::contains` with a string pattern. The contract claims what
/// its documentation says: the answer is whether the pattern matches a
/// sub-slice of the string.
#[verifier::external_body]
fn has_substring(hay: &str, needle: &str) -> (res: bool)
    ensures
        res == occurs_in(hay@, needle@),
{
    hay.contains(needle)
}

/// Calls `String::push_str`. The contract claims what its documentation
/// says: the slice is appended onto the end of the string.
#[verifier::external_body]
fn append(name: &mut String, suffix: &str)
    ensures
        final(name)@ == old(name)@ + suffix@,
{
    name.push_str(suffix)
}

/// Whether a display name is that of a warframe part.
pub fn is_part_name(name: &str) -> (res: bool)
    ensures
        res == names_a_part(name@),
{
    let neuroptics: bool = has_substring(name, "Neuroptics");
    let systems: bool = has_substring(name, "Systems");
    let chassis: bool = has_substring(name, "Chassis");
    neuroptics || systems || chassis
}

/// Gives every warframe part in the catalog the display name that the
/// reward screen shows. Nothing else of an entry changes, and no entry is
/// added, dropped or moved.
pub fn fix_items(items: &mut Vec<CatalogItem>)
    ensures
        final(items)@.len() == old(items)@.len(),
        forall|k: int|
            0 <= k < old(items)@.len() ==> {
                let before = old(items)@[k];
                let after = #[trigger] final(items)@[k];
                &&& after.item_name@ == shown_name(before.item_name@)
                &&& after.id == before.id
                &&& after.url_name == before.url_name
                &&& after.thumb == before.thumb
            },
{
    let mut out: Vec<CatalogItem> = Vec::with_capacity(items.len());
    let mut i: usize = 0;
    while i < items.len()
        invariant
            *items == *old(items),
            i <= items.len(),
            out@.len() == i,
            forall|k: int|
                0 <= k < i ==> {
                    let before = items@[k];
                    let after = #[trigger] out@[k];
                    &&& after.item_name@ == shown_name(before.item_name@)
                    &&& after.id == before.id
                    &&& after.url_name == before.url_name
                    &&& after.thumb == before.thumb
                },
        decreases items.len() - i,
    {
        let mut entry: CatalogItem = items[i].clone();
        if is_part_name(entry.item_name.as_str()) {
            append(&mut entry.item_name, " blueprint");
        }
        out.push(entry);
        i += 1;
    }
    *items = out;
}

/// The entry that stands for a Forma blueprint, which the market does not
/// list: a display name and nothing else.
pub fn sentinel() -> (res: CatalogItem)
    ensures
        res.item_name@ == "Forma Blueprint"@,
        res.id@.len() == 0,
        res.url_name@.len() == 0,
        res.thumb@.len() == 0,
{
    CatalogItem {
        url_name: String::new(),
        thumb: String::new(),
        id: String::new(),
        item_name: "Forma Blueprint".to_owned(),
    }
}

/// Appends the Forma entry to a loaded configuration's catalog.
pub fn add_sentinel(config: &mut Config)
    ensures
        final(config).jwt_token == old(config).jwt_token,
        final(config).items_timestamp == old(config).items_timestamp,
        final(config).items@.len() == old(config).items@.len() + 1,
        final(config).items@.drop_last() == old(config).items@,
        final(config).items@.last().item_name@ == "Forma Blueprint"@,
        final(config).items@.last().id@.len() == 0,
        final(config).items@.last().url_name@.len() == 0,
        final(config).items@.last().thumb@.len() == 0,
{
    config.items.push(sentinel());
    assert(config.items@.drop_last() =~= old(config).items@);
}

} // verus!
