//! Choosing, from a page of a listing, the keys that a download fetches.

use crate::key::{is_archive, is_archive_key};
use vstd::prelude::*;

verus! {

/// What a download makes of one entry of a listing: the key, where the entry
/// has one and it names a payload of this codec.
pub open spec fn archive_key_of(entry: Option<Seq<char>>) -> Option<Seq<char>> {
    match entry {
        Some(key) => if is_archive_key(key) {
            Some(key)
        } else {
            None
        },
        None => None,
    }
}

/// The keys of a page that a download fetches, in the order of the listing.
pub open spec fn archive_keys(listed: Seq<Option<Seq<char>>>) -> Seq<Seq<char>> {
    listed.filter_map(|entry: Option<Seq<char>>| archive_key_of(entry))
}

/// Taking one more entry of the listing adds its key exactly where the
/// entry names a payload.
pub proof fn lemma_archive_keys_step(listed: Seq<Option<Seq<char>>>, i: int)
    requires
        0 <= i < listed.len(),
    ensures
        archive_keys(listed.take(i + 1)) == archive_keys(listed.take(i)) + (match archive_key_of(
            listed[i],
        ) {
            Some(key) => seq![key],
            None => Seq::empty(),
        }),
{
    listed.lemma_filter_map_take_succ(|entry: Option<Seq<char>>| archive_key_of(entry), i);
}

/// Picks the keys that a download fetches out of one page of a listing.
/// Entries without a key and keys that do not end as this codec's payloads
/// do are passed over; the others keep their order.
pub fn select_archive_keys(listed: &Vec<Option<String>>) -> (selected: Vec<String>)
    ensures
        selected.deep_view() == archive_keys(listed.deep_view()),
{
    let mut selected: Vec<String> = Vec::new();
    let mut i: usize = 0;
    assert(selected.deep_view() =~= archive_keys(listed.deep_view().take(0)));
    while i < listed.len()
        invariant
            i <= listed.len(),
            selected.deep_view() == archive_keys(listed.deep_view().take(i as int)),
        decreases listed.len() - i,
    {
        let ghost before = selected.deep_view();
        match &listed[i] {
            Some(key) => {
                if is_archive(key.as_str()) {
                    selected.push(key.clone());
                    assert(selected.deep_view() =~= before + seq![key@]);
                }
            },
            None => {},
        }
        proof {
            lemma_archive_keys_step(listed.deep_view(), i as int);
        }
        i += 1;
    }
    assert(listed.deep_view().take(i as int) =~= listed.deep_view());
    selected
}

/// Selection is exact: a key is fetched if and only if the listing holds it
/// and it names a payload of this codec.
pub proof fn lemma_archive_keys_exact(listed: Seq<Option<Seq<char>>>, key: Seq<char>)
    ensures
        archive_keys(listed).contains(key) <==> listed.contains(Some(key)) && is_archive_key(key),
    decreases listed.len(),
{
    let choice = |entry: Option<Seq<char>>| archive_key_of(entry);
    if listed.len() > 0 {
        let rest = listed.drop_last();
        lemma_archive_keys_exact(rest, key);
        assert(archive_keys(rest) == rest.filter_map(choice));
        let tail: Seq<Seq<char>> = match archive_key_of(listed.last()) {
            Some(k) => seq![k],
            None => Seq::empty(),
        };
        assert(archive_keys(listed) == archive_keys(rest) + tail);
        if archive_keys(listed).contains(key) {
            let j = choose|j: int| 0 <= j < archive_keys(listed).len() && archive_keys(listed)[j] == key;
            if j < archive_keys(rest).len() {
                assert(archive_keys(rest)[j] == key);
                assert(archive_keys(rest).contains(key));
                let k = choose|k: int| 0 <= k < rest.len() && rest[k] == Some(key);
                assert(listed[k] == Some(key));
            } else {
                assert(tail[j - archive_keys(rest).len()] == key);
                assert(listed[listed.len() - 1] == Some(key));
            }
        }
        if listed.contains(Some(key)) && is_archive_key(key) {
            let k = choose|k: int| 0 <= k < listed.len() && listed[k] == Some(key);
            if k < rest.len() {
                assert(rest[k] == Some(key));
                assert(rest.contains(Some(key)));
                let j = choose|j: int| 0 <= j < archive_keys(rest).len() && archive_keys(rest)[j] == key;
                assert(archive_keys(listed)[j] == key);
            } else {
                assert(tail == seq![key]);
                assert(archive_keys(listed)[archive_keys(rest).len() as int] == key);
            }
        }
    }
}

} // verus!
