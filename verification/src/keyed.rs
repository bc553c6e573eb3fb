//! Tables keyed by a name: a list of entries in which no name occurs twice,
//! kept in the order in which the names were first entered.

use crate::text::same_text;
use vstd::prelude::*;

verus! {

/// The place of the entry named `key`, or the table's length where there is
/// none.
pub open spec fn key_position<V>(entries: Seq<(String, V)>, key: Seq<char>) -> int
    decreases entries.len(),
{
    if entries.len() == 0 {
        0
    } else if entries[0].0@ == key {
        0
    } else {
        1 + key_position(entries.drop_first(), key)
    }
}

/// Whether the table has an entry named `key`.
pub open spec fn has_key<V>(entries: Seq<(String, V)>, key: Seq<char>) -> bool {
    key_position(entries, key) < entries.len()
}

/// The value entered under `key`.
pub open spec fn value_of<V>(entries: Seq<(String, V)>, key: Seq<char>) -> Option<V> {
    if has_key(entries, key) {
        Some(entries[key_position(entries, key)].1)
    } else {
        None
    }
}

/// The names of the entries, in order.
pub open spec fn keys_of<V>(entries: Seq<(String, V)>) -> Seq<Seq<char>> {
    Seq::new(entries.len(), |i: int| entries[i].0@)
}

/// No name has two entries.
pub open spec fn distinct_keys<V>(entries: Seq<(String, V)>) -> bool {
    forall|i: int, j: int|
        0 <= i < entries.len() && 0 <= j < entries.len() && i != j ==> entries[i].0@
            != entries[j].0@
}

/// The table after `value` is entered under `key`: in the place of the
/// entry that `key` had, else as a new last entry.
pub open spec fn with_entry<V>(entries: Seq<(String, V)>, key: String, value: V) -> Seq<
    (String, V),
> {
    if has_key(entries, key@) {
        entries.update(key_position(entries, key@), (key, value))
    } else {
        entries.push((key, value))
    }
}

/// The table without the entry named `key`.
pub open spec fn without_entry<V>(entries: Seq<(String, V)>, key: Seq<char>) -> Seq<(String, V)> {
    if has_key(entries, key) {
        entries.remove(key_position(entries, key))
    } else {
        entries
    }
}

/// `key_position` is the first place whose entry has the name.
pub proof fn lemma_key_position<V>(entries: Seq<(String, V)>, key: Seq<char>)
    ensures
        0 <= key_position(entries, key) <= entries.len(),
        forall|k: int| 0 <= k < key_position(entries, key) ==> entries[k].0@ != key,
        has_key(entries, key) ==> entries[key_position(entries, key)].0@ == key,
    decreases entries.len(),
{
    if entries.len() > 0 && entries[0].0@ != key {
        let rest = entries.drop_first();
        lemma_key_position(rest, key);
        assert forall|k: int| 0 <= k < key_position(entries, key) implies entries[k].0@
            != key by {
            if k > 0 {
                assert(entries[k] == rest[k - 1]);
            }
        }
    }
}

/// A place that holds the name, with no earlier place holding it, is its
/// position.
pub proof fn lemma_key_position_at<V>(entries: Seq<(String, V)>, key: Seq<char>, i: int)
    requires
        0 <= i <= entries.len(),
        forall|k: int| 0 <= k < i ==> entries[k].0@ != key,
        i < entries.len() ==> entries[i].0@ == key,
    ensures
        key_position(entries, key) == i,
{
    lemma_key_position(entries, key);
    let p = key_position(entries, key);
    if p < i {
        assert(entries[p].0@ != key);
    }
}

/// Entering a value keeps the names distinct, and the name then has that
/// value.
pub proof fn lemma_with_entry<V>(entries: Seq<(String, V)>, key: String, value: V)
    requires
        distinct_keys(entries),
    ensures
        distinct_keys(with_entry(entries, key, value)),
        value_of(with_entry(entries, key, value), key@) == Some(value),
{
    lemma_key_position(entries, key@);
    let after = with_entry(entries, key, value);
    let p = key_position(entries, key@);
    assert forall|k: int| 0 <= k < p implies after[k].0@ != key@ by {
        assert(after[k] == entries[k]);
    }
    lemma_key_position_at(after, key@, p);
}

/// Removing an entry keeps the names distinct, and the name is then absent.
pub proof fn lemma_without_entry<V>(entries: Seq<(String, V)>, key: Seq<char>)
    requires
        distinct_keys(entries),
    ensures
        distinct_keys(without_entry(entries, key)),
        !has_key(without_entry(entries, key), key),
{
    lemma_key_position(entries, key);
    let after = without_entry(entries, key);
    let p = key_position(entries, key);
    if has_key(entries, key) {
        assert forall|i: int, j: int|
            0 <= i < after.len() && 0 <= j < after.len() && i != j implies after[i].0@
            != after[j].0@ by {
            let oi = if i < p { i } else { i + 1 };
            let oj = if j < p { j } else { j + 1 };
            assert(after[i] == entries[oi]);
            assert(after[j] == entries[oj]);
        }
    }
    assert forall|k: int| 0 <= k < after.len() implies after[k].0@ != key by {
        if has_key(entries, key) {
            let ok = if k < p { k } else { k + 1 };
            assert(after[k] == entries[ok]);
        }
    }
    lemma_key_position_at(after, key, after.len() as int);
}

/// A name other than the one entered keeps its value, or its absence.
pub proof fn lemma_with_entry_other<V>(
    entries: Seq<(String, V)>,
    key: String,
    value: V,
    other: Seq<char>,
)
    requires
        other != key@,
    ensures
        has_key(with_entry(entries, key, value), other) == has_key(entries, other),
        value_of(with_entry(entries, key, value), other) == value_of(entries, other),
{
    lemma_key_position(entries, key@);
    lemma_key_position(entries, other);
    let after = with_entry(entries, key, value);
    let q = key_position(entries, other);
    if q < entries.len() {
        assert forall|k: int| 0 <= k < q implies after[k].0@ != other by {
            if k != key_position(entries, key@) {
                assert(after[k] == entries[k]);
            }
        }
        assert(after[q] == entries[q]);
        lemma_key_position_at(after, other, q);
    } else {
        assert forall|k: int| 0 <= k < after.len() implies after[k].0@ != other by {
            if k < entries.len() && k != key_position(entries, key@) {
                assert(after[k] == entries[k]);
            }
        }
        lemma_key_position_at(after, other, after.len() as int);
    }
}

/// A table has a name exactly where the name is among its names.
pub proof fn lemma_has_key_contains<V>(entries: Seq<(String, V)>, key: Seq<char>)
    ensures
        has_key(entries, key) == keys_of(entries).contains(key),
{
    lemma_key_position(entries, key);
    let names = keys_of(entries);
    if has_key(entries, key) {
        assert(names[key_position(entries, key)] == key);
    } else {
        assert forall|i: int| 0 <= i < names.len() implies names[i] != key by {
            assert(names[i] == entries[i].0@);
        }
    }
}

/// Entering a value under a new name adds the name as the last; under a
/// name that is there it leaves the names as they are.
pub proof fn lemma_with_entry_keys<V>(entries: Seq<(String, V)>, key: String, value: V)
    ensures
        keys_of(with_entry(entries, key, value)) == if keys_of(entries).contains(key@) {
            keys_of(entries)
        } else {
            keys_of(entries).push(key@)
        },
{
    lemma_has_key_contains(entries, key@);
    lemma_key_position(entries, key@);
    let after = with_entry(entries, key, value);
    if has_key(entries, key@) {
        assert(keys_of(after) =~= keys_of(entries));
    } else {
        assert(keys_of(after) =~= keys_of(entries).push(key@));
    }
}

/// The table as a map from names to the views of the values.
pub open spec fn viewed_map<V: View>(entries: Seq<(String, V)>) -> Map<Seq<char>, V::V> {
    Map::new(
        |key: Seq<char>| has_key(entries, key),
        |key: Seq<char>| entries[key_position(entries, key)].1@,
    )
}

/// Entering a value is an insertion of its view into the map of views.
pub proof fn lemma_with_entry_viewed<V: View>(entries: Seq<(String, V)>, key: String, value: V)
    ensures
        viewed_map(with_entry(entries, key, value)) == viewed_map(entries).insert(key@, value@),
{
    let after = with_entry(entries, key, value);
    lemma_key_position(entries, key@);
    let p = key_position(entries, key@);
    assert forall|k: int| 0 <= k < p implies after[k].0@ != key@ by {
        assert(after[k] == entries[k]);
    }
    lemma_key_position_at(after, key@, p);
    assert forall|other: Seq<char>| other != key@ implies has_key(after, other) == has_key(
        entries,
        other,
    ) && value_of(after, other) == value_of(entries, other) by {
        lemma_with_entry_other(entries, key, value, other);
    }
    assert(viewed_map(after) =~= viewed_map(entries).insert(key@, value@));
}

/// Where the entry named `key` stands.
pub fn find_key<V>(entries: &Vec<(String, V)>, key: &str) -> (i: usize)
    ensures
        i == key_position(entries@, key@),
        i <= entries.len(),
{
    let mut i: usize = 0;
    while i < entries.len()
        invariant
            i <= entries.len(),
            forall|k: int| 0 <= k < i ==> entries[k].0@ != key@,
        decreases entries.len() - i,
    {
        if same_text(entries[i].0.as_str(), key) {
            proof {
                lemma_key_position_at(entries@, key@, i as int);
            }
            return i;
        }
        i += 1;
    }
    proof {
        lemma_key_position_at(entries@, key@, i as int);
    }
    i
}

/// The value entered under `key`.
pub fn get_key<'a, V>(entries: &'a Vec<(String, V)>, key: &str) -> (r: Option<&'a V>)
    ensures
        match r {
            Some(v) => value_of(entries@, key@) == Some(*v),
            None => !has_key(entries@, key@),
        },
{
    let i = find_key(entries, key);
    if i < entries.len() {
        Some(&entries[i].1)
    } else {
        None
    }
}

/// Enters `value` under `key` and hands back the value that `key` had.
pub fn put_key<V>(entries: &mut Vec<(String, V)>, key: String, value: V) -> (earlier: Option<V>)
    requires
        distinct_keys(old(entries)@),
    ensures
        distinct_keys(final(entries)@),
        final(entries)@ == with_entry(old(entries)@, key, value),
        earlier == value_of(old(entries)@, key@),
        value_of(final(entries)@, key@) == Some(value),
{
    let i = find_key(entries, key.as_str());
    proof {
        lemma_with_entry(entries@, key, value);
    }
    if i < entries.len() {
        let (_, earlier) = entries.remove(i);
        entries.insert(i, (key, value));
        assert(entries@ =~= with_entry(old(entries)@, key, value));
        Some(earlier)
    } else {
        entries.push((key, value));
        None
    }
}

/// Takes the entry named `key` out and hands its value over.
pub fn take_key<V>(entries: &mut Vec<(String, V)>, key: &str) -> (taken: Option<V>)
    requires
        distinct_keys(old(entries)@),
    ensures
        distinct_keys(final(entries)@),
        final(entries)@ == without_entry(old(entries)@, key@),
        taken == value_of(old(entries)@, key@),
        !has_key(final(entries)@, key@),
{
    let i = find_key(entries, key);
    proof {
        lemma_without_entry(entries@, key@);
    }
    if i < entries.len() {
        let (_, taken) = entries.remove(i);
        Some(taken)
    } else {
        None
    }
}

/// The names of the entries, in order.
pub fn key_list<V>(entries: &Vec<(String, V)>) -> (names: Vec<String>)
    ensures
        names@.len() == entries@.len(),
        forall|i: int| 0 <= i < names@.len() ==> names@[i]@ == entries@[i].0@,
{
    let mut names: Vec<String> = Vec::new();
    let mut i: usize = 0;
    while i < entries.len()
        invariant
            i <= entries.len(),
            names@.len() == i,
            forall|k: int| 0 <= k < i ==> names@[k]@ == entries@[k].0@,
        decreases entries.len() - i,
    {
        names.push(entries[i].0.clone());
        i += 1;
    }
    names
}

} // verus!
