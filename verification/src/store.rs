//! The alias store: a list of entries in which no alias occurs twice.

use vstd::prelude::*;
use vstd::string::StringExecFns;
use crate::codec::{
    bincode_decoding, bincode_encoding, decode_entries, encode_entries, MAX_FILE_BYTES,
};
use crate::entries::{
    as_map, distinct, knows, lookup, lookup_is_mapping, position_is_unique, put, put_all,
    put_all_rebuilds, put_is_insert, without, without_is_remove, Entries,
};
use crate::table::{printable_rows, render_table, table_text};

verus! {

/// The store. New aliases go to the end of the list; an alias that is set
/// again keeps its place.
///
/// The entries are kept in a list and not in a hash map: vstd specifies hash
/// maps only for keys whose hashing it knows, and strings are not among
/// them. Looking an alias up is linear in the number of entries.
pub struct Store {
    entries: Vec<(String, String)>,
}

/// Why a store could not be turned into bytes.
#[derive(Clone, Copy, Debug, PartialEq, Eq)]
pub enum SaveError {
    /// The encoder reported an error.
    Encoding,
}

/// The bytes of a file that could be read; none for one that could not.
pub open spec fn contents(file: Option<Vec<u8>>) -> Seq<u8> {
    match file {
        Some(bytes) => bytes@,
        None => Seq::empty(),
    }
}

/// The entries of the store that a decoded file stands for: its pairs put in
/// one after the other; none where nothing could be decoded.
pub open spec fn loaded(decoded: Option<Entries>) -> Entries {
    match decoded {
        Some(list) => put_all(Seq::empty(), list),
        None => Seq::empty(),
    }
}

/// The rows of the listing: the heading, then one row for each entry.
pub open spec fn listing(entries: Entries) -> Seq<Seq<Seq<char>>> {
    seq![seq!["Alias"@, "Path"@]] + entries.map_values(|entry: (Seq<char>, Seq<char>)| seq![entry.0, entry.1])
}

impl View for Store {
    type V = Map<Seq<char>, Seq<char>>;

    /// The mapping from alias to path.
    open spec fn view(&self) -> Map<Seq<char>, Seq<char>> {
        as_map(self.entries())
    }
}

impl Store {
    #[verifier::type_invariant]
    spec fn no_alias_twice(self) -> bool {
        distinct(self.entries.deep_view())
    }

    /// The entries in the order in which they are listed and saved.
    pub closed spec fn entries(&self) -> Entries {
        self.entries.deep_view()
    }

    fn find(list: &Vec<(String, String)>, alias: &String) -> (found: Option<usize>)
        ensures
            match found {
                Some(i) => i < list.len() && list.deep_view()[i as int].0 == alias@,
                None => !knows(list.deep_view(), alias@),
            },
    {
        let mut i: usize = 0;
        while i < list.len()
            invariant
                i <= list.len(),
                forall|k: int| 0 <= k < i ==> (#[trigger] list.deep_view()[k]).0 != alias@,
            decreases list.len() - i,
        {
            if list[i].0 == *alias {
                return Some(i);
            }
            i = i + 1;
        }
        None
    }

    /// The store that a decoded file stands for: its pairs put in one after
    /// the other, so that of two pairs with one alias the later one counts;
    /// the empty store where nothing could be decoded.
    pub fn from_entries(decoded: Option<Vec<(String, String)>>) -> (store: Store)
        ensures
            store.entries() == loaded(
                match decoded {
                    Some(list) => Some(list.deep_view()),
                    None => None,
                },
            ),
    {
        let mut store = Store { entries: Vec::new() };
        match decoded {
            Some(list) => {
                let mut i: usize = 0;
                while i < list.len()
                    invariant
                        i <= list.len(),
                        store.entries() == put_all(Seq::empty(), list.deep_view().take(i as int)),
                    decreases list.len() - i,
                {
                    proof {
                        assert(list.deep_view().take(i + 1).drop_last() == list.deep_view().take(
                            i as int,
                        ));
                    }
                    let _ = store.add(list[i].0.clone(), list[i].1.clone());
                    i = i + 1;
                }
                proof {
                    assert(list.deep_view().take(list.len() as int) == list.deep_view());
                }
                store
            },
            None => store,
        }
    }

    /// The store that the backing file holds. `None` stands for a file that
    /// could not be read. Whatever the file holds, a store comes back: the
    /// empty one where the file is missing or cannot be decoded, and else
    /// the decoded pairs, put in one after the other.
    ///
    /// What `save` wrote is read back as it was: for bytes that are the
    /// encoding of a list of entries without repeats, as `save` gives them,
    /// and that are no more than `MAX_FILE_BYTES`, the store holds those
    /// entries in that order.
    pub fn init(file: Option<Vec<u8>>) -> (store: Store)
        ensures
            file is None ==> store.entries() == Seq::<(Seq<char>, Seq<char>)>::empty(),
            file is Some && contents(file).len() <= MAX_FILE_BYTES ==> store.entries() == loaded(
                bincode_decoding(contents(file)),
            ),
            forall|entries: Entries|
                file is Some && contents(file).len() <= MAX_FILE_BYTES && distinct(entries)
                    && #[trigger] bincode_encoding(entries) == Some(contents(file))
                    ==> store.entries() == entries,
    {
        match file {
            Some(bytes) => {
                let decoded = match decode_entries(bytes.as_slice()) {
                    Ok(found) => Some(found.0),
                    Err(_) => None,
                };
                proof {
                    assert forall|entries: Entries|
                        bytes@.len() <= MAX_FILE_BYTES && distinct(entries)
                            && #[trigger] bincode_encoding(entries) == Some(
                            bytes@,
                        ) implies decoded matches Some(list) && put_all(
                        Seq::empty(),
                        list.deep_view(),
                    ) == entries by {
                        put_all_rebuilds(entries);
                    }
                }
                Store::from_entries(decoded)
            },
            None => Store::from_entries(None),
        }
    }

    /// The bytes to write to the backing file.
    pub fn save(self) -> (written: Result<Vec<u8>, SaveError>)
        ensures
            match written {
                Ok(bytes) => distinct(self.entries()) && bincode_encoding(self.entries()) == Some(
                    bytes@,
                ),
                Err(_) => bincode_encoding(self.entries()) is None,
            },
    {
        proof {
            use_type_invariant(&self);
        }
        match encode_entries(&self.entries) {
            Ok(bytes) => Ok(bytes),
            Err(_) => Err(SaveError::Encoding),
        }
    }

    /// Lets `key` stand for `val`. Where `key` stood for a path before, the
    /// new path still replaces it, and the old one comes back as `Err`.
    pub fn add(&mut self, key: String, val: String) -> (replaced: Result<(), String>)
        ensures
            final(self).entries() == put(old(self).entries(), key@, val@),
            final(self)@ == old(self)@.insert(key@, val@),
            match replaced {
                Ok(()) => !old(self)@.contains_key(key@),
                Err(path) => old(self)@.contains_key(key@) && old(self)@[key@] == path@,
            },
    {
        proof {
            use_type_invariant(&*self);
            put_is_insert(self.entries(), key@, val@);
        }
        let mut entries = Vec::new();
        std::mem::swap(&mut entries, &mut self.entries);
        let replaced = match Store::find(&entries, &key) {
            Some(i) => {
                proof {
                    position_is_unique(entries.deep_view(), i as int);
                }
                let path = entries[i].1.clone();
                entries.set(i, (key, val));
                Err(path)
            },
            None => {
                entries.push((key, val));
                Ok(())
            },
        };
        assert(entries.deep_view() == put(old(self).entries(), key@, val@));
        self.entries = entries;
        replaced
    }

    /// The path that `key` stands for, if it stands for one.
    pub fn get(&self, key: &String) -> (path: Option<String>)
        ensures
            match path {
                Some(path) => self@.contains_key(key@) && self@[key@] == path@,
                None => !self@.contains_key(key@),
            },
    {
        proof {
            use_type_invariant(self);
        }
        match Store::find(&self.entries, key) {
            Some(i) => {
                proof {
                    position_is_unique(self.entries(), i as int);
                }
                Some(self.entries[i].1.clone())
            },
            None => None,
        }
    }

    /// Takes `alias` out of the store; `Err` where the store does not hold
    /// it, and then nothing changes.
    pub fn delete(&mut self, alias: String) -> (removed: Result<(), ()>)
        ensures
            final(self).entries() == without(old(self).entries(), alias@),
            final(self)@ == old(self)@.remove(alias@),
            removed is Ok <==> old(self)@.contains_key(alias@),
            removed is Err ==> final(self).entries() == old(self).entries(),
    {
        proof {
            use_type_invariant(&*self);
            without_is_remove(self.entries(), alias@);
        }
        let mut entries = Vec::new();
        std::mem::swap(&mut entries, &mut self.entries);
        let removed = match Store::find(&entries, &alias) {
            Some(i) => {
                proof {
                    position_is_unique(entries.deep_view(), i as int);
                }
                let _ = entries.remove(i);
                Ok(())
            },
            None => Err(()),
        };
        assert(entries.deep_view() == without(old(self).entries(), alias@));
        self.entries = entries;
        removed
    }

    /// All entries, in the order in which they are listed. No alias occurs
    /// twice among them.
    pub fn pairs(&self) -> (pairs: Vec<(String, String)>)
        ensures
            pairs.deep_view() == self.entries(),
            distinct(pairs.deep_view()),
    {
        proof {
            use_type_invariant(self);
        }
        let mut pairs: Vec<(String, String)> = Vec::new();
        let mut i: usize = 0;
        while i < self.entries.len()
            invariant
                i <= self.entries.len(),
                pairs.deep_view() == self.entries().take(i as int),
            decreases self.entries.len() - i,
        {
            let pair = (self.entries[i].0.clone(), self.entries[i].1.clone());
            proof {
                assert(self.entries().take(i + 1) == self.entries().take(i as int).push(
                    pair.deep_view(),
                ));
            }
            pairs.push(pair);
            i = i + 1;
        }
        proof {
            assert(self.entries().take(self.entries.len() as int) == self.entries());
        }
        pairs
    }

    /// All entries as a table: a heading, then one row for each entry in the
    /// order of the list, every cell made printable.
    pub fn list_all(&self) -> (text: String)
        ensures
            text@ == table_text(printable_rows(listing(self.entries()))),
    {
        let mut rows: Vec<Vec<String>> = Vec::new();
        let mut heading: Vec<String> = Vec::new();
        heading.push(String::from_str("Alias"));
        heading.push(String::from_str("Path"));
        proof {
            assert(heading.deep_view() == seq!["Alias"@, "Path"@]);
            assert(self.entries().take(0).len() == 0);
            assert(rows.deep_view().push(heading.deep_view()) == listing(self.entries().take(0)));
        }
        rows.push(heading);
        let mut i: usize = 0;
        while i < self.entries.len()
            invariant
                i <= self.entries.len(),
                rows.deep_view() == listing(self.entries().take(i as int)),
            decreases self.entries.len() - i,
        {
            let mut row: Vec<String> = Vec::new();
            row.push(self.entries[i].0.clone());
            row.push(self.entries[i].1.clone());
            proof {
                let next = listing(self.entries().take(i + 1));
                assert(row.deep_view() == next[i + 1]);
                assert(next == rows.deep_view().push(row.deep_view()));
            }
            rows.push(row);
            i = i + 1;
        }
        proof {
            assert(self.entries().take(self.entries.len() as int) == self.entries());
        }
        render_table(&rows)
    }
}

/// Of two paths given to one alias the second one counts, and giving the
/// second reports the first as the one it replaced.
pub proof fn last_add_wins(entries: Entries, alias: Seq<char>, first: Seq<char>, second: Seq<char>)
    requires
        distinct(entries),
    ensures
        lookup(put(entries, alias, first), alias) == Some(first),
        lookup(put(put(entries, alias, first), alias, second), alias) == Some(second),
        as_map(put(put(entries, alias, first), alias, second))[alias] == second,
{
    put_is_insert(entries, alias, first);
    put_is_insert(put(entries, alias, first), alias, second);
    lookup_is_mapping(put(entries, alias, first), alias);
    lookup_is_mapping(put(put(entries, alias, first), alias, second), alias);
}

/// An alias that was taken out stands for nothing; taking out an alias that
/// the list does not hold changes nothing.
pub proof fn deleted_is_gone(entries: Entries, alias: Seq<char>)
    requires
        distinct(entries),
    ensures
        lookup(without(entries, alias), alias) is None,
        !as_map(without(entries, alias)).contains_key(alias),
        !knows(entries, alias) ==> without(entries, alias) == entries,
{
    without_is_remove(entries, alias);
}

} // verus!
