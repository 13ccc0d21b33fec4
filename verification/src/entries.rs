//! Lists of entries as mathematics: finding an alias, putting one in, taking
//! one out, and the mapping that a list stands for.

use vstd::prelude::*;

verus! {

/// A list of entries: alias first, path second.
pub type Entries = Seq<(Seq<char>, Seq<char>)>;

/// Whether some entry has `alias`.
pub open spec fn knows(entries: Entries, alias: Seq<char>) -> bool {
    exists|i: int| 0 <= i < entries.len() && (#[trigger] entries[i]).0 == alias
}

/// The place of an entry that has `alias`, where there is one.
pub open spec fn position(entries: Entries, alias: Seq<char>) -> int {
    choose|i: int| 0 <= i < entries.len() && (#[trigger] entries[i]).0 == alias
}

/// No alias occurs twice.
pub open spec fn distinct(entries: Entries) -> bool {
    forall|i: int, j: int|
        0 <= i < j < entries.len() ==> (#[trigger] entries[i]).0 != (#[trigger] entries[j]).0
}

/// The path that `alias` stands for, if it stands for one.
pub open spec fn lookup(entries: Entries, alias: Seq<char>) -> Option<Seq<char>> {
    if knows(entries, alias) {
        Some(entries[position(entries, alias)].1)
    } else {
        None
    }
}

/// `entries` with `alias` standing for `path`: the entry that has the alias
/// is rewritten in place; where there is none, a new one goes to the end.
pub open spec fn put(entries: Entries, alias: Seq<char>, path: Seq<char>) -> Entries {
    if knows(entries, alias) {
        entries.update(position(entries, alias), (alias, path))
    } else {
        entries.push((alias, path))
    }
}

/// `entries` without the entry that has `alias`; the others keep their order.
pub open spec fn without(entries: Entries, alias: Seq<char>) -> Entries {
    if knows(entries, alias) {
        entries.remove(position(entries, alias))
    } else {
        entries
    }
}

/// `entries` after each of `more` was put in, first to last.
pub open spec fn put_all(entries: Entries, more: Entries) -> Entries
    decreases more.len(),
{
    if more.len() == 0 {
        entries
    } else {
        put(put_all(entries, more.drop_last()), more.last().0, more.last().1)
    }
}

/// The mapping from alias to path that `entries` stands for.
pub open spec fn as_map(entries: Entries) -> Map<Seq<char>, Seq<char>> {
    Map::new(|alias: Seq<char>| knows(entries, alias), |alias: Seq<char>| entries[position(entries, alias)].1)
}

/// In a list without repeats the place of an alias is the one place where it
/// stands.
pub proof fn position_is_unique(entries: Entries, i: int)
    requires
        distinct(entries),
        0 <= i < entries.len(),
    ensures
        knows(entries, entries[i].0),
        position(entries, entries[i].0) == i,
{
    let p = position(entries, entries[i].0);
    assert(0 <= p < entries.len() && entries[p].0 == entries[i].0);
}

/// Putting an entry in keeps the list free of repeats and sets the alias in
/// the mapping, as inserting into the mapping does.
pub proof fn put_is_insert(entries: Entries, alias: Seq<char>, path: Seq<char>)
    requires
        distinct(entries),
    ensures
        distinct(put(entries, alias, path)),
        as_map(put(entries, alias, path)) == as_map(entries).insert(alias, path),
{
    let after = put(entries, alias, path);
    let at = if knows(entries, alias) { position(entries, alias) } else { entries.len() as int };
    assert(after[at] == (alias, path));
    assert forall|i: int| 0 <= i < after.len() && i != at implies #[trigger] after[i]
        == entries[i] && after[i].0 != alias by {
        if knows(entries, alias) {
            position_is_unique(entries, at);
        }
    }
    assert(distinct(after)) by {
        assert forall|i: int, j: int| 0 <= i < j < after.len() implies (#[trigger] after[i]).0
            != (#[trigger] after[j]).0 by {
            if i != at && j != at {
                assert(entries[i].0 != entries[j].0);
            }
        }
    }
    assert forall|a: Seq<char>| knows(after, a) <==> (a == alias || knows(entries, a)) by {
        if knows(after, a) {
            let i = position(after, a);
            if i != at {
                assert(entries[i].0 == a);
            }
        }
        if knows(entries, a) && a != alias {
            let i = position(entries, a);
            assert(after[i].0 == a);
        }
    }
    assert forall|a: Seq<char>| knows(after, a) implies #[trigger] as_map(after)[a] == as_map(
        entries,
    ).insert(alias, path)[a] by {
        let i = position(after, a);
        position_is_unique(after, i);
        if i != at {
            position_is_unique(entries, i);
        }
    }
    assert(as_map(after) =~= as_map(entries).insert(alias, path));
}

/// Taking an alias out keeps the list free of repeats and removes the alias
/// from the mapping.
pub proof fn without_is_remove(entries: Entries, alias: Seq<char>)
    requires
        distinct(entries),
    ensures
        distinct(without(entries, alias)),
        !knows(without(entries, alias), alias),
        as_map(without(entries, alias)) == as_map(entries).remove(alias),
{
    let after = without(entries, alias);
    if knows(entries, alias) {
        let at = position(entries, alias);
        position_is_unique(entries, at);
        assert forall|i: int| 0 <= i < after.len() implies #[trigger] after[i] == entries[if i
            < at {
            i
        } else {
            i + 1
        }] && after[i].0 != alias by {
            let k = if i < at { i } else { i + 1 };
            if entries[k].0 == alias {
                position_is_unique(entries, k);
            }
        }
        assert(distinct(after)) by {
            assert forall|i: int, j: int| 0 <= i < j < after.len() implies (#[trigger] after[i]).0
                != (#[trigger] after[j]).0 by {
                let ki = if i < at { i } else { i + 1 };
                let kj = if j < at { j } else { j + 1 };
                assert(entries[ki].0 != entries[kj].0);
            }
        }
        assert forall|a: Seq<char>| knows(after, a) <==> (a != alias && knows(entries, a)) by {
            if knows(after, a) {
                let i = position(after, a);
                let k = if i < at { i } else { i + 1 };
                assert(entries[k].0 == a);
            }
            if knows(entries, a) && a != alias {
                let k = position(entries, a);
                let i = if k < at { k } else { k - 1 };
                assert(after[i].0 == a);
            }
        }
        assert forall|a: Seq<char>| knows(after, a) implies #[trigger] as_map(after)[a] == as_map(
            entries,
        )[a] by {
            let i = position(after, a);
            let k = if i < at { i } else { i + 1 };
            position_is_unique(entries, k);
        }
        assert(as_map(after) =~= as_map(entries).remove(alias));
    } else {
        assert(as_map(after) =~= as_map(entries).remove(alias));
    }
}

/// What a mapping says of an alias is what looking it up in the list gives.
pub proof fn lookup_is_mapping(entries: Entries, alias: Seq<char>)
    ensures
        as_map(entries).contains_key(alias) <==> lookup(entries, alias) is Some,
        lookup(entries, alias) matches Some(path) ==> as_map(entries)[alias] == path,
{
}

/// Putting the entries of a list without repeats into an empty list, first
/// to last, gives that list again.
pub proof fn put_all_rebuilds(more: Entries)
    requires
        distinct(more),
    ensures
        put_all(Seq::empty(), more) == more,
    decreases more.len(),
{
    if more.len() > 0 {
        let front = more.drop_last();
        assert(distinct(front)) by {
            assert forall|i: int, j: int| 0 <= i < j < front.len() implies (#[trigger] front[i]).0
                != (#[trigger] front[j]).0 by {
                assert(more[i].0 != more[j].0);
            }
        }
        put_all_rebuilds(front);
        assert(!knows(front, more.last().0)) by {
            if knows(front, more.last().0) {
                let i = position(front, more.last().0);
                assert(more[i].0 == more[more.len() - 1].0);
            }
        }
        assert(front.push(more.last()) == more);
    }
}

} // verus!
