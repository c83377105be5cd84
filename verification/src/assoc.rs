//! A small map from string keys to values, backed by an association list.
//! It carries the key-to-value views that the input state and the sprite
//! sheet state in this crate are specified over.

use vstd::prelude::*;

verus! {

/// The mathematical contents of an association list: a later binding for a
/// key shadows an earlier one.
pub open spec fn assoc_view<V>(entries: Seq<(String, V)>) -> Map<Seq<char>, V>
    decreases entries.len(),
{
    if entries.len() == 0 {
        Map::empty()
    } else {
        assoc_view(entries.drop_last()).insert(entries.last().0@, entries.last().1)
    }
}

/// A map from string keys to values. Inserting binds a key to a value,
/// shadowing any earlier binding; removing drops every binding of the key.
pub struct StringMap<V> {
    entries: Vec<(String, V)>,
}

impl<V> View for StringMap<V> {
    type V = Map<Seq<char>, V>;

    closed spec fn view(&self) -> Map<Seq<char>, V> {
        assoc_view(self.entries@)
    }
}

impl<V> StringMap<V> {
    /// The empty map.
    pub fn new() -> (r: StringMap<V>)
        ensures
            r@ == Map::<Seq<char>, V>::empty(),
    {
        StringMap { entries: Vec::new() }
    }

    /// Drop every binding of `key`.
    pub fn remove(&mut self, key: &str)
        ensures
            final(self)@ == old(self)@.remove(key@),
    {
        let needle: String = key.to_owned();
        let ghost all: Seq<(String, V)> = self.entries@;
        let mut rest: Vec<(String, V)> = Vec::new();
        std::mem::swap(&mut rest, &mut self.entries);
        let mut kept: Vec<(String, V)> = Vec::new();
        let mut i: usize = 0;
        let n: usize = rest.len();
        while i < n
            invariant
                i <= n,
                n == all.len(),
                rest@ == all.skip(i as int),
                needle@ == key@,
                assoc_view(kept@) == assoc_view(all.take(i as int)).remove(key@),
            decreases n - i,
        {
            let ghost prefix = all.take(i as int);
            let ghost kept_before = kept@;
            let entry: (String, V) = rest.remove(0);
            let ghost moved = entry;
            proof {
                assert(all.skip(i as int)[0] == all[i as int]);
                assert(all.skip(i as int).remove(0) =~= all.skip(i + 1));
            }
            let hit: bool = entry.0 == needle;
            if !hit {
                kept.push(entry);
            }
            proof {
                assert(all.take(i + 1).drop_last() =~= prefix);
                assert(all.take(i + 1).last() == all[i as int]);
                if hit {
                    assert(assoc_view(all.take(i + 1)).remove(key@) =~= assoc_view(
                        prefix,
                    ).remove(key@));
                } else {
                    assert(kept@ == kept_before.push(moved));
                    assert(kept@.drop_last() =~= kept_before);
                    assert(assoc_view(kept@) == assoc_view(prefix).remove(key@).insert(
                        moved.0@,
                        moved.1,
                    ));
                    assert(assoc_view(all.take(i + 1)).remove(key@) =~= assoc_view(
                        prefix,
                    ).remove(key@).insert(moved.0@, moved.1));
                }
            }
            i = i + 1;
        }
        proof {
            assert(all.take(n as int) =~= all);
        }
        self.entries = kept;
    }

    /// Bind `key` to `value`, shadowing any earlier binding.
    pub fn insert(&mut self, key: String, value: V)
        ensures
            final(self)@ == old(self)@.insert(key@, value),
    {
        self.remove(key.as_str());
        let ghost removed = self.entries@;
        self.entries.push((key, value));
        proof {
            assert(self.entries@.drop_last() =~= removed);
            assert(assoc_view(self.entries@) =~= old(self)@.insert(key@, value));
        }
    }

    /// Look the binding of `key` up.
    pub fn get(&self, key: &str) -> (r: Option<&V>)
        ensures
            match r {
                Some(v) => self@.contains_key(key@) && *v == self@[key@],
                None => !self@.contains_key(key@),
            },
    {
        let needle: String = key.to_owned();
        let ghost all: Seq<(String, V)> = self.entries@;
        let mut i: usize = self.entries.len();
        proof {
            assert(all.take(i as int) =~= all);
        }
        while i > 0
            invariant
                i <= all.len(),
                all == self.entries@,
                needle@ == key@,
                self@.contains_key(key@) == assoc_view(all.take(i as int)).contains_key(key@),
                assoc_view(all.take(i as int)).contains_key(key@) ==> self@[key@] == assoc_view(
                    all.take(i as int),
                )[key@],
            decreases i,
        {
            i = i - 1;
            let ghost prefix = all.take(i as int);
            proof {
                assert(all.take(i + 1).drop_last() =~= prefix);
                assert(all.take(i + 1).last() == all[i as int]);
            }
            if self.entries[i].0 == needle {
                return Some(&self.entries[i].1);
            }
        }
        proof {
            assert(all.take(0) =~= Seq::<(String, V)>::empty());
        }
        None
    }
}

} // verus!
