//! A small map from widget names to widget identifiers.
//!
//! Entries are kept in insertion order; a later entry for a name replaces
//! the earlier ones, as inserting into a map does.

use vstd::prelude::*;
use crate::text::str_eq;

verus! {

/// The map described by a list of entries, later entries winning.
pub open spec fn map_of(entries: Seq<(Seq<char>, i32)>) -> Map<Seq<char>, i32>
    decreases entries.len(),
{
    if entries.len() == 0 {
        Map::empty()
    } else {
        map_of(entries.drop_last()).insert(entries.last().0, entries.last().1)
    }
}

/// Entries after position `i` that do not mention `k` do not change what the
/// map says about `k`.
pub proof fn lemma_map_of_prefix(s: Seq<(Seq<char>, i32)>, i: int, k: Seq<char>)
    requires
        0 <= i <= s.len(),
        forall|j: int| i <= j < s.len() ==> (#[trigger] s[j]).0 != k,
    ensures
        map_of(s).dom().contains(k) == map_of(s.take(i)).dom().contains(k),
        map_of(s).dom().contains(k) ==> map_of(s)[k] == map_of(s.take(i))[k],
    decreases s.len() - i,
{
    if i == s.len() {
        assert(s.take(i) =~= s);
    } else {
        let t = s.drop_last();
        assert(s[s.len() - 1].0 != k);
        assert forall|j: int| i <= j < t.len() implies (#[trigger] t[j]).0 != k by {
            assert(t[j] == s[j]);
        }
        lemma_map_of_prefix(t, i, k);
        assert(t.take(i) =~= s.take(i));
    }
}

/// A name mentioned by exactly one entry maps to that entry's identifier.
pub proof fn lemma_map_of_single(s: Seq<(Seq<char>, i32)>, i: int)
    requires
        0 <= i < s.len(),
        forall|j: int| 0 <= j < s.len() && j != i ==> (#[trigger] s[j]).0 != s[i].0,
    ensures
        map_of(s).dom().contains(s[i].0),
        map_of(s)[s[i].0] == s[i].1,
{
    let k = s[i].0;
    assert forall|j: int| i + 1 <= j < s.len() implies (#[trigger] s[j]).0 != k by {}
    lemma_map_of_prefix(s, i + 1, k);
    let t = s.take(i + 1);
    assert(t.last() == s[i]);
}

/// Maps widget names to widget identifiers.
pub struct WidgetDirectory {
    entries: Vec<(String, i32)>,
}

/// The entries of a directory as plain values.
pub open spec fn entry_view(e: (String, i32)) -> (Seq<char>, i32) {
    (e.0@, e.1)
}

impl WidgetDirectory {
    /// The entries, oldest first.
    pub closed spec fn entries_view(self) -> Seq<(Seq<char>, i32)> {
        self.entries@.map_values(|e: (String, i32)| entry_view(e))
    }

    /// An empty directory.
    pub fn new() -> (d: WidgetDirectory)
        ensures
            d@ == Map::<Seq<char>, i32>::empty(),
    {
        let d = WidgetDirectory { entries: Vec::new() };
        assert(d.entries_view() =~= Seq::<(Seq<char>, i32)>::empty());
        d
    }

    /// Map `name` to `id`, replacing an earlier mapping of the same name.
    pub fn insert(&mut self, name: String, id: i32)
        ensures
            final(self)@ == old(self)@.insert(name@, id),
    {
        let ghost before = self.entries_view();
        self.entries.push((name, id));
        proof {
            let after = self.entries_view();
            assert(after.drop_last() =~= before);
            assert(after.last() == (name@, id));
        }
    }

    /// The identifier mapped to `name`, if any.
    pub fn get(&self, name: &str) -> (r: Option<i32>)
        ensures
            r == (if self@.dom().contains(name@) {
                Some(self@[name@])
            } else {
                None::<i32>
            }),
    {
        let ghost s = self.entries_view();
        let mut i: usize = self.entries.len();
        while i > 0
            invariant
                s == self.entries_view(),
                s.len() == self.entries@.len(),
                0 <= i <= s.len(),
                forall|j: int| i <= j < s.len() ==> (#[trigger] s[j]).0 != name@,
            decreases i,
        {
            let entry = &self.entries[i - 1];
            if str_eq(entry.0.as_str(), name) {
                proof {
                    assert(s[i - 1] == entry_view(self.entries@[i - 1]));
                    lemma_map_of_prefix(s, i as int, name@);
                    let t = s.take(i as int);
                    assert(t.last() == s[i - 1]);
                }
                return Some(entry.1);
            }
            proof {
                assert(s[i - 1] == entry_view(self.entries@[i - 1]));
            }
            i = i - 1;
        }
        proof {
            lemma_map_of_prefix(s, 0, name@);
            assert(s.take(0) =~= Seq::<(Seq<char>, i32)>::empty());
        }
        None
    }
}

impl View for WidgetDirectory {
    type V = Map<Seq<char>, i32>;

    closed spec fn view(&self) -> Map<Seq<char>, i32> {
        map_of(self.entries_view())
    }
}

/// Reading a name right after writing it gives back the written identifier,
/// and other names keep their mapping.
pub proof fn lemma_directory_read_after_write(
    before: Map<Seq<char>, i32>,
    name: Seq<char>,
    id: i32,
    other: Seq<char>,
)
    requires
        other != name,
    ensures
        before.insert(name, id).dom().contains(name),
        before.insert(name, id)[name] == id,
        before.insert(name, id).dom().contains(other) == before.dom().contains(other),
        before.dom().contains(other) ==> before.insert(name, id)[other] == before[other],
{
}

} // verus!
