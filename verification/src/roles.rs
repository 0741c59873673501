//! The role-color table a document carries for mention rendering: a mapping
//! from role names to colors in which later entries for a key override
//! earlier ones.

use vstd::prelude::*;

verus! {

/// A mapping from role names to colors. Entries are kept in insertion
/// order; a later entry for the same key overrides an earlier one.
pub struct RoleMap {
    entries: Vec<(String, String)>,
}

/// The mapping described by an entry list, reading entries first to last.
pub open spec fn entries_map(s: Seq<(String, String)>) -> Map<Seq<char>, Seq<char>>
    decreases s.len(),
{
    if s.len() == 0 {
        Map::empty()
    } else {
        entries_map(s.drop_last()).insert(s.last().0@, s.last().1@)
    }
}

impl View for RoleMap {
    type V = Map<Seq<char>, Seq<char>>;

    closed spec fn view(&self) -> Map<Seq<char>, Seq<char>> {
        entries_map(self.entries@)
    }
}

proof fn lemma_entries_map_unmatched(s: Seq<(String, String)>, k: Seq<char>, i: int)
    requires
        0 <= i <= s.len(),
        forall|j: int| i <= j < s.len() ==> (#[trigger] s[j]).0@ != k,
    ensures
        entries_map(s).contains_key(k) <==> entries_map(s.take(i)).contains_key(k),
        entries_map(s).contains_key(k) ==> entries_map(s)[k] == entries_map(s.take(i))[k],
    decreases s.len() - i,
{
    if i < s.len() {
        assert(s.last().0@ != k);
        assert(s.take(s.len() as int) =~= s);
        lemma_entries_map_unmatched(s.drop_last(), k, i);
        assert(s.drop_last().take(i) =~= s.take(i));
    } else {
        assert(s.take(i) =~= s);
    }
}

proof fn lemma_entries_map_concat(a: Seq<(String, String)>, b: Seq<(String, String)>)
    ensures
        entries_map(a + b) == entries_map(a).union_prefer_right(entries_map(b)),
    decreases b.len(),
{
    if b.len() == 0 {
        assert(a + b =~= a);
        assert(entries_map(a).union_prefer_right(Map::empty()) =~= entries_map(a));
    } else {
        lemma_entries_map_concat(a, b.drop_last());
        assert((a + b).drop_last() =~= a + b.drop_last());
        assert((a + b).last() == b.last());
        assert(entries_map(a).union_prefer_right(
            entries_map(b.drop_last()).insert(b.last().0@, b.last().1@),
        ) =~= entries_map(a).union_prefer_right(entries_map(b.drop_last())).insert(
            b.last().0@,
            b.last().1@,
        ));
    }
}

impl RoleMap {
    /// An empty table.
    pub fn new() -> (r: RoleMap)
        ensures
            r@ == Map::<Seq<char>, Seq<char>>::empty(),
    {
        RoleMap { entries: Vec::new() }
    }

    /// Adds one role-color pair, overriding any earlier entry for the name.
    pub fn insert(&mut self, name: String, color: String)
        ensures
            final(self)@ == old(self)@.insert(name@, color@),
    {
        let ghost pre = self.entries@;
        self.entries.push((name, color));
        proof {
            assert(self.entries@.drop_last() =~= pre);
        }
    }

    /// Merges another table into this one; on a shared key the other
    /// table's color wins.
    pub fn extend(&mut self, other: RoleMap)
        ensures
            final(self)@ == old(self)@.union_prefer_right(other@),
    {
        let ghost pre = self.entries@;
        let ghost oth = other.entries@;
        let mut rest = other.entries;
        let n: usize = rest.len();
        let mut i: usize = 0;
        while i < n
            invariant
                i <= n,
                n == oth.len(),
                rest@ == oth,
                self.entries@ == pre + oth.take(i as int),
            decreases n - i,
        {
            let e = &rest[i];
            let name = e.0.clone();
            let color = e.1.clone();
            self.entries.push((name, color));
            i = i + 1;
            proof {
                assert(self.entries@ =~= pre + oth.take(i as int));
            }
        }
        proof {
            assert(oth.take(n as int) =~= oth);
            lemma_entries_map_concat(pre, oth);
        }
    }

    /// Looks a role name up; the color returned is the latest one inserted
    /// for that name.
    pub fn get(&self, name: &String) -> (r: Option<&String>)
        ensures
            match r {
                Some(color) => self@.contains_key(name@) && color@ == self@[name@],
                None => !self@.contains_key(name@),
            },
    {
        let n: usize = self.entries.len();
        let mut i: usize = n;
        while i > 0
            invariant
                i <= n,
                n == self.entries@.len(),
                forall|j: int| i <= j < n ==> (#[trigger] self.entries@[j]).0@ != name@,
            decreases i,
    {
            i = i - 1;
            let e = &self.entries[i];
            if e.0 == *name {
                proof {
                    lemma_entries_map_unmatched(self.entries@, name@, i + 1);
                    assert(self.entries@.take(i + 1).drop_last() =~= self.entries@.take(i as int));
                    assert(self.entries@.take(i + 1).last() == self.entries@[i as int]);
                }
                return Some(&e.1);
            }
        }
        proof {
            lemma_entries_map_unmatched(self.entries@, name@, 0);
            assert(self.entries@.take(0) =~= Seq::<(String, String)>::empty());
        }
        None
    }
}

} // verus!
