//! The policy table: a finite mapping from a path, held as bytes, to the
//! action taken when the tracee opens that path. A later entry for the same
//! path overrides an earlier one, as repeated command-line rules do.

use vstd::prelude::*;

use crate::types::Action;
use crate::types::ActionModel;

verus! {

/// The mapping that a sequence of (path, action) entries builds up, later
/// entries overriding earlier ones.
pub open spec fn entries_map(s: Seq<(Seq<u8>, ActionModel)>) -> Map<Seq<u8>, ActionModel>
    decreases s.len(),
{
    if s.len() == 0 {
        Map::empty()
    } else {
        entries_map(s.drop_last()).insert(s.last().0, s.last().1)
    }
}

/// The entries of a vector of (path, action) rules, as contracts see them.
pub open spec fn rules_view(rules: Seq<(Vec<u8>, Action)>) -> Seq<(Seq<u8>, ActionModel)> {
    rules.map_values(|e: (Vec<u8>, Action)| (e.0@, e.1@))
}

/// The map view of a vector of (path, action) rules.
pub open spec fn rules_map(rules: Seq<(Vec<u8>, Action)>) -> Map<Seq<u8>, ActionModel> {
    entries_map(rules_view(rules))
}

/// The rule for `path`, or nothing when the path is unrestricted.
pub open spec fn spec_lookup(m: Map<Seq<u8>, ActionModel>, path: Seq<u8>) -> Option<ActionModel> {
    if m.contains_key(path) {
        Some(m[path])
    } else {
        None
    }
}

/// A read-only table of per-path rules, looked up once per trapped open.
pub struct Policy {
    entries: Vec<(Vec<u8>, Action)>,
}

impl View for Policy {
    type V = Map<Seq<u8>, ActionModel>;

    closed spec fn view(&self) -> Map<Seq<u8>, ActionModel> {
        rules_map(self.entries@)
    }
}

/// If no entry at position `i` or later carries `key`, the built map treats
/// `key` as the first `i` entries alone do.
proof fn lemma_absent_suffix(s: Seq<(Seq<u8>, ActionModel)>, i: int, key: Seq<u8>)
    requires
        0 <= i <= s.len(),
        forall|j: int| i <= j < s.len() ==> (#[trigger] s[j]).0 != key,
    ensures
        entries_map(s).contains_key(key) == entries_map(s.take(i)).contains_key(key),
        entries_map(s).contains_key(key) ==> entries_map(s)[key] == entries_map(s.take(i))[key],
    decreases s.len() - i,
{
    if i == s.len() {
        assert(s.take(i) =~= s);
    } else {
        let t = s.take(i + 1);
        assert(t.drop_last() =~= s.take(i));
        assert(t.last() == s[i]);
        lemma_absent_suffix(s, i + 1, key);
        assert(s.take(s.len() as int) =~= s);
    }
}

/// Extending the entries by one shifts the built map by one insertion.
proof fn lemma_push_entry(s: Seq<(Seq<u8>, ActionModel)>, e: (Seq<u8>, ActionModel))
    ensures
        entries_map(s.push(e)) == entries_map(s).insert(e.0, e.1),
{
    assert(s.push(e).drop_last() =~= s);
}

impl Policy {
    /// An empty table: every path is unrestricted.
    pub fn new() -> (r: Policy)
        ensures
            r@ == Map::<Seq<u8>, ActionModel>::empty(),
    {
        let r = Policy { entries: Vec::new() };
        proof {
            assert(r.entries@.map_values(|e: (Vec<u8>, Action)| (e.0@, e.1@)) =~= Seq::empty());
        }
        r
    }

    /// Adds a rule, overriding any earlier rule for the same path.
    pub fn insert(&mut self, key: Vec<u8>, action: Action)
        ensures
            final(self)@ == old(self)@.insert(key@, action@),
    {
        let ghost s = self.entries@.map_values(|e: (Vec<u8>, Action)| (e.0@, e.1@));
        self.entries.push((key, action));
        proof {
            assert(self.entries@.map_values(|e: (Vec<u8>, Action)| (e.0@, e.1@)) =~= s.push(
                (key@, action@),
            ));
            lemma_push_entry(s, (key@, action@));
        }
    }

    /// Looks the rule for `key` up: the latest rule given for that path, or
    /// nothing when the path is unrestricted.
    pub fn get(&self, key: &Vec<u8>) -> (r: Option<&Action>)
        ensures
            match r {
                Some(a) => self@.contains_key(key@) && a@ == self@[key@],
                None => !self@.contains_key(key@),
            },
    {
        let ghost s = self.entries@.map_values(|e: (Vec<u8>, Action)| (e.0@, e.1@));
        let mut i: usize = self.entries.len();
        while i > 0
            invariant
                i <= self.entries.len(),
                s == self.entries@.map_values(|e: (Vec<u8>, Action)| (e.0@, e.1@)),
                forall|j: int| i <= j < s.len() ==> (#[trigger] s[j]).0 != key@,
            decreases i,
        {
            i = i - 1;
            if self.entries[i].0 == *key {
                proof {
                    lemma_absent_suffix(s, i + 1, key@);
                    let t = s.take(i + 1);
                    assert(t.drop_last() =~= s.take(i as int));
                    assert(t.last() == s[i as int]);
                    assert(self.entries[i as int].0@ == key@);
                }
                return Some(&self.entries[i].1);
            }
            proof {
                assert(self.entries[i as int].0@ != key@);
            }
        }
        proof {
            lemma_absent_suffix(s, 0, key@);
            assert(entries_map(s.take(0)) =~= Map::<Seq<u8>, ActionModel>::empty());
        }
        None
    }
}

} // verus!
