//! The untyped field-map record: what the document store holds.
//!
//! A record is a list of named values whose meaning is the string-keyed map
//! `FieldMap::view`; when a name is written twice, the later write wins, so
//! pushing an entry is insertion and appending a whole map is a patch
//! (`Map::union_prefer_right`).

use vstd::prelude::*;

verus! {

use crate::strutil::str_eq;
use vstd::string::StringExecFns;

/// An untyped stored value, as a schemaless document store keeps it.
pub enum Val {
    Null,
    Bool(bool),
    Int(i64),
    Str(String),
}

/// The mathematical value of a `Val`.
#[verifier::ext_equal]
pub enum ValV {
    Null,
    Bool(bool),
    Int(int),
    Str(Seq<char>),
}

impl View for Val {
    type V = ValV;

    open spec fn view(&self) -> ValV {
        match self {
            Val::Null => ValV::Null,
            Val::Bool(b) => ValV::Bool(*b),
            Val::Int(n) => ValV::Int(*n as int),
            Val::Str(s) => ValV::Str(s@),
        }
    }
}

impl Val {
    /// A copy with the same mathematical value.
    pub fn dup(&self) -> (r: Val)
        ensures
            r@ == self@,
    {
        match self {
            Val::Null => Val::Null,
            Val::Bool(b) => Val::Bool(*b),
            Val::Int(n) => Val::Int(*n),
            Val::Str(s) => Val::Str(s.clone()),
        }
    }
}

/// The map a list of named values denotes: later entries override earlier.
pub open spec fn entries_map(s: Seq<(String, Val)>) -> Map<Seq<char>, ValV>
    decreases s.len(),
{
    if s.len() == 0 {
        Map::empty()
    } else {
        entries_map(s.drop_last()).insert(s.last().0@, s.last().1@)
    }
}

/// The entry no later one overrides gives the key its value.
pub proof fn lemma_entries_map_last_wins(s: Seq<(String, Val)>, j: int, k: Seq<char>)
    requires
        0 <= j < s.len(),
        s[j].0@ == k,
        forall|m: int| j < m < s.len() ==> (#[trigger] s[m]).0@ != k,
    ensures
        entries_map(s).contains_key(k),
        entries_map(s)[k] == s[j].1@,
    decreases s.len(),
{
    if j == s.len() - 1 {
    } else {
        assert(s.last().0@ != k);
        lemma_entries_map_last_wins(s.drop_last(), j, k);
    }
}

/// A key no entry bears is absent.
pub proof fn lemma_entries_map_absent(s: Seq<(String, Val)>, k: Seq<char>)
    requires
        forall|m: int| 0 <= m < s.len() ==> (#[trigger] s[m]).0@ != k,
    ensures
        !entries_map(s).contains_key(k),
    decreases s.len(),
{
    if s.len() > 0 {
        lemma_entries_map_absent(s.drop_last(), k);
    }
}

/// Appending entry lists unions their maps, the appended side winning.
pub proof fn lemma_entries_map_concat(a: Seq<(String, Val)>, b: Seq<(String, Val)>)
    ensures
        entries_map(a + b) == entries_map(a).union_prefer_right(entries_map(b)),
    decreases b.len(),
{
    if b.len() == 0 {
        assert(a + b =~= a);
        assert(entries_map(a).union_prefer_right(Map::empty()) =~= entries_map(a));
    } else {
        lemma_entries_map_concat(a, b.drop_last());
        assert((a + b).drop_last() =~= a + b.drop_last());
        assert((a + b).last() == b.last());
        assert(entries_map(a).union_prefer_right(
            entries_map(b.drop_last()).insert(b.last().0@, b.last().1@),
        ) =~= entries_map(a).union_prefer_right(entries_map(b.drop_last())).insert(
            b.last().0@,
            b.last().1@,
        ));
    }
}

/// Entry lists equal name-by-name and value-by-value denote the same map.
pub proof fn lemma_entries_map_congruent(a: Seq<(String, Val)>, b: Seq<(String, Val)>)
    requires
        a.len() == b.len(),
        forall|i: int|
            0 <= i < a.len() ==> (#[trigger] a[i]).0@ == b[i].0@ && a[i].1@ == b[i].1@,
    ensures
        entries_map(a) == entries_map(b),
    decreases a.len(),
{
    if a.len() > 0 {
        lemma_entries_map_congruent(a.drop_last(), b.drop_last());
        assert(a.last().0@ == b.last().0@ && a.last().1@ == b.last().1@);
    }
}

/// An untyped record: named values whose meaning is a string-keyed map.
pub struct FieldMap {
    pub entries: Vec<(String, Val)>,
}

impl View for FieldMap {
    type V = Map<Seq<char>, ValV>;

    open spec fn view(&self) -> Map<Seq<char>, ValV> {
        entries_map(self.entries@)
    }
}

impl FieldMap {
    /// The record with no fields.
    pub fn new() -> (r: FieldMap)
        ensures
            r@ == Map::<Seq<char>, ValV>::empty(),
    {
        FieldMap { entries: Vec::new() }
    }

    /// Writes a field, overriding any earlier value under the same name.
    pub fn set(&mut self, name: &str, v: Val)
        ensures
            final(self)@ == old(self)@.insert(name@, v@),
    {
        let nm = String::from_str(name);
        self.entries.push((nm, v));
        proof {
            assert(self.entries@.drop_last() =~= old(self).entries@);
        }
    }

    /// Reads the field under `name`, if any.
    pub fn get<'a>(&'a self, name: &str) -> (r: Option<&'a Val>)
        ensures
            match r {
                Some(v) => self@.contains_key(name@) && v@ == self@[name@],
                None => !self@.contains_key(name@),
            },
    {
        let mut i: usize = self.entries.len();
        while i > 0
            invariant
                i <= self.entries.len(),
                forall|m: int|
                    i <= m < self.entries@.len() ==> (#[trigger] self.entries@[m]).0@ != name@,
            decreases i,
        {
            i -= 1;
            if str_eq(self.entries[i].0.as_str(), name) {
                proof {
                    lemma_entries_map_last_wins(self.entries@, i as int, name@);
                }
                return Some(&self.entries[i].1);
            }
        }
        proof {
            lemma_entries_map_absent(self.entries@, name@);
        }
        None
    }

    /// Applies `patch` as a partial update: its fields win, others stay.
    pub fn merge(&mut self, patch: &FieldMap)
        ensures
            final(self)@ == old(self)@.union_prefer_right(patch@),
    {
        let mut i: usize = 0;
        while i < patch.entries.len()
            invariant
                i <= patch.entries.len(),
                self@ == old(self)@.union_prefer_right(entries_map(patch.entries@.take(i as int))),
            decreases patch.entries.len() - i,
        {
            let ghost prev = self.entries@;
            let ghost tm = entries_map(patch.entries@.take(i as int));
            let nm = patch.entries[i].0.clone();
            let v = patch.entries[i].1.dup();
            let ghost k = nm@;
            let ghost w = v@;
            self.entries.push((nm, v));
            proof {
                assert(self.entries@.drop_last() =~= prev);
                assert(self@ == entries_map(prev).insert(k, w));
                assert(patch.entries@.take(i + 1).drop_last() =~= patch.entries@.take(i as int));
                assert(patch.entries@.take(i + 1).last() == patch.entries@[i as int]);
                assert(entries_map(patch.entries@.take(i + 1)) == tm.insert(k, w));
                assert(old(self)@.union_prefer_right(tm.insert(k, w)) =~= old(
                    self,
                )@.union_prefer_right(tm).insert(k, w));
            }
            i += 1;
        }
        proof {
            assert(patch.entries@.take(patch.entries@.len() as int) =~= patch.entries@);
        }
    }

    /// A copy denoting the same map.
    pub fn dup(&self) -> (r: FieldMap)
        ensures
            r@ == self@,
    {
        let mut out: Vec<(String, Val)> = Vec::new();
        let mut i: usize = 0;
        while i < self.entries.len()
            invariant
                i <= self.entries.len(),
                out@.len() == i,
                forall|m: int|
                    0 <= m < i ==> (#[trigger] out@[m]).0@ == self.entries@[m].0@ && out@[m].1@
                        == self.entries@[m].1@,
            decreases self.entries.len() - i,
        {
            let nm = self.entries[i].0.clone();
            let v = self.entries[i].1.dup();
            out.push((nm, v));
            i += 1;
        }
        proof {
            lemma_entries_map_congruent(out@, self.entries@);
        }
        FieldMap { entries: out }
    }
}

} // verus!
