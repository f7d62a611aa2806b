//! The record of what is installed: for each tool identifier at most one
//! version.

use crate::text::same_text;
use vstd::prelude::*;
use vstd::std_specs::cmp::PartialEqSpecImpl;

verus! {

/// One line of the record: a tool identifier and the version installed.
#[derive(Debug)]
struct InstalledEntry {
    id: String,
    version: String,
}

/// The record of installed versions. No identifier occurs twice; the order of
/// the entries carries no meaning.
#[derive(Debug)]
pub struct ToolsConfig {
    entries: Vec<InstalledEntry>,
}

/// No identifier occurs twice in `entries`.
spec fn distinct_ids(entries: Seq<InstalledEntry>) -> bool {
    forall|i: int, j: int|
        0 <= i < entries.len() && 0 <= j < entries.len() && i != j ==> entries[i].id@
            != entries[j].id@
}

/// `entries` holds a line for `id`.
spec fn has_id(entries: Seq<InstalledEntry>, id: Seq<char>) -> bool {
    exists|i: int| 0 <= i < entries.len() && entries[i].id@ == id
}

/// The mapping that `entries` stands for.
spec fn record_of(entries: Seq<InstalledEntry>) -> Map<Seq<char>, Seq<char>> {
    Map::new(
        |id: Seq<char>| has_id(entries, id),
        |id: Seq<char>| entries[choose|i: int| 0 <= i < entries.len() && entries[i].id@ == id].version@,
    )
}

/// The mapping that results from recording `pairs` one after the other, a later
/// pair replacing an earlier one for the same identifier.
pub open spec fn record_from(pairs: Seq<(String, String)>) -> Map<Seq<char>, Seq<char>>
    decreases pairs.len(),
{
    if pairs.len() == 0 {
        Map::empty()
    } else {
        record_from(pairs.drop_last()).insert(pairs.last().0@, pairs.last().1@)
    }
}

/// In a record without repeated identifiers, each line gives the version of its
/// identifier.
proof fn lemma_record_at(entries: Seq<InstalledEntry>, i: int)
    requires
        distinct_ids(entries),
        0 <= i < entries.len(),
    ensures
        record_of(entries).contains_key(entries[i].id@),
        record_of(entries)[entries[i].id@] == entries[i].version@,
{
}

/// Adding a line for a new identifier records its version.
proof fn lemma_record_push(entries: Seq<InstalledEntry>, e: InstalledEntry)
    requires
        distinct_ids(entries),
        !has_id(entries, e.id@),
    ensures
        distinct_ids(entries.push(e)),
        record_of(entries.push(e)) == record_of(entries).insert(e.id@, e.version@),
{
    let after = entries.push(e);
    assert(distinct_ids(after));
    assert forall|id: Seq<char>| has_id(after, id) <==> (has_id(entries, id) || id == e.id@) by {
        if has_id(entries, id) {
            let i = choose|i: int| 0 <= i < entries.len() && entries[i].id@ == id;
            assert(after[i].id@ == id);
        }
        if id == e.id@ {
            assert(after[entries.len() as int].id@ == id);
        }
    }
    assert forall|id: Seq<char>| has_id(after, id) implies record_of(after)[id] == record_of(
        entries,
    ).insert(e.id@, e.version@)[id] by {
        let i = choose|i: int| 0 <= i < after.len() && after[i].id@ == id;
        lemma_record_at(after, i);
        if i < entries.len() {
            lemma_record_at(entries, i);
        }
    }
    assert(record_of(after) =~= record_of(entries).insert(e.id@, e.version@));
}

/// Replacing the version in a line records the new version for its identifier.
proof fn lemma_record_update(entries: Seq<InstalledEntry>, at: int, e: InstalledEntry)
    requires
        distinct_ids(entries),
        0 <= at < entries.len(),
        entries[at].id@ == e.id@,
    ensures
        distinct_ids(entries.update(at, e)),
        record_of(entries.update(at, e)) == record_of(entries).insert(e.id@, e.version@),
{
    let after = entries.update(at, e);
    assert(distinct_ids(after));
    assert forall|id: Seq<char>| has_id(after, id) <==> (has_id(entries, id) || id == e.id@) by {
        if has_id(entries, id) {
            let i = choose|i: int| 0 <= i < entries.len() && entries[i].id@ == id;
            assert(after[i].id@ == id);
        }
    }
    assert forall|id: Seq<char>| has_id(after, id) implies record_of(after)[id] == record_of(
        entries,
    ).insert(e.id@, e.version@)[id] by {
        let i = choose|i: int| 0 <= i < after.len() && after[i].id@ == id;
        lemma_record_at(after, i);
        if i != at {
            lemma_record_at(entries, i);
        }
    }
    assert(record_of(after) =~= record_of(entries).insert(e.id@, e.version@));
}

impl View for ToolsConfig {
    type V = Map<Seq<char>, Seq<char>>;

    closed spec fn view(&self) -> Map<Seq<char>, Seq<char>> {
        record_of(self.entries@)
    }
}

impl ToolsConfig {
    /// No identifier occurs twice.
    #[verifier::type_invariant]
    spec fn well_formed(&self) -> bool {
        distinct_ids(self.entries@)
    }

    /// The record in which nothing is installed.
    pub fn new() -> (r: Self)
        ensures
            r@ == Map::<Seq<char>, Seq<char>>::empty(),
    {
        ToolsConfig { entries: Vec::new() }
    }

    /// The position of the line for `id`.
    fn position(&self, id: &str) -> (r: Option<usize>)
        ensures
            match r {
                Some(i) => i < self.entries@.len() && self.entries@[i as int].id@ == id@,
                None => !has_id(self.entries@, id@),
            },
    {
        let mut i: usize = 0;
        while i < self.entries.len()
            invariant
                i <= self.entries@.len(),
                forall|j: int| 0 <= j < i ==> self.entries@[j].id@ != id@,
            decreases self.entries@.len() - i,
        {
            if same_text(self.entries[i].id.as_str(), id) {
                return Some(i);
            }
            i += 1;
        }
        None
    }

    /// Whether a version is recorded for `id`.
    pub fn contains_key(&self, id: &str) -> (r: bool)
        ensures
            r == self@.contains_key(id@),
    {
        self.position(id).is_some()
    }

    /// The version recorded for `id`.
    pub fn get(&self, id: &str) -> (r: Option<String>)
        ensures
            match r {
                Some(v) => self@.contains_key(id@) && v@ == self@[id@],
                None => !self@.contains_key(id@),
            },
    {
        proof {
            use_type_invariant(self);
        }
        match self.position(id) {
            Some(i) => {
                proof {
                    lemma_record_at(self.entries@, i as int);
                }
                Some(self.entries[i].version.clone())
            },
            None => None,
        }
    }

    /// Records `version` for `id`, in place of what was recorded for it before.
    pub fn insert(&mut self, id: String, version: String)
        ensures
            final(self)@ == old(self)@.insert(id@, version@),
    {
        proof {
            use_type_invariant(&*self);
        }
        let entry = InstalledEntry { id, version };
        let found = self.position(entry.id.as_str());
        let mut taken = ToolsConfig { entries: Vec::new() };
        std::mem::swap(self, &mut taken);
        let ToolsConfig { entries } = taken;
        let mut entries = entries;
        match found {
            Some(i) => {
                proof {
                    lemma_record_update(entries@, i as int, entry);
                }
                entries.set(i, entry);
            },
            None => {
                proof {
                    lemma_record_push(entries@, entry);
                }
                entries.push(entry);
            },
        }
        *self = ToolsConfig { entries };
    }

    /// The identifiers for which a version is recorded, each once.
    pub fn keys(&self) -> (r: Vec<String>)
        ensures
            forall|i: int, j: int| 0 <= i < r@.len() && 0 <= j < r@.len() && i != j ==> r@[i]@ != r@[j]@,
            forall|i: int| 0 <= i < r@.len() ==> self@.contains_key(#[trigger] r@[i]@),
            forall|id: Seq<char>|
                self@.contains_key(id) ==> exists|i: int| 0 <= i < r@.len() && r@[i]@ == id,
    {
        proof {
            use_type_invariant(self);
        }
        let mut r: Vec<String> = Vec::new();
        let mut i: usize = 0;
        while i < self.entries.len()
            invariant
                i <= self.entries@.len(),
                r@.len() == i,
                forall|j: int| 0 <= j < i ==> r@[j]@ == self.entries@[j].id@,
            decreases self.entries@.len() - i,
        {
            r.push(self.entries[i].id.clone());
            i += 1;
        }
        proof {
            assert forall|k: int| 0 <= k < r@.len() implies self@.contains_key(
                #[trigger] r@[k]@,
            ) by {
                lemma_record_at(self.entries@, k);
            }
            assert forall|id: Seq<char>| self@.contains_key(id) implies exists|k: int|
                0 <= k < r@.len() && r@[k]@ == id by {
                let k = choose|k: int| 0 <= k < self.entries@.len() && self.entries@[k].id@ == id;
                assert(r@[k]@ == id);
            }
        }
        r
    }

    /// The record as pairs of identifier and version, each identifier once.
    pub fn entries(&self) -> (r: Vec<(String, String)>)
        ensures
            forall|i: int, j: int|
                0 <= i < r@.len() && 0 <= j < r@.len() && i != j ==> r@[i].0@ != r@[j].0@,
            forall|i: int|
                0 <= i < r@.len() ==> self@.contains_key(#[trigger] r@[i].0@) && self@[r@[i].0@]
                    == r@[i].1@,
            forall|id: Seq<char>|
                self@.contains_key(id) ==> exists|i: int| 0 <= i < r@.len() && r@[i].0@ == id,
    {
        proof {
            use_type_invariant(self);
        }
        let mut r: Vec<(String, String)> = Vec::new();
        let mut i: usize = 0;
        while i < self.entries.len()
            invariant
                i <= self.entries@.len(),
                r@.len() == i,
                forall|j: int|
                    0 <= j < i ==> r@[j].0@ == self.entries@[j].id@ && r@[j].1@
                        == self.entries@[j].version@,
            decreases self.entries@.len() - i,
        {
            r.push((self.entries[i].id.clone(), self.entries[i].version.clone()));
            i += 1;
        }
        proof {
            assert forall|k: int| 0 <= k < r@.len() implies self@.contains_key(
                #[trigger] r@[k].0@,
            ) && self@[r@[k].0@] == r@[k].1@ by {
                lemma_record_at(self.entries@, k);
            }
            assert forall|id: Seq<char>| self@.contains_key(id) implies exists|k: int|
                0 <= k < r@.len() && r@[k].0@ == id by {
                let k = choose|k: int| 0 <= k < self.entries@.len() && self.entries@[k].id@ == id;
                assert(r@[k].0@ == id);
            }
        }
        r
    }

    /// The record that results from recording `pairs` one after the other.
    pub fn from_entries(pairs: Vec<(String, String)>) -> (r: Self)
        ensures
            r@ == record_from(pairs@),
    {
        let mut r = ToolsConfig::new();
        let mut i: usize = 0;
        while i < pairs.len()
            invariant
                i <= pairs@.len(),
                r@ == record_from(pairs@.subrange(0, i as int)),
            decreases pairs@.len() - i,
        {
            let id = pairs[i].0.clone();
            let version = pairs[i].1.clone();
            r.insert(id, version);
            proof {
                assert(pairs@.subrange(0, i + 1).drop_last() =~= pairs@.subrange(0, i as int));
            }
            i += 1;
        }
        assert(pairs@.subrange(0, pairs@.len() as int) =~= pairs@);
        r
    }
}

/// The record that `stored` stands for: the pairs read from disk, or the empty
/// record where nothing could be read.
pub open spec fn loaded_record(stored: Option<Vec<(String, String)>>) -> Map<
    Seq<char>,
    Seq<char>,
> {
    match stored {
        Some(pairs) => record_from(pairs@),
        None => Map::empty(),
    }
}

/// The record to work with, given what was read from disk. A record that is
/// missing, unreadable or damaged arrives as `None` and counts as empty: nothing
/// is installed, and no failure is reported.
pub fn load_config(stored: Option<Vec<(String, String)>>) -> (r: ToolsConfig)
    ensures
        r@ == loaded_record(stored),
{
    match stored {
        Some(pairs) => ToolsConfig::from_entries(pairs),
        None => ToolsConfig::new(),
    }
}

impl ToolsConfig {
    /// Whether every line of `self` stands in `other` too, with the same
    /// version.
    fn within(&self, other: &Self) -> (r: bool)
        ensures
            r == forall|id: Seq<char>| #[trigger]
                self@.contains_key(id) ==> other@.contains_key(id) && other@[id] == self@[id],
    {
        proof {
            use_type_invariant(self);
        }
        let mut i: usize = 0;
        while i < self.entries.len()
            invariant
                i <= self.entries@.len(),
                distinct_ids(self.entries@),
                forall|j: int|
                    0 <= j < i ==> other@.contains_key(self.entries@[j].id@) && other@[self.entries@[j].id@]
                        == self.entries@[j].version@,
            decreases self.entries@.len() - i,
        {
            proof {
                lemma_record_at(self.entries@, i as int);
            }
            let same = match other.get(self.entries[i].id.as_str()) {
                Some(version) => same_text(version.as_str(), self.entries[i].version.as_str()),
                None => false,
            };
            if !same {
                assert(self@.contains_key(self.entries@[i as int].id@));
                return false;
            }
            i += 1;
        }
        proof {
            assert forall|id: Seq<char>| self@.contains_key(id) implies other@.contains_key(id)
                && other@[id] == self@[id] by {
                let j = choose|j: int| 0 <= j < self.entries@.len() && self.entries@[j].id@ == id;
                lemma_record_at(self.entries@, j);
            }
        }
        true
    }
}

impl PartialEq for ToolsConfig {
    /// Two records are equal where they record the same versions for the same
    /// identifiers.
    fn eq(&self, other: &Self) -> (r: bool) {
        let r = self.within(other) && other.within(self);
        proof {
            if r {
                assert(self@ =~= other@);
            }
        }
        r
    }
}

impl Eq for ToolsConfig {

}

impl PartialEqSpecImpl for ToolsConfig {
    open spec fn obeys_eq_spec() -> bool {
        true
    }

    open spec fn eq_spec(&self, other: &Self) -> bool {
        self@ == other@
    }
}

impl Clone for ToolsConfig {
    fn clone(&self) -> (r: Self)
        ensures
            r@ == self@,
    {
        proof {
            use_type_invariant(self);
        }
        let mut entries: Vec<InstalledEntry> = Vec::new();
        let mut i: usize = 0;
        while i < self.entries.len()
            invariant
                i <= self.entries@.len(),
                entries@.len() == i,
                forall|j: int|
                    0 <= j < i ==> entries@[j].id@ == self.entries@[j].id@ && entries@[j].version@
                        == self.entries@[j].version@,
            decreases self.entries@.len() - i,
        {
            entries.push(
                InstalledEntry {
                    id: self.entries[i].id.clone(),
                    version: self.entries[i].version.clone(),
                },
            );
            i += 1;
        }
        proof {
            lemma_same_lines_same_record(self.entries@, entries@);
        }
        ToolsConfig { entries }
    }
}

/// Two runs of lines with the same texts stand for the same record.
proof fn lemma_same_lines_same_record(a: Seq<InstalledEntry>, b: Seq<InstalledEntry>)
    requires
        distinct_ids(a),
        a.len() == b.len(),
        forall|j: int| 0 <= j < a.len() ==> a[j].id@ == b[j].id@ && a[j].version@ == b[j].version@,
    ensures
        distinct_ids(b),
        record_of(a) == record_of(b),
{
    assert(distinct_ids(b));
    assert forall|id: Seq<char>| has_id(a, id) implies record_of(a)[id] == record_of(b)[id] by {
        let i = choose|i: int| 0 <= i < a.len() && a[i].id@ == id;
        lemma_record_at(a, i);
        lemma_record_at(b, i);
    }
    assert(record_of(a) =~= record_of(b));
}

} // verus!
