use vstd::prelude::*;

use crate::types::{CampaignDetails, StorageKey, StoredValue};

verus! {

/// The mapping that a sequence of writes leaves behind: a later write to a
/// key replaces an earlier one.
pub open spec fn entries_map(s: Seq<(StorageKey, StoredValue)>) -> Map<StorageKey, StoredValue>
    decreases s.len(),
{
    if s.len() == 0 {
        Map::empty()
    } else {
        entries_map(s.drop_last()).insert(s.last().0, s.last().1)
    }
}

/// The campaigns of a sequence of records, keyed by the bytes of their id.
pub open spec fn campaigns_map(s: Seq<CampaignDetails>) -> Map<Seq<u8>, CampaignDetails>
    decreases s.len(),
{
    if s.len() == 0 {
        Map::empty()
    } else {
        campaigns_map(s.drop_last()).insert(s.last().id@, s.last())
    }
}

/// Overwriting the last write to a key in place is the same as writing it anew.
proof fn lemma_entries_map_update(
    s: Seq<(StorageKey, StoredValue)>,
    i: int,
    key: StorageKey,
    value: StoredValue,
)
    requires
        0 <= i < s.len(),
        s[i].0 == key,
        forall|m: int| i < m < s.len() ==> s[m].0 != key,
    ensures
        entries_map(s.update(i, (key, value))) == entries_map(s).insert(key, value),
    decreases s.len(),
{
    let u = s.update(i, (key, value));
    if i == s.len() - 1 {
        assert(u.drop_last() =~= s.drop_last());
        assert(entries_map(u) =~= entries_map(s).insert(key, value));
    } else {
        assert(u.drop_last() =~= s.drop_last().update(i, (key, value)));
        lemma_entries_map_update(s.drop_last(), i, key, value);
        assert(entries_map(u) =~= entries_map(s).insert(key, value));
    }
}

/// Two ids are the same exactly when their bytes are.
fn same_id(a: &[u8; 32], b: &[u8; 32]) -> (r: bool)
    ensures
        r == (a@ == b@),
{
    let mut i: usize = 0;
    while i < 32
        invariant
            0 <= i <= 32,
            a@.len() == 32,
            b@.len() == 32,
            forall|j: int| 0 <= j < i ==> a@[j] == b@[j],
        decreases 32 - i,
    {
        if a[i] != b[i] {
            return false;
        }
        i = i + 1;
    }
    assert(a@ =~= b@);
    true
}

/// The keyed records of the pools and the id counter.
pub struct KeyValueStore {
    entries: Vec<(StorageKey, StoredValue)>,
}

impl View for KeyValueStore {
    type V = Map<StorageKey, StoredValue>;

    closed spec fn view(&self) -> Map<StorageKey, StoredValue> {
        entries_map(self.entries@)
    }
}

impl KeyValueStore {
    pub fn new() -> (r: KeyValueStore)
        ensures
            r@ == Map::<StorageKey, StoredValue>::empty(),
    {
        KeyValueStore { entries: Vec::new() }
    }

    /// The position of the last write to `key`, if any.
    fn find(&self, key: &StorageKey) -> (r: Option<usize>)
        ensures
            match r {
                Some(i) => {
                    &&& i < self.entries@.len()
                    &&& self.entries@[i as int].0 == *key
                    &&& forall|m: int| i < m < self.entries@.len() ==> self.entries@[m].0 != *key
                    &&& self@.contains_key(*key)
                    &&& self@[*key] == self.entries@[i as int].1
                },
                None => !self@.contains_key(*key),
            },
    {
        let ghost s = self.entries@;
        let mut j: usize = self.entries.len();
        assert(s.take(j as int) =~= s);
        while j > 0
            invariant
                s == self.entries@,
                j <= s.len(),
                entries_map(s.take(j as int)).contains_key(*key) == self@.contains_key(*key),
                self@.contains_key(*key) ==> entries_map(s.take(j as int))[*key] == self@[*key],
                forall|m: int| j <= m < s.len() ==> s[m].0 != *key,
            decreases j,
        {
            assert(s.take(j as int).drop_last() =~= s.take(j - 1));
            if self.entries[j - 1].0 == *key {
                return Some(j - 1);
            }
            j = j - 1;
        }
        None
    }

    /// Whether a value is stored under `key`.
    pub fn has(&self, key: &StorageKey) -> (r: bool)
        ensures
            r == self@.contains_key(*key),
    {
        self.find(key).is_some()
    }

    /// The value stored under `key`, if any.
    pub fn get(&self, key: &StorageKey) -> (r: Option<&StoredValue>)
        ensures
            match r {
                Some(v) => self@.contains_key(*key) && *v == self@[*key],
                None => !self@.contains_key(*key),
            },
    {
        match self.find(key) {
            Some(i) => Some(&self.entries[i].1),
            None => None,
        }
    }

    /// Stores `value` under `key`, replacing what was there.
    pub fn set(&mut self, key: StorageKey, value: StoredValue)
        ensures
            final(self)@ == old(self)@.insert(key, value),
    {
        match self.find(&key) {
            Some(i) => {
                proof {
                    lemma_entries_map_update(self.entries@, i as int, key, value);
                }
                self.entries[i] = (key, value);
            },
            None => {
                let ghost s = self.entries@;
                self.entries.push((key, value));
                assert(self.entries@.drop_last() =~= s);
            },
        }
    }
}

/// The campaigns, keyed by the bytes of their id.
pub struct CampaignBook {
    records: Vec<CampaignDetails>,
}

impl View for CampaignBook {
    type V = Map<Seq<u8>, CampaignDetails>;

    closed spec fn view(&self) -> Map<Seq<u8>, CampaignDetails> {
        campaigns_map(self.records@)
    }
}

impl CampaignBook {
    pub fn new() -> (r: CampaignBook)
        ensures
            r@ == Map::<Seq<u8>, CampaignDetails>::empty(),
    {
        CampaignBook { records: Vec::new() }
    }

    /// The campaign stored under `id`, if any.
    pub fn get(&self, id: &[u8; 32]) -> (r: Option<&CampaignDetails>)
        ensures
            match r {
                Some(c) => self@.contains_key(id@) && *c == self@[id@],
                None => !self@.contains_key(id@),
            },
    {
        let ghost s = self.records@;
        let mut j: usize = self.records.len();
        assert(s.take(j as int) =~= s);
        while j > 0
            invariant
                s == self.records@,
                j <= s.len(),
                campaigns_map(s.take(j as int)).contains_key(id@) == self@.contains_key(id@),
                self@.contains_key(id@) ==> campaigns_map(s.take(j as int))[id@] == self@[id@],
            decreases j,
        {
            assert(s.take(j as int).drop_last() =~= s.take(j - 1));
            if same_id(&self.records[j - 1].id, id) {
                return Some(&self.records[j - 1]);
            }
            j = j - 1;
        }
        None
    }

    /// Stores `c` under its id, replacing what was there.
    pub fn insert(&mut self, c: CampaignDetails)
        ensures
            final(self)@ == old(self)@.insert(c.id@, c),
    {
        let ghost s = self.records@;
        self.records.push(c);
        assert(self.records@.drop_last() =~= s);
    }
}

} // verus!
