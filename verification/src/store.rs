use vstd::prelude::*;
use crate::pubkey::Pubkey;
use crate::record::{SpaceToken, TokenModel, model_fits};

verus! {

/// One stored record together with the location it lives at.
struct StoreEntry {
    key: Pubkey,
    record: SpaceToken,
}

/// The record storage the host runtime supplies, seen through this crate's
/// eyes: a finite map from storage location to record.
///
/// A record is created at a location at most once and never deleted; the
/// operations of [`crate::token_admin`] mutate records in place.
pub struct TokenStore {
    entries: Vec<StoreEntry>,
}

spec fn distinct_keys(s: Seq<StoreEntry>) -> bool {
    forall|i: int, j: int| 0 <= i < j < s.len() ==> s[i].key@ != s[j].key@
}

spec fn map_of(s: Seq<StoreEntry>) -> Map<Seq<u8>, TokenModel>
    decreases s.len(),
{
    if s.len() == 0 {
        Map::empty()
    } else {
        map_of(s.drop_last()).insert(s.last().key@, s.last().record@)
    }
}

proof fn lemma_map_of_dom(s: Seq<StoreEntry>)
    ensures
        forall|k: Seq<u8>|
            #[trigger] map_of(s).dom().contains(k) <==> exists|i: int|
                0 <= i < s.len() && s[i].key@ == k,
    decreases s.len(),
{
    if s.len() > 0 {
        lemma_map_of_dom(s.drop_last());
        assert forall|k: Seq<u8>| #[trigger] map_of(s).dom().contains(k) implies exists|i: int|
            0 <= i < s.len() && s[i].key@ == k by {
            if k == s.last().key@ {
                assert(s[s.len() - 1].key@ == k);
            } else {
                assert(map_of(s.drop_last()).dom().contains(k));
                let i = choose|i: int|
                    0 <= i < s.drop_last().len() && s.drop_last()[i].key@ == k;
                assert(s.drop_last()[i] == s[i]);
                assert(s[i].key@ == k);
            }
        }
        assert forall|k: Seq<u8>| (exists|i: int| 0 <= i < s.len() && s[i].key@ == k) implies
            #[trigger] map_of(s).dom().contains(k) by {
            let i = choose|i: int| 0 <= i < s.len() && s[i].key@ == k;
            if i < s.len() - 1 {
                assert(s.drop_last()[i].key@ == k);
                assert(map_of(s.drop_last()).dom().contains(k));
                assert(map_of(s) == map_of(s.drop_last()).insert(s.last().key@, s.last().record@));
            } else {
                assert(k == s.last().key@);
            }
        }
    }
}

proof fn lemma_map_of_index(s: Seq<StoreEntry>, i: int)
    requires
        distinct_keys(s),
        0 <= i < s.len(),
    ensures
        map_of(s).dom().contains(s[i].key@),
        map_of(s)[s[i].key@] == s[i].record@,
    decreases s.len(),
{
    lemma_map_of_dom(s);
    if i < s.len() - 1 {
        assert(s.drop_last()[i] == s[i]);
        lemma_map_of_index(s.drop_last(), i);
        assert(s[i].key@ != s.last().key@);
    }
}

proof fn lemma_map_of_update(s: Seq<StoreEntry>, i: int, e: StoreEntry)
    requires
        distinct_keys(s),
        0 <= i < s.len(),
        e.key@ == s[i].key@,
    ensures
        map_of(s.update(i, e)) == map_of(s).insert(e.key@, e.record@),
    decreases s.len(),
{
    let t = s.update(i, e);
    if i == s.len() - 1 {
        assert(t.drop_last() =~= s.drop_last());
        assert(t.last() == e);
        assert(map_of(t) =~= map_of(s).insert(e.key@, e.record@));
    } else {
        assert(t.drop_last() =~= s.drop_last().update(i, e));
        assert(t.last() == s.last());
        lemma_map_of_update(s.drop_last(), i, e);
        assert(s[i].key@ != s.last().key@);
        assert(map_of(t) =~= map_of(s).insert(e.key@, e.record@));
    }
}

impl TokenStore {
    /// The keys of distinct entries differ, so each location holds at most
    /// one record and the map view is faithful; and every stored record
    /// fits in the storage space the host reserves for it.
    pub closed spec fn wf(self) -> bool {
        distinct_keys(self.entries@) && forall|i: int|
            0 <= i < self.entries@.len() ==> model_fits(self.entries@[i].record@)
    }
}

impl View for TokenStore {
    type V = Map<Seq<u8>, TokenModel>;

    closed spec fn view(&self) -> Map<Seq<u8>, TokenModel> {
        map_of(self.entries@)
    }
}

impl TokenStore {
    /// An empty store: no record at any location.
    pub fn new() -> (s: TokenStore)
        ensures
            s.wf(),
            s@ == Map::<Seq<u8>, TokenModel>::empty(),
    {
        TokenStore { entries: Vec::new() }
    }

    fn find_index(&self, key: &Pubkey) -> (r: Option<usize>)
        ensures
            match r {
                Some(i) => i < self.entries@.len() && self.entries@[i as int].key@ == key@,
                None => forall|i: int|
                    0 <= i < self.entries@.len() ==> self.entries@[i].key@ != key@,
            },
    {
        let mut i: usize = 0;
        while i < self.entries.len()
            invariant
                i <= self.entries@.len(),
                forall|j: int| 0 <= j < i ==> self.entries@[j].key@ != key@,
            decreases self.entries@.len() - i,
        {
            if self.entries[i].key == *key {
                return Some(i);
            }
            i = i + 1;
        }
        None
    }

    /// Whether a record exists at `key`.
    pub fn contains(&self, key: &Pubkey) -> (r: bool)
        ensures
            r == self@.dom().contains(key@),
    {
        proof {
            lemma_map_of_dom(self.entries@);
        }
        self.find_index(key).is_some()
    }

    /// The record at `key`, if one exists.
    pub fn get(&self, key: &Pubkey) -> (r: Option<&SpaceToken>)
        requires
            self.wf(),
        ensures
            match r {
                Some(record) => self@.dom().contains(key@) && record@ == self@[key@]
                    && model_fits(record@),
                None => !self@.dom().contains(key@),
            },
    {
        proof {
            lemma_map_of_dom(self.entries@);
        }
        match self.find_index(key) {
            Some(i) => {
                proof {
                    lemma_map_of_index(self.entries@, i as int);
                }
                Some(&self.entries[i].record)
            },
            None => None,
        }
    }

    /// Creates a record at a location that holds none yet.
    pub fn insert_new(&mut self, key: Pubkey, record: SpaceToken)
        requires
            old(self).wf(),
            !old(self)@.dom().contains(key@),
            model_fits(record@),
        ensures
            final(self).wf(),
            final(self)@ == old(self)@.insert(key@, record@),
    {
        proof {
            lemma_map_of_dom(self.entries@);
        }
        let ghost s = self.entries@;
        let entry = StoreEntry { key, record };
        let ghost e = entry;
        self.entries.push(entry);
        proof {
            assert(self.entries@.drop_last() =~= s);
            assert(forall|i: int| 0 <= i < s.len() ==> s[i].key@ != e.key@);
        }
    }

    /// Overwrites the record at a location that already holds one.
    pub fn update_record(&mut self, key: &Pubkey, record: SpaceToken)
        requires
            old(self).wf(),
            old(self)@.dom().contains(key@),
            model_fits(record@),
        ensures
            final(self).wf(),
            final(self)@ == old(self)@.insert(key@, record@),
    {
        proof {
            lemma_map_of_dom(self.entries@);
        }
        let i = self.find_index(key).unwrap();
        let ghost s = self.entries@;
        let entry = StoreEntry { key: *key, record };
        let ghost e = entry;
        let slot = &mut self.entries[i];
        *slot = entry;
        proof {
            assert(self.entries@ =~= s.update(i as int, e));
            lemma_map_of_update(s, i as int, e);
        }
    }
}

} // verus!
