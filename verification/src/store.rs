//! The cache store: a mapping from identifier to property record, with
//! conditional insert, forced overwrite, get-or-fetch and raw insert, plus
//! the structured serialize/deserialize pair over the persisted document.
//!
//! The external resolver is a collaborator, not part of this crate: each
//! operation that the original design routes through the network takes the
//! resolver's outcome for the identifier as an argument and is verified for
//! every possible outcome.
use vstd::prelude::*;

use crate::CacheError;
use crate::doc::EntryM;
use crate::doc::JsonDoc;
use crate::doc::JsonEntry;
use crate::doc::props_to_raw;
use crate::doc::raw_to_props;
use crate::doc::spec_props_to_raw;
use crate::doc::spec_raw_to_props;
use crate::ident::KeyM;
use crate::ident::SerCompound;
use crate::ident::spec_to_query;
use crate::props::PropertySet;
use crate::props::PropsM;

verus! {

/// What the external resolver reported for one identifier: a full property
/// record, a definite "no such compound", or a failed call.
pub enum FetchOutcome {
    Fetched(PropertySet),
    NoCompound,
    Failed,
}

/// Whether some entry of the cache carries the given key.
pub open spec fn spec_contains(s: Seq<(KeyM, PropsM)>, k: KeyM) -> bool {
    exists|i: int| 0 <= i < s.len() && (#[trigger] s[i]).0 == k
}

/// The record stored under a key: the first entry that carries it.
pub open spec fn spec_find(s: Seq<(KeyM, PropsM)>, k: KeyM) -> Option<PropsM>
    decreases s.len(),
{
    if s.len() == 0 {
        None
    } else if s[0].0 == k {
        Some(s[0].1)
    } else {
        spec_find(s.skip(1), k)
    }
}

/// Unconditional insert: replaces the record at the key's entry when the
/// key is present, else appends a new entry.
pub open spec fn spec_insert(s: Seq<(KeyM, PropsM)>, k: KeyM, v: PropsM) -> Seq<(KeyM, PropsM)>
    decreases s.len(),
{
    if s.len() == 0 {
        seq![(k, v)]
    } else if s[0].0 == k {
        seq![(k, v)] + s.skip(1)
    } else {
        seq![s[0]] + spec_insert(s.skip(1), k, v)
    }
}

/// At most one entry per distinct key.
pub open spec fn distinct_keys(s: Seq<(KeyM, PropsM)>) -> bool {
    forall|i: int, j: int| 0 <= i < j < s.len() ==> (#[trigger] s[i]).0 != (#[trigger] s[j]).0
}

/// A key is contained exactly when a record is found for it.
pub proof fn lemma_find_contains(s: Seq<(KeyM, PropsM)>, k: KeyM)
    ensures
        spec_contains(s, k) <==> spec_find(s, k) is Some,
    decreases s.len(),
{
    if s.len() > 0 && s[0].0 != k {
        lemma_find_contains(s.skip(1), k);
        if spec_contains(s, k) {
            let i = choose|i: int| 0 <= i < s.len() && (#[trigger] s[i]).0 == k;
            assert(s.skip(1)[i - 1].0 == k);
        }
        if spec_contains(s.skip(1), k) {
            let i = choose|i: int| 0 <= i < s.skip(1).len() && (#[trigger] s.skip(1)[i]).0 == k;
            assert(s[i + 1].0 == k);
        }
    }
}

/// Inserting an absent key appends its entry.
pub proof fn lemma_insert_absent(s: Seq<(KeyM, PropsM)>, k: KeyM, v: PropsM)
    requires
        !spec_contains(s, k),
    ensures
        spec_insert(s, k, v) == s.push((k, v)),
    decreases s.len(),
{
    if s.len() == 0 {
        assert(spec_insert(s, k, v) =~= s.push((k, v)));
    } else {
        assert(s[0].0 != k);
        assert(!spec_contains(s.skip(1), k)) by {
            if spec_contains(s.skip(1), k) {
                let i = choose|i: int|
                    0 <= i < s.skip(1).len() && (#[trigger] s.skip(1)[i]).0 == k;
                assert(s[i + 1].0 == k);
            }
        }
        lemma_insert_absent(s.skip(1), k, v);
        assert(seq![s[0]] + s.skip(1).push((k, v)) =~= s.push((k, v)));
    }
}

/// Inserting a present key replaces the record at its (first) entry.
pub proof fn lemma_insert_at_first_index(s: Seq<(KeyM, PropsM)>, k: KeyM, v: PropsM, i: int)
    requires
        0 <= i < s.len(),
        s[i].0 == k,
        forall|j: int| 0 <= j < i ==> s[j].0 != k,
    ensures
        spec_insert(s, k, v) == s.update(i, (k, v)),
    decreases s.len(),
{
    if i == 0 {
        assert(seq![(k, v)] + s.skip(1) =~= s.update(0, (k, v)));
    } else {
        assert(s[0].0 != k);
        assert(s.skip(1)[i - 1].0 == k);
        assert(forall|j: int| 0 <= j < i - 1 ==> (#[trigger] s.skip(1)[j]).0 != k);
        lemma_insert_at_first_index(s.skip(1), k, v, i - 1);
        assert(seq![s[0]] + s.skip(1).update(i - 1, (k, v)) =~= s.update(i, (k, v)));
    }
}

/// After an insert, the inserted record is found under its key.
pub proof fn lemma_find_insert_same(s: Seq<(KeyM, PropsM)>, k: KeyM, v: PropsM)
    ensures
        spec_find(spec_insert(s, k, v), k) == Some(v),
    decreases s.len(),
{
    if s.len() == 0 {
        let t = seq![(k, v)];
        assert(spec_insert(s, k, v) == t);
        assert(t[0] == (k, v));
        assert(spec_find(t, k) == Some(v));
    } else if s[0].0 == k {
        let t = seq![(k, v)] + s.skip(1);
        assert(t[0] == (k, v));
        assert(spec_find(t, k) == Some(v));
    } else {
        lemma_find_insert_same(s.skip(1), k, v);
        let t = seq![s[0]] + spec_insert(s.skip(1), k, v);
        assert(t[0] == s[0]);
        assert(t.skip(1) =~= spec_insert(s.skip(1), k, v));
        assert(spec_find(t, k) == spec_find(spec_insert(s.skip(1), k, v), k));
    }
}

/// An insert leaves every other key's record alone.
pub proof fn lemma_find_insert_other(s: Seq<(KeyM, PropsM)>, k: KeyM, v: PropsM, k2: KeyM)
    requires
        k2 != k,
    ensures
        spec_find(spec_insert(s, k, v), k2) == spec_find(s, k2),
    decreases s.len(),
{
    if s.len() == 0 {
        let t = seq![(k, v)];
        assert(spec_insert(s, k, v) == t);
        assert(t[0].0 == k);
        assert(t.skip(1) =~= Seq::<(KeyM, PropsM)>::empty());
        assert(spec_find(t, k2) == spec_find(Seq::<(KeyM, PropsM)>::empty(), k2));
    } else if s[0].0 == k {
        let t = seq![(k, v)] + s.skip(1);
        assert(t[0] == (k, v));
        assert(t.skip(1) =~= s.skip(1));
        assert(spec_find(t, k2) == spec_find(s.skip(1), k2));
        assert(spec_find(s, k2) == spec_find(s.skip(1), k2));
    } else {
        lemma_find_insert_other(s.skip(1), k, v, k2);
        let t = seq![s[0]] + spec_insert(s.skip(1), k, v);
        assert(t[0] == s[0]);
        assert(t.skip(1) =~= spec_insert(s.skip(1), k, v));
        if s[0].0 != k2 {
            assert(spec_find(t, k2) == spec_find(spec_insert(s.skip(1), k, v), k2));
            assert(spec_find(s, k2) == spec_find(s.skip(1), k2));
        }
    }
}

/// An insert keeps keys distinct, grows the length only on an absent key,
/// and introduces no key but the inserted one.
pub proof fn lemma_insert_distinct(s: Seq<(KeyM, PropsM)>, k: KeyM, v: PropsM)
    requires
        distinct_keys(s),
    ensures
        distinct_keys(spec_insert(s, k, v)),
        spec_contains(s, k) ==> spec_insert(s, k, v).len() == s.len(),
        !spec_contains(s, k) ==> spec_insert(s, k, v).len() == s.len() + 1,
{
    lemma_find_contains(s, k);
    if spec_contains(s, k) {
        let i = choose|i: int| 0 <= i < s.len() && (#[trigger] s[i]).0 == k;
        let f = choose|f: int|
            0 <= f <= i && s[f].0 == k && forall|j: int| 0 <= j < f ==> (#[trigger] s[j]).0 != k;
        assert(exists|f: int|
            0 <= f <= i && s[f].0 == k && forall|j: int| 0 <= j < f ==> (#[trigger] s[j]).0 != k)
            by {
            assert(forall|j: int| 0 <= j < i ==> (#[trigger] s[j]).0 != k);
        }
        lemma_insert_at_first_index(s, k, v, f);
        let t = s.update(f, (k, v));
        assert forall|a: int, b: int| 0 <= a < b < t.len() implies (#[trigger] t[a]).0 != (
        #[trigger] t[b]).0 by {
            if a != f && b != f {
                assert(s[a].0 != s[b].0);
            }
        }
    } else {
        lemma_insert_absent(s, k, v);
        let t = s.push((k, v));
        assert forall|a: int, b: int| 0 <= a < b < t.len() implies (#[trigger] t[a]).0 != (
        #[trigger] t[b]).0 by {
            if b == s.len() as int {
                assert(t[b].0 == k);
                assert(t[a] == s[a]);
            } else {
                assert(s[a].0 != s[b].0);
            }
        }
    }
}

/// A record found at the first matching index is what `spec_find` yields.
proof fn lemma_find_first_index(s: Seq<(KeyM, PropsM)>, k: KeyM, i: int)
    requires
        0 <= i < s.len(),
        s[i].0 == k,
        forall|j: int| 0 <= j < i ==> s[j].0 != k,
    ensures
        spec_find(s, k) == Some(s[i].1),
    decreases s.len(),
{
    if i > 0 {
        assert(s.skip(1)[i - 1].0 == k);
        assert(forall|j: int| 0 <= j < i - 1 ==> (#[trigger] s.skip(1)[j]).0 != k);
        lemma_find_first_index(s.skip(1), k, i - 1);
    }
}

/// A key matching no entry has no record.
proof fn lemma_find_absent(s: Seq<(KeyM, PropsM)>, k: KeyM)
    requires
        forall|j: int| 0 <= j < s.len() ==> (#[trigger] s[j]).0 != k,
    ensures
        spec_find(s, k) is None,
{
    lemma_find_contains(s, k);
}

/// How a whole cache serializes: one document entry per cache entry, in
/// cache order, each carrying the identifier pair and the field row of its
/// record.
pub open spec fn spec_serialize(s: Seq<(KeyM, PropsM)>) -> Seq<EntryM> {
    s.map_values(
        |e: (KeyM, PropsM)| EntryM { ns: e.0.ns, id: e.0.id, props: spec_props_to_raw(e.1) },
    )
}

/// How a document reads back into a cache: entries are raw-inserted in
/// array order, and any malformed field row fails the whole document.
pub open spec fn spec_build(es: Seq<EntryM>) -> Option<Seq<(KeyM, PropsM)>>
    decreases es.len(),
{
    if es.len() == 0 {
        Some(Seq::<(KeyM, PropsM)>::empty())
    } else {
        match spec_build(es.drop_last()) {
            Some(s) => match spec_raw_to_props(es.last().props) {
                Some(p) => Some(
                    spec_insert(s, KeyM { ns: es.last().ns, id: es.last().id }, p),
                ),
                None => None,
            },
            None => None,
        }
    }
}

/// One malformed field row anywhere fails the whole document.
proof fn lemma_build_fails(es: Seq<EntryM>, i: int)
    requires
        0 <= i < es.len(),
        spec_raw_to_props(es[i].props) is None,
    ensures
        spec_build(es) is None,
    decreases es.len(),
{
    if i < es.len() - 1 {
        lemma_build_fails(es.drop_last(), i);
    }
}

/// The cache store: at most one property record per distinct identifier.
pub struct CompoundCache {
    entries: Vec<(SerCompound, PropertySet)>,
}

impl View for CompoundCache {
    type V = Seq<(KeyM, PropsM)>;

    closed spec fn view(&self) -> Seq<(KeyM, PropsM)> {
        self.entries@.map_values(|e: (SerCompound, PropertySet)| (e.0@, e.1@))
    }
}

impl CompoundCache {
    /// The store invariant: keys are pairwise distinct.
    pub open spec fn wf(&self) -> bool {
        distinct_keys(self@)
    }

    pub fn new() -> (r: CompoundCache)
        ensures
            r@ == Seq::<(KeyM, PropsM)>::empty(),
            r.wf(),
    {
        let r = CompoundCache { entries: Vec::new() };
        proof {
            assert(r@ =~= Seq::<(KeyM, PropsM)>::empty());
        }
        r
    }

    /// The index of the entry carrying the key, if any.
    fn find_index(&self, key: &SerCompound) -> (r: Option<usize>)
        ensures
            match r {
                Some(i) => i < self@.len() && self@[i as int].0 == key@ && (forall|j: int|
                    0 <= j < i ==> (#[trigger] self@[j]).0 != key@),
                None => forall|j: int| 0 <= j < self@.len() ==> (#[trigger] self@[j]).0 != key@,
            },
    {
        let n = self.entries.len();
        proof {
            assert(self@.len() == self.entries@.len());
        }
        let mut i: usize = 0;
        while i < n
            invariant
                i <= n,
                n == self.entries@.len(),
                self@.len() == n,
                self@ == self.entries@.map_values(
                    |e: (SerCompound, PropertySet)| (e.0@, e.1@),
                ),
                forall|j: int| 0 <= j < i ==> (#[trigger] self@[j]).0 != key@,
            decreases n - i,
        {
            let pair = &self.entries[i];
            if pair.0 == *key {
                proof {
                    assert(self@[i as int].0 == key@);
                }
                return Some(i);
            }
            proof {
                assert(self@[i as int].0 == pair.0@);
            }
            i = i + 1;
        }
        None
    }

    /// Pure local lookup: the cached record under the key, or absence.
    /// Makes no resolver request.
    pub fn get_noreq(&self, cmp: SerCompound) -> (r: Option<PropertySet>)
        ensures
            match r {
                Some(p) => spec_find(self@, cmp@) == Some(p@),
                None => spec_find(self@, cmp@) is None,
            },
    {
        match self.find_index(&cmp) {
            Some(i) => {
                proof {
                    lemma_find_first_index(self@, cmp@, i as int);
                }
                Some(self.entries[i].1.clone())
            },
            None => {
                proof {
                    lemma_find_absent(self@, cmp@);
                }
                None
            },
        }
    }

    /// Unconditional raw insert/overwrite, used by the deserializer: no
    /// fetch, no validation beyond the record's shape.
    pub fn insert(&mut self, key: SerCompound, val: PropertySet)
        ensures
            final(self)@ == spec_insert(old(self)@, key@, val@),
            old(self).wf() ==> final(self).wf(),
    {
        let ghost pre = self@;
        match self.find_index(&key) {
            Some(i) => {
                self.entries.remove(i);
                self.entries.insert(i, (key, val));
                proof {
                    assert(self@ =~= pre.update(i as int, (key@, val@)));
                    lemma_insert_at_first_index(pre, key@, val@, i as int);
                }
            },
            None => {
                self.entries.push((key, val));
                proof {
                    assert(self@ =~= pre.push((key@, val@)));
                    assert(!spec_contains(pre, key@));
                    lemma_insert_absent(pre, key@, val@);
                }
            },
        }
        proof {
            if old(self).wf() {
                lemma_insert_distinct(pre, key@, val@);
            }
        }
    }

    /// Conditional insert: a present key is left untouched without
    /// consulting the resolver's outcome; an absent key is first checked
    /// against the resolver mapping and then stored with the fetched
    /// record, or the operation fails as the outcome says.
    pub fn store(&mut self, cmp: SerCompound, fetched: FetchOutcome) -> (r: Result<
        (),
        CacheError,
    >)
        ensures
            old(self).wf() ==> final(self).wf(),
            spec_contains(old(self)@, cmp@) ==> final(self)@ == old(self)@ && r == Ok::<
                (),
                CacheError,
            >(()),
            !spec_contains(old(self)@, cmp@) ==> match spec_to_query(cmp@.ns, cmp@.id) {
                Err(e) => final(self)@ == old(self)@ && r == Err::<(), CacheError>(e),
                Ok(_) => match fetched {
                    FetchOutcome::Fetched(p) => final(self)@ == old(self)@.push((cmp@, p@))
                        && r == Ok::<(), CacheError>(()),
                    FetchOutcome::NoCompound => final(self)@ == old(self)@ && r == Err::<
                        (),
                        CacheError,
                    >(CacheError::NotFound),
                    FetchOutcome::Failed => final(self)@ == old(self)@ && r == Err::<
                        (),
                        CacheError,
                    >(CacheError::ResolutionFailed),
                },
            },
    {
        let ghost pre = self@;
        match self.find_index(&cmp) {
            Some(_) => Ok(()),
            None => {
                proof {
                    assert(!spec_contains(pre, cmp@));
                }
                match cmp.to_compound() {
                    Err(e) => Err(e),
                    Ok(_) => match fetched {
                        FetchOutcome::Fetched(p) => {
                            self.entries.push((cmp, p));
                            proof {
                                assert(self@ =~= pre.push((cmp@, p@)));
                                if old(self).wf() {
                                    lemma_insert_absent(pre, cmp@, p@);
                                    lemma_insert_distinct(pre, cmp@, p@);
                                }
                            }
                            Ok(())
                        },
                        FetchOutcome::NoCompound => Err(CacheError::NotFound),
                        FetchOutcome::Failed => Err(CacheError::ResolutionFailed),
                    },
                }
            },
        }
    }

    /// Forced overwrite: always checks the resolver mapping and stores the
    /// fetched record over whatever the key held.
    pub fn overwrite(&mut self, cmp: SerCompound, fetched: FetchOutcome) -> (r: Result<
        (),
        CacheError,
    >)
        ensures
            old(self).wf() ==> final(self).wf(),
            match spec_to_query(cmp@.ns, cmp@.id) {
                Err(e) => final(self)@ == old(self)@ && r == Err::<(), CacheError>(e),
                Ok(_) => match fetched {
                    FetchOutcome::Fetched(p) => final(self)@ == spec_insert(
                        old(self)@,
                        cmp@,
                        p@,
                    ) && r == Ok::<(), CacheError>(()),
                    FetchOutcome::NoCompound => final(self)@ == old(self)@ && r == Err::<
                        (),
                        CacheError,
                    >(CacheError::NotFound),
                    FetchOutcome::Failed => final(self)@ == old(self)@ && r == Err::<
                        (),
                        CacheError,
                    >(CacheError::ResolutionFailed),
                },
            },
    {
        match cmp.to_compound() {
            Err(e) => Err(e),
            Ok(_) => match fetched {
                FetchOutcome::Fetched(p) => {
                    self.insert(cmp, p);
                    Ok(())
                },
                FetchOutcome::NoCompound => Err(CacheError::NotFound),
                FetchOutcome::Failed => Err(CacheError::ResolutionFailed),
            },
        }
    }

    /// Get-or-fetch.  The fetch is performed eagerly by the caller even on
    /// a hit (an intentional, costly property of the design: a hit still
    /// pays the resolver call; only the map insertion is skipped).  Returns
    /// whether the key already existed, and the now-resident record: the
    /// cached one on a hit, the fetched one on a miss.
    pub fn get(&mut self, cmp: SerCompound, fetched: FetchOutcome) -> (r: Result<
        (bool, PropertySet),
        CacheError,
    >)
        ensures
            old(self).wf() ==> final(self).wf(),
            match spec_to_query(cmp@.ns, cmp@.id) {
                Err(e) => final(self)@ == old(self)@ && (r matches Err(e2) && e2 == e),
                Ok(_) => match fetched {
                    FetchOutcome::Fetched(p) => r matches Ok(pair) && (
                    if spec_contains(old(self)@, cmp@) {
                        pair.0 == true && final(self)@ == old(self)@ && spec_find(
                            old(self)@,
                            cmp@,
                        ) == Some(pair.1@)
                    } else {
                        pair.0 == false && final(self)@ == old(self)@.push((cmp@, p@))
                            && pair.1@ == p@
                    }),
                    FetchOutcome::NoCompound => final(self)@ == old(self)@ && (r matches Err(e2)
                        && e2 == CacheError::NotFound),
                    FetchOutcome::Failed => final(self)@ == old(self)@ && (r matches Err(e2)
                        && e2 == CacheError::ResolutionFailed),
                },
            },
    {
        let ghost pre = self@;
        match cmp.to_compound() {
            Err(e) => Err(e),
            Ok(_) => match fetched {
                FetchOutcome::Fetched(p) => {
                    match self.find_index(&cmp) {
                        Some(i) => {
                            proof {
                                lemma_find_first_index(pre, cmp@, i as int);
                            }
                            let cached = self.entries[i].1.clone();
                            Ok((true, cached))
                        },
                        None => {
                            proof {
                                assert(!spec_contains(pre, cmp@));
                            }
                            let resident = p.clone();
                            self.entries.push((cmp, p));
                            proof {
                                assert(self@ =~= pre.push((cmp@, resident@)));
                                if old(self).wf() {
                                    lemma_insert_absent(pre, cmp@, resident@);
                                    lemma_insert_distinct(pre, cmp@, resident@);
                                }
                            }
                            Ok((false, resident))
                        },
                    }
                },
                FetchOutcome::NoCompound => Err(CacheError::NotFound),
                FetchOutcome::Failed => Err(CacheError::ResolutionFailed),
            },
        }
    }

    /// Serializes the whole cache into the structured document, one array
    /// element per entry in cache order.
    pub fn serialize(&self) -> (d: JsonDoc)
        ensures
            d@ == spec_serialize(self@),
    {
        let n = self.entries.len();
        proof {
            assert(self@.len() == self.entries@.len());
        }
        let mut out: Vec<JsonEntry> = Vec::new();
        let mut i: usize = 0;
        while i < n
            invariant
                i <= n,
                n == self.entries@.len(),
                self@.len() == n,
                self@ == self.entries@.map_values(
                    |e: (SerCompound, PropertySet)| (e.0@, e.1@),
                ),
                out@.len() == i,
                forall|j: int| 0 <= j < i ==> (#[trigger] out@[j])@ == spec_serialize(self@)[j],
            decreases n - i,
        {
            let pair = &self.entries[i];
            let entry = JsonEntry {
                namespace: pair.0.namespace.clone(),
                identifier: pair.0.identifier.clone(),
                props: props_to_raw(&pair.1),
            };
            proof {
                assert(self@[i as int] == (pair.0@, pair.1@));
                assert(spec_serialize(self@)[i as int] == (EntryM {
                    ns: pair.0@.ns,
                    id: pair.0@.id,
                    props: spec_props_to_raw(pair.1@),
                }));
                assert(entry@ =~~= spec_serialize(self@)[i as int]);
            }
            out.push(entry);
            i = i + 1;
        }
        let d = JsonDoc { entries: out };
        proof {
            assert(d@ =~= spec_serialize(self@));
        }
        d
    }

    /// Reads a structured document back into a cache, raw-inserting the
    /// entries in array order; any malformed field row fails the whole
    /// document with `MalformedEntry`.
    pub fn from_doc(d: &JsonDoc) -> (r: Result<CompoundCache, CacheError>)
        ensures
            match r {
                Ok(c) => spec_build(d@) == Some(c@) && c.wf(),
                Err(e) => spec_build(d@) is None && e == CacheError::MalformedEntry,
            },
    {
        let mut cache = CompoundCache::new();
        let n = d.entries.len();
        proof {
            assert(d@.len() == d.entries@.len());
            assert(spec_build(d@.take(0)) =~= Some(Seq::<(KeyM, PropsM)>::empty()));
        }
        let mut i: usize = 0;
        while i < n
            invariant
                i <= n,
                n == d.entries@.len(),
                d@.len() == n,
                d@ == d.entries@.map_values(|e: JsonEntry| e@),
                spec_build(d@.take(i as int)) == Some(cache@),
                cache.wf(),
            decreases n - i,
        {
            let entry = &d.entries[i];
            proof {
                assert(d@[i as int] == entry@);
            }
            match raw_to_props(&entry.props) {
                Ok(p) => {
                    let key = SerCompound {
                        namespace: entry.namespace.clone(),
                        identifier: entry.identifier.clone(),
                    };
                    proof {
                        assert(key@ =~= KeyM { ns: entry@.ns, id: entry@.id });
                    }
                    cache.insert(key, p);
                    proof {
                        assert(d@.take(i + 1).drop_last() =~= d@.take(i as int));
                        assert(d@.take(i + 1).last() == d@[i as int]);
                    }
                },
                Err(e) => {
                    proof {
                        lemma_build_fails(d@, i as int);
                    }
                    return Err(e);
                },
            }
            i = i + 1;
        }
        proof {
            assert(d@.take(n as int) =~= d@);
        }
        Ok(cache)
    }

    /// Parses the given text as a persisted document and reads it into a
    /// fresh cache.  All-or-nothing: any fault fails the whole call, with
    /// `MalformedDocument` for a syntax fault, `MissingField` for a root
    /// object without the `cache` array, and `MalformedEntry` for a bad
    /// array element; callers are expected to fall back to an empty cache.
    pub fn deserialize(st: String) -> (r: Result<CompoundCache, CacheError>)
        ensures
            match r {
                Ok(c) => c.wf() && (crate::parse::spec_parse_document(st@) matches Ok(es)
                    && spec_build(es) == Some(c@)),
                Err(e) => e == CacheError::MalformedDocument || e == CacheError::MissingField
                    || e == CacheError::MalformedEntry,
            },
            match crate::parse::spec_parse_document(st@) {
                Ok(es) => match spec_build(es) {
                    Some(v) => (r matches Ok(c) && c@ == v),
                    None => r == Err::<CompoundCache, CacheError>(CacheError::MalformedEntry),
                },
                Err(e) => r == Err::<CompoundCache, CacheError>(e),
            },
            crate::parse::no_root_object(st@) ==> r == Err::<CompoundCache, CacheError>(
                CacheError::MalformedDocument,
            ),
            crate::parse::empty_root_object(st@) ==> r == Err::<CompoundCache, CacheError>(
                CacheError::MissingField,
            ),
    {
        match crate::parse::parse_document(st.as_str()) {
            Ok(d) => CompoundCache::from_doc(&d),
            Err(e) => Err(e),
        }
    }
}

/// Round trip at the document level: a cache with distinct keys,
/// serialized into the structured document and read back from it, yields
/// the very same entries — same key set, same field values, including the
/// string-precision numeric fields and an absent IUPAC name.  (The text
/// layer around it is exercised by the crate's tests.)
pub proof fn lemma_store_round_trip(s: Seq<(KeyM, PropsM)>)
    requires
        distinct_keys(s),
    ensures
        spec_build(spec_serialize(s)) == Some(s),
    decreases s.len(),
{
    if s.len() == 0 {
        assert(spec_serialize(s) =~= Seq::<EntryM>::empty());
    } else {
        let pre = s.drop_last();
        let lastkey = s.last().0;
        let lastval = s.last().1;
        assert(distinct_keys(pre)) by {
            assert(forall|i: int, j: int|
                0 <= i < j < pre.len() ==> (#[trigger] pre[i]).0 != (#[trigger] pre[j]).0);
        }
        lemma_store_round_trip(pre);
        let es = spec_serialize(s);
        assert(es.drop_last() =~= spec_serialize(pre));
        assert(es.last() == EntryM {
            ns: lastkey.ns,
            id: lastkey.id,
            props: spec_props_to_raw(lastval),
        });
        crate::doc::lemma_raw_round_trip(lastval);
        assert(KeyM { ns: lastkey.ns, id: lastkey.id } =~= lastkey);
        assert(!spec_contains(pre, lastkey)) by {
            if spec_contains(pre, lastkey) {
                let i = choose|i: int|
                    0 <= i < pre.len() && (#[trigger] pre[i]).0 == lastkey;
                assert(s[i].0 == s[s.len() - 1].0);
            }
        }
        lemma_insert_absent(pre, lastkey, lastval);
        assert(pre.push((lastkey, lastval)) =~= s);
    }
}

/// Conditional insert keeps the first stored record: after a first `store`
/// of a fresh key has inserted its fetched record, the key is present, so
/// a second `store` of the same key leaves the cache unchanged whatever
/// its resolver outcome says, and the first record remains.
pub proof fn lemma_store_first_call_wins(s: Seq<(KeyM, PropsM)>, k: KeyM, p1: PropsM)
    requires
        !spec_contains(s, k),
    ensures
        spec_contains(s.push((k, p1)), k),
        spec_find(s.push((k, p1)), k) == Some(p1),
{
    let t = s.push((k, p1));
    assert(t[s.len() as int].0 == k);
    lemma_insert_absent(s, k, p1);
    lemma_find_insert_same(s, k, p1);
}

/// Forced overwrite takes the second record: overwriting the same key
/// twice leaves the record of the second call.
pub proof fn lemma_overwrite_second_call_wins(s: Seq<(KeyM, PropsM)>, k: KeyM, p1: PropsM, p2: PropsM)
    ensures
        spec_find(spec_insert(spec_insert(s, k, p1), k, p2), k) == Some(p2),
{
    lemma_find_insert_same(spec_insert(s, k, p1), k, p2);
}

/// Hit/miss flag: a fresh key reads as a miss, and after the miss has
/// inserted its record the same key reads as a hit.
pub proof fn lemma_get_hit_flag(s: Seq<(KeyM, PropsM)>, k: KeyM, p: PropsM)
    requires
        !spec_contains(s, k),
    ensures
        spec_contains(s.push((k, p)), k),
{
    assert(s.push((k, p))[s.len() as int].0 == k);
}

/// Namespace non-unification: a name-keyed entry and a SMILES-keyed entry
/// coexist as two distinct entries, each under its own key, even if they
/// denote the same molecule.
pub proof fn lemma_namespace_non_unification(
    s: Seq<(KeyM, PropsM)>,
    id1: Seq<char>,
    id2: Seq<char>,
    p1: PropsM,
    p2: PropsM,
)
    requires
        distinct_keys(s),
        !spec_contains(s, (KeyM { ns: "name"@, id: id1 })),
        !spec_contains(s, (KeyM { ns: "smiles"@, id: id2 })),
    ensures
        ({
            let k1 = KeyM { ns: "name"@, id: id1 };
            let k2 = KeyM { ns: "smiles"@, id: id2 };
            let both = spec_insert(spec_insert(s, k1, p1), k2, p2);
            spec_find(both, k1) == Some(p1) && spec_find(both, k2) == Some(p2) && both.len()
                == s.len() + 2
        }),
{
    broadcast use vstd::string::group_string_axioms;

    reveal_strlit("name");
    reveal_strlit("smiles");
    assert("name"@.len() == 4);
    assert("smiles"@.len() == 6);
    let k1 = KeyM { ns: "name"@, id: id1 };
    let k2 = KeyM { ns: "smiles"@, id: id2 };
    assert(k1 != k2);
    let one = spec_insert(s, k1, p1);
    lemma_insert_absent(s, k1, p1);
    lemma_insert_distinct(s, k1, p1);
    assert(!spec_contains(one, k2)) by {
        if spec_contains(one, k2) {
            let i = choose|i: int| 0 <= i < one.len() && (#[trigger] one[i]).0 == k2;
            if i < s.len() {
                assert(s[i].0 == k2);
            }
        }
    }
    lemma_insert_absent(one, k2, p2);
    lemma_find_insert_same(s, k1, p1);
    lemma_find_insert_other(one, k2, p2, k1);
    lemma_find_insert_same(one, k2, p2);
}

} // verus!
