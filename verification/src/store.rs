//! The entity-agnostic store engine.
//!
//! `ModelStore` keeps field-map records in named collections and exposes the
//! five operations every entity controller delegates to: create, get, merge
//! (partial update), delete and select. The engine never branches on an
//! entity: a controller supplies only the collection name, the payload field
//! map and the marshaling of returned records.
//!
//! Identifiers are store-assigned from one monotonic counter (`next_seq`):
//! the `n`-th created record of collection `t` is `t:<n>`, its creation time
//! is `n`. The counter is shared by all collections, so creation times are
//! strictly increasing in insertion order and identifiers are unique per
//! collection (`lemma_hit_unique`).

use vstd::prelude::*;

verus! {

use crate::decstr::{id_chars, lemma_id_chars_injective, make_id};
use crate::error::{Error, ErrorV};
use crate::filter::{nodes_match, nodes_match_exec, nodes_view, FilterNode, FilterNodeV};
use crate::strutil::str_eq;
use crate::vals::{FieldMap, Val, ValV};
use vstd::string::StringExecFns;

/// The largest counter value the store accepts: creation times are surfaced
/// as signed 64-bit epochs, so the counter stays below `i64::MAX`.
pub const SEQ_LIMIT: u64 = 0x7fff_ffff_ffff_ffff;

/// One stored record: its collection, its creation rank, its assigned
/// identifier and its payload fields.
pub struct Record {
    pub table: String,
    pub seq: u64,
    pub id: String,
    pub fields: FieldMap,
}

/// The mathematical value of a `Record`.
#[verifier::ext_equal]
pub struct RecordV {
    pub table: Seq<char>,
    pub seq: nat,
    pub id: Seq<char>,
    pub fields: Map<Seq<char>, ValV>,
}

impl View for Record {
    type V = RecordV;

    open spec fn view(&self) -> RecordV {
        RecordV { table: self.table@, seq: self.seq as nat, id: self.id@, fields: self.fields@ }
    }
}

/// The mathematical value of a `ModelStore`.
#[verifier::ext_equal]
pub struct StoreV {
    pub recs: Seq<RecordV>,
    pub next_seq: nat,
}

/// The store handle: one long-lived connection to the document store,
/// shared by every controller.
pub struct ModelStore {
    pub records: Vec<Record>,
    pub next_seq: u64,
}

impl View for ModelStore {
    type V = StoreV;

    open spec fn view(&self) -> StoreV {
        StoreV {
            recs: self.records@.map_values(|r: Record| r@),
            next_seq: self.next_seq as nat,
        }
    }
}

/// Well-formedness of the store: the counter is in range and unspent, every
/// identifier is the one the counter assigned, and creation ranks strictly
/// increase in insertion order.
pub open spec fn store_wf(s: StoreV) -> bool {
    &&& s.next_seq <= SEQ_LIMIT as nat
    &&& forall|i: int| 0 <= i < s.recs.len() ==> (#[trigger] s.recs[i]).seq < s.next_seq
    &&& forall|i: int|
        0 <= i < s.recs.len() ==> (#[trigger] s.recs[i]).id == id_chars(
            s.recs[i].table,
            s.recs[i].seq,
        )
    &&& forall|i: int, j: int|
        0 <= i < j < s.recs.len() ==> (#[trigger] s.recs[i]).seq < (#[trigger] s.recs[j]).seq
}

/// Record `i` of the store is the one collection `table` holds under `id`.
pub open spec fn hit(s: StoreV, table: Seq<char>, id: Seq<char>, i: int) -> bool {
    0 <= i < s.recs.len() && s.recs[i].table == table && s.recs[i].id == id
}

/// Some record of collection `table` bears `id`.
pub open spec fn spec_found(s: StoreV, table: Seq<char>, id: Seq<char>) -> bool {
    exists|i: int| hit(s, table, id, i)
}

/// Within one collection an identifier names at most one record.
pub proof fn lemma_hit_unique(s: StoreV, table: Seq<char>, id: Seq<char>, i: int, j: int)
    requires
        store_wf(s),
        hit(s, table, id, i),
        hit(s, table, id, j),
    ensures
        i == j,
{
    lemma_id_chars_injective(table, s.recs[i].seq, s.recs[j].seq);
}

/// The record as callers see it: the payload fields plus the store-assigned
/// `id` and `ctime`.
pub open spec fn object_of(r: RecordV) -> Map<Seq<char>, ValV> {
    r.fields.insert("id"@, ValV::Str(r.id)).insert("ctime"@, ValV::Int(r.seq as int))
}

/// The store after a successful create: the new record appended, the
/// counter advanced.
pub open spec fn spec_create_store(s: StoreV, table: Seq<char>, m: Map<Seq<char>, ValV>) -> StoreV {
    StoreV {
        recs: s.recs.push(
            RecordV { table, seq: s.next_seq, id: id_chars(table, s.next_seq), fields: m },
        ),
        next_seq: s.next_seq + 1,
    }
}

/// What get returns: the stored record's object, or `NotFound`.
pub open spec fn spec_get(s: StoreV, table: Seq<char>, id: Seq<char>) -> Result<
    Map<Seq<char>, ValV>,
    ErrorV,
> {
    if spec_found(s, table, id) {
        Ok(object_of(s.recs[choose|i: int| hit(s, table, id, i)]))
    } else {
        Err(ErrorV::NotFound)
    }
}

/// What a partial update does: the target record's fields patched (the
/// payload's fields win, all others stay), everything else untouched; or
/// `NotFound` and an unchanged store.
pub open spec fn spec_update(
    s: StoreV,
    table: Seq<char>,
    id: Seq<char>,
    patch: Map<Seq<char>, ValV>,
) -> (StoreV, Result<Seq<char>, ErrorV>) {
    if spec_found(s, table, id) {
        let i = choose|i: int| hit(s, table, id, i);
        let r0 = s.recs[i];
        let r1 = RecordV {
            table: r0.table,
            seq: r0.seq,
            id: r0.id,
            fields: r0.fields.union_prefer_right(patch),
        };
        (StoreV { recs: s.recs.update(i, r1), next_seq: s.next_seq }, Ok(id))
    } else {
        (s, Err(ErrorV::NotFound))
    }
}

/// What delete does: the target record removed; or `NotFound` and an
/// unchanged store.
pub open spec fn spec_delete(s: StoreV, table: Seq<char>, id: Seq<char>) -> (
    StoreV,
    Result<Seq<char>, ErrorV>,
) {
    if spec_found(s, table, id) {
        let i = choose|i: int| hit(s, table, id, i);
        (StoreV { recs: s.recs.remove(i), next_seq: s.next_seq }, Ok(id))
    } else {
        (s, Err(ErrorV::NotFound))
    }
}

/// A record belongs to the listed collection and passes the filter (no
/// filter means every record of the collection passes).
pub open spec fn rec_passes(
    r: RecordV,
    table: Seq<char>,
    nodes: Option<Seq<FilterNodeV>>,
) -> bool {
    r.table == table && match nodes {
        Option::None => true,
        Option::Some(ns) => nodes_match(object_of(r), ns),
    }
}

/// The passing records, in insertion order.
pub open spec fn selected(
    recs: Seq<RecordV>,
    table: Seq<char>,
    nodes: Option<Seq<FilterNodeV>>,
) -> Seq<RecordV>
    decreases recs.len(),
{
    if recs.len() == 0 {
        Seq::empty()
    } else {
        selected(recs.drop_last(), table, nodes) + (if rec_passes(recs.last(), table, nodes) {
            seq![recs.last()]
        } else {
            Seq::<RecordV>::empty()
        })
    }
}

/// Ordering of a listing, by creation time.
#[derive(Clone, Copy, PartialEq, Eq, Structural, Debug)]
pub enum OrderBy {
    CtimeAsc,
    CtimeDesc,
}

/// Listing options: an optional cap, an optional skip, and the ordering
/// (`None` means insertion order, which equals ascending creation time).
#[derive(Clone, Copy)]
pub struct ListOptions {
    pub limit: Option<u64>,
    pub offset: Option<u64>,
    pub order_bys: Option<OrderBy>,
}

impl Default for ListOptions {
    /// No cap, no skip, insertion order.
    fn default() -> (r: ListOptions)
        ensures
            r.limit is None,
            r.offset is None,
            r.order_bys is None,
    {
        ListOptions { limit: None, offset: None, order_bys: None }
    }
}

/// Where the page starts: the offset, clipped to the length.
pub open spec fn page_start(len: nat, offset: Option<u64>) -> int {
    match offset {
        Option::Some(o) => if o as int <= len as int {
            o as int
        } else {
            len as int
        },
        Option::None => 0,
    }
}

/// Where the page ends: `start + limit`, clipped to the length.
pub open spec fn page_end(len: nat, start: int, limit: Option<u64>) -> int {
    match limit {
        Option::Some(l) => if start + l <= len as int {
            start + l
        } else {
            len as int
        },
        Option::None => len as int,
    }
}

/// The listed page of a sequence of record objects.
pub open spec fn page(
    objs: Seq<Map<Seq<char>, ValV>>,
    offset: Option<u64>,
    limit: Option<u64>,
) -> Seq<Map<Seq<char>, ValV>> {
    let start = page_start(objs.len(), offset);
    objs.subrange(start, page_end(objs.len(), start, limit))
}

/// The objects of a list of records.
pub open spec fn recs_objs(s: Seq<RecordV>) -> Seq<Map<Seq<char>, ValV>> {
    s.map_values(|r: RecordV| object_of(r))
}

/// The mathematical values of a list of returned records.
pub open spec fn objs_view(s: Seq<FieldMap>) -> Seq<Map<Seq<char>, ValV>> {
    s.map_values(|f: FieldMap| f@)
}

/// What select returns: the passing records of the collection, ordered by
/// creation time as asked (insertion order unless descending), as objects,
/// then the asked page of them.
pub open spec fn spec_select(
    s: StoreV,
    table: Seq<char>,
    nodes: Option<Seq<FilterNodeV>>,
    opts: ListOptions,
) -> Seq<Map<Seq<char>, ValV>> {
    let sel = selected(s.recs, table, nodes);
    let ord = if opts.order_bys == Some(OrderBy::CtimeDesc) {
        sel.reverse()
    } else {
        sel
    };
    page(recs_objs(ord), opts.offset, opts.limit)
}

/// The compiled filter a select call carries, as a mathematical value.
pub open spec fn opt_nodes_view(nodes: &Option<Vec<FilterNode>>) -> Option<Seq<FilterNodeV>> {
    match *nodes {
        Option::Some(ns) => Option::Some(nodes_view(ns@)),
        Option::None => Option::None,
    }
}

/// The id of the record a mutation touched: create, update and delete
/// return only this, never the record.
pub struct ModelMutateResultData {
    pub id: String,
}

impl ModelStore {
    /// A fresh store: no records, the counter at one.
    pub fn new() -> (s: ModelStore)
        ensures
            s@ == (StoreV { recs: Seq::<RecordV>::empty(), next_seq: 1 as nat }),
            store_wf(s@),
    {
        let s = ModelStore { records: Vec::new(), next_seq: 1 };
        proof {
            assert(s@.recs =~= Seq::<RecordV>::empty());
            assert(s@ =~= (StoreV { recs: Seq::<RecordV>::empty(), next_seq: 1 as nat }));
        }
        s
    }

    /// Looks the record up by collection and id.
    fn find_index(&self, table: &str, id: &str) -> (r: Option<usize>)
        ensures
            match r {
                Some(i) => hit(self@, table@, id@, i as int),
                None => !spec_found(self@, table@, id@),
            },
    {
        let mut i: usize = 0;
        while i < self.records.len()
            invariant
                i <= self.records.len(),
                forall|k: int| 0 <= k < i ==> !hit(self@, table@, id@, k),
            decreases self.records.len() - i,
        {
            if str_eq(self.records[i].table.as_str(), table) && str_eq(
                self.records[i].id.as_str(),
                id,
            ) {
                proof {
                    assert(self@.recs[i as int] == self.records@[i as int]@);
                }
                return Some(i);
            }
            proof {
                assert(self@.recs[i as int] == self.records@[i as int]@);
            }
            i += 1;
        }
        None
    }

    /// The record as callers see it: payload fields plus `id` and `ctime`.
    fn build_object(rec: &Record) -> (o: FieldMap)
        requires
            rec.seq < SEQ_LIMIT,
        ensures
            o@ == object_of(rec@),
    {
        let mut o = rec.fields.dup();
        o.set("id", Val::Str(rec.id.clone()));
        o.set("ctime", Val::Int(rec.seq as i64));
        o
    }

    /// Inserts a new record into the named collection and returns its
    /// store-assigned id. Fails with `StoreFail` only when the backend is
    /// out of identifiers.
    pub fn exec_create(&mut self, table: &str, data: FieldMap) -> (r: Result<String, Error>)
        requires
            store_wf(old(self)@),
        ensures
            store_wf(final(self)@),
            old(self)@.next_seq < SEQ_LIMIT as nat ==> {
                &&& final(self)@ == spec_create_store(old(self)@, table@, data@)
                &&& r matches Ok(id) && id@ == id_chars(table@, old(self)@.next_seq)
            },
            old(self)@.next_seq >= SEQ_LIMIT as nat ==> {
                &&& final(self)@ == old(self)@
                &&& r matches Err(e) && e@ == ErrorV::StoreFail
            },
    {
        if self.next_seq >= SEQ_LIMIT {
            return Err(Error::StoreFail);
        }
        let seq = self.next_seq;
        let id = make_id(table, seq);
        let rec = Record {
            table: String::from_str(table),
            seq,
            id: id.clone(),
            fields: data,
        };
        self.records.push(rec);
        self.next_seq = seq + 1;
        proof {
            let sv = spec_create_store(old(self)@, table@, data@);
            assert(self@.recs =~= old(self)@.recs.push(
                RecordV {
                    table: table@,
                    seq: seq as nat,
                    id: id_chars(table@, seq as nat),
                    fields: data@,
                },
            ));
            assert(self@ =~= sv);
            assert forall|i: int, j: int| 0 <= i < j < self@.recs.len() implies (
            #[trigger] self@.recs[i]).seq < (#[trigger] self@.recs[j]).seq by {
                if j < self@.recs.len() - 1 {
                    assert(old(self)@.recs[j].seq < old(self)@.next_seq);
                }
            }
        }
        Ok(id)
    }

    /// Fetches the record of the named collection under `id`; `NotFound`
    /// exactly when the collection has no such record.
    pub fn exec_get(&self, table: &str, id: &str) -> (r: Result<FieldMap, Error>)
        requires
            store_wf(self@),
        ensures
            match spec_get(self@, table@, id@) {
                Ok(o) => r matches Ok(f) && f@ == o,
                Err(e) => r matches Err(er) && er@ == e,
            },
    {
        match self.find_index(table, id) {
            Some(i) => {
                proof {
                    let j = choose|j: int| hit(self@, table@, id@, j);
                    lemma_hit_unique(self@, table@, id@, i as int, j);
                    assert(self@.recs[i as int] == self.records@[i as int]@);
                }
                let o = Self::build_object(&self.records[i]);
                Ok(o)
            },
            None => Err(Error::NotFound),
        }
    }

    /// Patches the record of the named collection under `id`: the payload's
    /// fields win, all other fields keep their value; `NotFound` exactly
    /// when the collection has no such record. An empty payload is a valid
    /// call and succeeds without changing the record.
    pub fn exec_merge(&mut self, table: &str, id: &str, data: FieldMap) -> (r: Result<
        String,
        Error,
    >)
        requires
            store_wf(old(self)@),
        ensures
            store_wf(final(self)@),
            final(self)@ == spec_update(old(self)@, table@, id@, data@).0,
            match spec_update(old(self)@, table@, id@, data@).1 {
                Ok(rid) => r matches Ok(s) && s@ == rid,
                Err(e) => r matches Err(er) && er@ == e,
            },
    {
        match self.find_index(table, id) {
            Some(i) => {
                proof {
                    let j = choose|j: int| hit(old(self)@, table@, id@, j);
                    lemma_hit_unique(old(self)@, table@, id@, i as int, j);
                }
                let mut rec = self.records.remove(i);
                rec.fields.merge(&data);
                self.records.insert(i, rec);
                proof {
                    let up = spec_update(old(self)@, table@, id@, data@);
                    assert(self@.recs =~= up.0.recs);
                    assert(self@ =~= up.0);
                    assert forall|a: int|
                        0 <= a < self@.recs.len() implies (#[trigger] self@.recs[a]).seq == old(
                        self,
                    )@.recs[a].seq && self@.recs[a].id == old(self)@.recs[a].id
                        && self@.recs[a].table == old(self)@.recs[a].table by {}
                }
                Ok(String::from_str(id))
            },
            None => Err(Error::NotFound),
        }
    }

    /// Removes the record of the named collection under `id`; `NotFound`
    /// exactly when the collection has no such record.
    pub fn exec_delete(&mut self, table: &str, id: &str) -> (r: Result<String, Error>)
        requires
            store_wf(old(self)@),
        ensures
            store_wf(final(self)@),
            final(self)@ == spec_delete(old(self)@, table@, id@).0,
            match spec_delete(old(self)@, table@, id@).1 {
                Ok(rid) => r matches Ok(s) && s@ == rid,
                Err(e) => r matches Err(er) && er@ == e,
            },
    {
        match self.find_index(table, id) {
            Some(i) => {
                proof {
                    let j = choose|j: int| hit(old(self)@, table@, id@, j);
                    lemma_hit_unique(old(self)@, table@, id@, i as int, j);
                }
                self.records.remove(i);
                proof {
                    let dl = spec_delete(old(self)@, table@, id@);
                    assert(self@.recs =~= dl.0.recs);
                    assert(self@ =~= dl.0);
                }
                Ok(String::from_str(id))
            },
            None => Err(Error::NotFound),
        }
    }

    /// Lists the records of the named collection that pass the compiled
    /// filter (all of them when there is none), ordered and paged as the
    /// options ask. An empty result is a valid success.
    pub fn exec_select(
        &self,
        table: &str,
        nodes: Option<Vec<FilterNode>>,
        opts: ListOptions,
    ) -> (r: Result<Vec<FieldMap>, Error>)
        requires
            store_wf(self@),
        ensures
            r matches Ok(v) && objs_view(v@) == spec_select(
                self@,
                table@,
                opt_nodes_view(&nodes),
                opts,
            ),
    {
        let ghost nv: Option<Seq<FilterNodeV>> = opt_nodes_view(&nodes);
        let mut asc: Vec<FieldMap> = Vec::new();
        let mut i: usize = 0;
        proof {
            assert(self@.recs.take(0) =~= Seq::<RecordV>::empty());
            assert(objs_view(asc@) =~= recs_objs(selected(self@.recs.take(0), table@, nv)));
        }
        while i < self.records.len()
            invariant
                store_wf(self@),
                i <= self.records.len(),
                nv == opt_nodes_view(&nodes),
                objs_view(asc@) == recs_objs(selected(self@.recs.take(i as int), table@, nv)),
            decreases self.records.len() - i,
        {
            proof {
                assert(self@.recs[i as int] == self.records@[i as int]@);
                assert(self@.recs.take(i + 1).drop_last() =~= self@.recs.take(i as int));
                assert(self@.recs.take(i + 1).last() == self@.recs[i as int]);
            }
            let rec = &self.records[i];
            let obj = Self::build_object(rec);
            let passes = if str_eq(rec.table.as_str(), table) {
                match &nodes {
                    Some(ns) => nodes_match_exec(&obj, ns),
                    None => true,
                }
            } else {
                false
            };
            proof {
                assert(passes == rec_passes(self@.recs[i as int], table@, nv));
            }
            if passes {
                asc.push(obj);
                proof {
                    let pre = selected(self@.recs.take(i as int), table@, nv);
                    let post = selected(self@.recs.take(i + 1), table@, nv);
                    assert(post =~= pre + seq![self@.recs[i as int]]);
                    assert(recs_objs(post) =~= recs_objs(pre).push(
                        object_of(self@.recs[i as int]),
                    ));
                    assert(objs_view(asc@) =~= recs_objs(post));
                }
            } else {
                proof {
                    assert(selected(self@.recs.take(i + 1), table@, nv) =~= selected(
                        self@.recs.take(i as int),
                        table@,
                        nv,
                    ));
                }
            }
            i += 1;
        }
        proof {
            assert(self@.recs.take(self@.recs.len() as int) =~= self@.recs);
        }
        let ghost sel = selected(self@.recs, table@, nv);
        let desc = match opts.order_bys {
            Some(OrderBy::CtimeDesc) => true,
            _ => false,
        };
        let ordered = if desc {
            Self::reverse_objects(asc)
        } else {
            asc
        };
        let ghost ordv = if opts.order_bys == Some(OrderBy::CtimeDesc) {
            sel.reverse()
        } else {
            sel
        };
        proof {
            if desc {
                assert(objs_view(ordered@) =~= recs_objs(sel).reverse());
                assert(recs_objs(sel).reverse() =~= recs_objs(sel.reverse()));
            }
            assert(objs_view(ordered@) == recs_objs(ordv));
        }
        let ghost objs = objs_view(ordered@);
        let len = ordered.len();
        let start: usize = match opts.offset {
            Some(o) => if o >= len as u64 {
                len
            } else {
                o as usize
            },
            None => 0,
        };
        let end: usize = match opts.limit {
            Some(l) => if l >= (len - start) as u64 {
                len
            } else {
                start + l as usize
            },
            None => len,
        };
        proof {
            assert(objs.len() == len as nat);
            assert(start as int == page_start(objs.len(), opts.offset));
            assert(end as int == page_end(objs.len(), start as int, opts.limit));
        }
        let mut out: Vec<FieldMap> = Vec::new();
        let mut k: usize = start;
        proof {
            assert(objs_view(out@) =~= objs.subrange(start as int, start as int));
        }
        while k < end
            invariant
                start <= k <= end,
                end <= ordered.len(),
                objs == objs_view(ordered@),
                objs_view(out@) == objs.subrange(start as int, k as int),
            decreases end - k,
        {
            let ghost prevout = out@;
            let x = ordered[k].dup();
            proof {
                assert(x@ == ordered@[k as int]@);
                assert(x@ == objs[k as int]);
            }
            out.push(x);
            proof {
                assert(out@ == prevout.push(x));
                assert(0 <= start as int <= k as int <= objs.len());
                assert(objs.subrange(start as int, k as int).len() == k - start);
                assert(objs_view(prevout).len() == k - start);
                assert(out@.len() == prevout.len() + 1);
                assert(objs_view(out@).len() == k + 1 - start);
                assert forall|m: int| 0 <= m < out@.len() implies objs_view(out@)[m]
                    == objs.subrange(start as int, k + 1)[m] by {
                    if m < out@.len() - 1 {
                        assert(objs_view(prevout)[m] == objs.subrange(start as int, k as int)[m]);
                    }
                }
                assert(objs_view(out@) =~= objs.subrange(start as int, k + 1));
            }
            k += 1;
        }
        proof {
            assert(objs_view(out@) =~= page(objs, opts.offset, opts.limit));
            assert(page(objs, opts.offset, opts.limit) == spec_select(
                self@,
                table@,
                nv,
                opts,
            ));
        }
        Ok(out)
    }

    /// Reverses a listing.
    fn reverse_objects(v: Vec<FieldMap>) -> (r: Vec<FieldMap>)
        ensures
            r@ == v@.reverse(),
    {
        let ghost orig = v@;
        let mut v = v;
        let mut out: Vec<FieldMap> = Vec::new();
        proof {
            assert(v@ =~= orig.take(v@.len() as int));
            assert(out@ =~= orig.skip(v@.len() as int).reverse());
        }
        while v.len() > 0
            invariant
                v@.len() <= orig.len(),
                v@ == orig.take(v@.len() as int),
                out@ == orig.skip(v@.len() as int).reverse(),
            decreases v.len(),
        {
            let ghost l = v@.len() as int;
            let x = v.pop().unwrap();
            out.push(x);
            proof {
                assert(v@ =~= orig.take(l - 1));
                assert(x == orig[l - 1]);
                assert(out@ =~= orig.skip(l - 1).reverse());
            }
        }
        proof {
            assert(orig.skip(0) =~= orig);
        }
        out
    }
}

} // verus!
