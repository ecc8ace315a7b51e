//! The Station entity: model, payload shapes, filter and controller.
//!
//! A Station is stored under the `station` collection with the payload
//! fields `system_id`, `title`, `visible` and (optionally) `desc`. A create
//! payload that omits `visible` stores `true`: the documented default. The
//! controller fixes the collection name and the default listing order,
//! newest first by creation time.

use vstd::prelude::*;

verus! {

use crate::decstr::dec_chars_int;
use crate::decstr::id_chars;
use crate::error::{Error, ErrorV};
use crate::filter::{nodes_view, FilterNode, FilterNodeV, OpValsString};
use crate::store::{
    objs_view, opt_nodes_view, spec_create_store, spec_delete, spec_get, spec_select, spec_update,
    store_wf, ListOptions, ModelMutateResultData, ModelStore, OrderBy, StoreV, SEQ_LIMIT,
};
use crate::vals::{FieldMap, Val, ValV};
use vstd::string::StringExecFns;

/// A Station record as callers see it.
pub struct Station {
    pub id: String,
    pub ctime: String,
    pub system_id: String,
    pub visible: bool,
    pub title: String,
    pub desc: Option<String>,
}

/// The mathematical value of a `Station`.
#[verifier::ext_equal]
pub struct StationV {
    pub id: Seq<char>,
    pub ctime: Seq<char>,
    pub system_id: Seq<char>,
    pub visible: bool,
    pub title: Seq<char>,
    pub desc: Option<Seq<char>>,
}

impl View for Station {
    type V = StationV;

    open spec fn view(&self) -> StationV {
        StationV {
            id: self.id@,
            ctime: self.ctime@,
            system_id: self.system_id@,
            visible: self.visible,
            title: self.title@,
            desc: match self.desc {
                Option::Some(d) => Option::Some(d@),
                Option::None => Option::None,
            },
        }
    }
}

/// The mathematical values of a list of Stations.
pub open spec fn stations_view(s: Seq<Station>) -> Seq<StationV> {
    s.map_values(|x: Station| x@)
}

/// The create payload of a Station: `visible` and `desc` are optional.
pub struct StationForCreate {
    pub system_id: String,
    pub title: String,
    pub visible: Option<bool>,
    pub desc: Option<String>,
}

/// The field map a create payload stores: an omitted `visible` defaults to
/// `true`; an omitted `desc` is not stored at all.
pub open spec fn sta_create_map(
    system_id: Seq<char>,
    title: Seq<char>,
    visible: Option<bool>,
    desc: Option<Seq<char>>,
) -> Map<Seq<char>, ValV> {
    let m = Map::empty().insert("system_id"@, ValV::Str(system_id)).insert(
        "title"@,
        ValV::Str(title),
    ).insert(
        "visible"@,
        ValV::Bool(
            match visible {
                Option::Some(b) => b,
                Option::None => true,
            },
        ),
    );
    match desc {
        Option::Some(d) => m.insert("desc"@, ValV::Str(d)),
        Option::None => m,
    }
}

/// The create payload's field map, over the payload itself.
pub open spec fn sta_create_map_of(d: StationForCreate) -> Map<Seq<char>, ValV> {
    sta_create_map(
        d.system_id@,
        d.title@,
        d.visible,
        match d.desc {
            Option::Some(x) => Option::Some(x@),
            Option::None => Option::None,
        },
    )
}

impl StationForCreate {
    /// Converts the payload into the field map the engine stores, applying
    /// the `visible` default.
    pub fn into_field_map(self) -> (m: FieldMap)
        ensures
            m@ == sta_create_map_of(self),
    {
        let mut m = FieldMap::new();
        m.set("system_id", Val::Str(self.system_id));
        m.set("title", Val::Str(self.title));
        let vis = match self.visible {
            Some(b) => b,
            None => true,
        };
        m.set("visible", Val::Bool(vis));
        match self.desc {
            Some(d) => m.set("desc", Val::Str(d)),
            None => (),
        }
        m
    }
}

/// The update payload of a Station: every field optional, absent fields
/// are left untouched.
pub struct StationForUpdate {
    pub title: Option<String>,
    pub visible: Option<bool>,
    pub desc: Option<String>,
}

/// The partial field map an update payload writes: only present fields.
pub open spec fn sta_update_map(
    title: Option<Seq<char>>,
    visible: Option<bool>,
    desc: Option<Seq<char>>,
) -> Map<Seq<char>, ValV> {
    let m0 = Map::<Seq<char>, ValV>::empty();
    let m1 = match title {
        Option::Some(t) => m0.insert("title"@, ValV::Str(t)),
        Option::None => m0,
    };
    let m2 = match visible {
        Option::Some(b) => m1.insert("visible"@, ValV::Bool(b)),
        Option::None => m1,
    };
    match desc {
        Option::Some(d) => m2.insert("desc"@, ValV::Str(d)),
        Option::None => m2,
    }
}

/// The update payload's field map, over the payload itself.
pub open spec fn sta_update_map_of(d: StationForUpdate) -> Map<Seq<char>, ValV> {
    sta_update_map(
        match d.title {
            Option::Some(t) => Option::Some(t@),
            Option::None => Option::None,
        },
        d.visible,
        match d.desc {
            Option::Some(x) => Option::Some(x@),
            Option::None => Option::None,
        },
    )
}

impl StationForUpdate {
    /// Converts the payload into the partial field map the engine merges.
    pub fn into_field_map(self) -> (m: FieldMap)
        ensures
            m@ == sta_update_map_of(self),
    {
        let mut m = FieldMap::new();
        match self.title {
            Some(t) => m.set("title", Val::Str(t)),
            None => (),
        }
        match self.visible {
            Some(b) => m.set("visible", Val::Bool(b)),
            None => (),
        }
        match self.desc {
            Some(d) => m.set("desc", Val::Str(d)),
            None => (),
        }
        m
    }
}

/// What marshaling a stored record into a `Station` yields: each declared
/// field is read by name, in order `id`, `ctime`, `system_id`, `visible`,
/// `title`, `desc`; a missing required field or one of the wrong type
/// aborts the whole conversion. `desc` is optional: absence is `None`, not
/// an error. The stored integer creation time is surfaced as its decimal
/// string.
pub open spec fn spec_station_from_object(o: Map<Seq<char>, ValV>) -> Result<StationV, ErrorV> {
    if !o.contains_key("id"@) {
        Err(ErrorV::ConversionMissing { field: "id"@ })
    } else if !(o["id"@] is Str) {
        Err(ErrorV::ConversionMismatch { field: "id"@ })
    } else if !o.contains_key("ctime"@) {
        Err(ErrorV::ConversionMissing { field: "ctime"@ })
    } else if !(o["ctime"@] is Int) {
        Err(ErrorV::ConversionMismatch { field: "ctime"@ })
    } else if !o.contains_key("system_id"@) {
        Err(ErrorV::ConversionMissing { field: "system_id"@ })
    } else if !(o["system_id"@] is Str) {
        Err(ErrorV::ConversionMismatch { field: "system_id"@ })
    } else if !o.contains_key("visible"@) {
        Err(ErrorV::ConversionMissing { field: "visible"@ })
    } else if !(o["visible"@] is Bool) {
        Err(ErrorV::ConversionMismatch { field: "visible"@ })
    } else if !o.contains_key("title"@) {
        Err(ErrorV::ConversionMissing { field: "title"@ })
    } else if !(o["title"@] is Str) {
        Err(ErrorV::ConversionMismatch { field: "title"@ })
    } else if o.contains_key("desc"@) && !(o["desc"@] is Str) {
        Err(ErrorV::ConversionMismatch { field: "desc"@ })
    } else {
        Ok(
            StationV {
                id: o["id"@]->Str_0,
                ctime: dec_chars_int(o["ctime"@]->Int_0),
                system_id: o["system_id"@]->Str_0,
                visible: o["visible"@]->Bool_0,
                title: o["title"@]->Str_0,
                desc: if o.contains_key("desc"@) {
                    Option::Some(o["desc"@]->Str_0)
                } else {
                    Option::None
                },
            },
        )
    }
}

impl Station {
    /// Marshals a stored record into a `Station`.
    pub fn try_from_object(o: &FieldMap) -> (r: Result<Station, Error>)
        ensures
            r matches Ok(v) ==> spec_station_from_object(o@) matches Ok(w) && v@ == w,
            r matches Err(e) ==> spec_station_from_object(o@) matches Err(w) && e@ == w,
    {
        let id = match o.get("id") {
            None => {
                return Err(Error::ConversionMissing { field: String::from_str("id") });
            },
            Some(v) => match v {
                Val::Str(s) => s.clone(),
                _ => {
                    return Err(Error::ConversionMismatch { field: String::from_str("id") });
                },
            },
        };
        let ctime = match o.get("ctime") {
            None => {
                return Err(Error::ConversionMissing { field: String::from_str("ctime") });
            },
            Some(v) => match v {
                Val::Int(n) => crate::decstr::i64_to_dec(*n),
                _ => {
                    return Err(Error::ConversionMismatch { field: String::from_str("ctime") });
                },
            },
        };
        let system_id = match o.get("system_id") {
            None => {
                return Err(Error::ConversionMissing { field: String::from_str("system_id") });
            },
            Some(v) => match v {
                Val::Str(s) => s.clone(),
                _ => {
                    return Err(Error::ConversionMismatch { field: String::from_str("system_id") });
                },
            },
        };
        let visible = match o.get("visible") {
            None => {
                return Err(Error::ConversionMissing { field: String::from_str("visible") });
            },
            Some(v) => match v {
                Val::Bool(b) => *b,
                _ => {
                    return Err(Error::ConversionMismatch { field: String::from_str("visible") });
                },
            },
        };
        let title = match o.get("title") {
            None => {
                return Err(Error::ConversionMissing { field: String::from_str("title") });
            },
            Some(v) => match v {
                Val::Str(s) => s.clone(),
                _ => {
                    return Err(Error::ConversionMismatch { field: String::from_str("title") });
                },
            },
        };
        let desc = match o.get("desc") {
            None => None,
            Some(v) => match v {
                Val::Str(s) => Some(s.clone()),
                _ => {
                    return Err(Error::ConversionMismatch { field: String::from_str("desc") });
                },
            },
        };
        Ok(Station { id, ctime, system_id, visible, title, desc })
    }
}

/// The typed filter of a Station listing.
pub struct StationFilter {
    pub system_id: Option<OpValsString>,
    pub title: Option<OpValsString>,
}

/// The compiled nodes of a Station filter: one node per present field, in
/// declaration order.
pub open spec fn sta_filter_nodes_of(f: StationFilter) -> Seq<FilterNodeV> {
    (match f.system_id {
        Option::Some(ops) => seq![FilterNodeV { name: "system_id"@, opvals: ops@ }],
        Option::None => Seq::<FilterNodeV>::empty(),
    }) + (match f.title {
        Option::Some(ops) => seq![FilterNodeV { name: "title"@, opvals: ops@ }],
        Option::None => Seq::<FilterNodeV>::empty(),
    })
}

/// The compiled nodes of an optional Station filter.
pub open spec fn sta_opt_filter_nodes(f: &Option<StationFilter>) -> Option<Seq<FilterNodeV>> {
    match *f {
        Option::Some(ff) => Option::Some(sta_filter_nodes_of(ff)),
        Option::None => Option::None,
    }
}

impl StationFilter {
    /// The filter that matches every record.
    pub fn new() -> (r: StationFilter)
        ensures
            r.system_id is None,
            r.title is None,
    {
        StationFilter { system_id: None, title: None }
    }

    /// Sets the operations of one declared filterable field; any other
    /// field name is rejected with `FilterInvalid`.
    pub fn set_field(&mut self, name: &str, ops: OpValsString) -> (r: Result<(), Error>)
        ensures
            name@ == "system_id"@ ==> r is Ok && (final(self).system_id matches Some(v) && v@
                == ops@) && final(self).title == old(self).title,
            name@ == "title"@ ==> r is Ok && (final(self).title matches Some(v) && v@ == ops@)
                && final(self).system_id == old(self).system_id,
            name@ != "system_id"@ && name@ != "title"@ ==> (r matches Err(e) && e@
                == ErrorV::FilterInvalid) && *final(self) == *old(self),
    {
        proof {
            reveal_strlit("system_id");
            reveal_strlit("title");
            assert("system_id"@.len() == 9);
            assert("title"@.len() == 5);
            assert("system_id"@ != "title"@);
        }
        if crate::strutil::str_eq(name, "system_id") {
            self.system_id = Some(ops);
            Ok(())
        } else if crate::strutil::str_eq(name, "title") {
            self.title = Some(ops);
            Ok(())
        } else {
            Err(Error::FilterInvalid)
        }
    }

    /// Compiles the filter into its nodes. Compilation is total on the
    /// typed filter and deterministic: the nodes are exactly the present
    /// fields, in declaration order.
    pub fn into_filter_nodes(self) -> (r: Vec<FilterNode>)
        ensures
            nodes_view(r@) == sta_filter_nodes_of(self),
    {
        let ghost fv = sta_filter_nodes_of(self);
        let mut r: Vec<FilterNode> = Vec::new();
        let StationFilter { system_id, title } = self;
        match system_id {
            Some(ops) => {
                r.push(FilterNode { name: String::from_str("system_id"), opvals: ops.0 });
            },
            None => (),
        }
        match title {
            Some(ops) => {
                r.push(FilterNode { name: String::from_str("title"), opvals: ops.0 });
            },
            None => (),
        }
        proof {
            assert(nodes_view(r@) =~= fv);
        }
        r
    }
}

/// What a Station get yields: the stored record marshaled, or the store's
/// error unchanged.
pub open spec fn spec_sta_get(s: StoreV, id: Seq<char>) -> Result<StationV, ErrorV> {
    match spec_get(s, "station"@, id) {
        Ok(o) => spec_station_from_object(o),
        Err(e) => Err(e),
    }
}

/// What marshaling a whole listing yields: every record marshaled, in
/// order; the first failure aborts the whole listing (all or nothing).
pub open spec fn spec_stations_from_objects(objs: Seq<Map<Seq<char>, ValV>>) -> Result<
    Seq<StationV>,
    ErrorV,
>
    decreases objs.len(),
{
    if objs.len() == 0 {
        Ok(Seq::<StationV>::empty())
    } else {
        match spec_stations_from_objects(objs.drop_last()) {
            Ok(rest) => match spec_station_from_object(objs.last()) {
                Ok(v) => Ok(rest.push(v)),
                Err(e) => Err(e),
            },
            Err(e) => Err(e),
        }
    }
}

/// A failed prefix decides the whole listing.
proof fn lemma_sta_marshal_err(objs: Seq<Map<Seq<char>, ValV>>, i: int)
    requires
        0 <= i <= objs.len(),
        spec_stations_from_objects(objs.take(i)) is Err,
    ensures
        spec_stations_from_objects(objs) == spec_stations_from_objects(objs.take(i)),
    decreases objs.len() - i,
{
    if i == objs.len() {
        assert(objs.take(i) =~= objs);
    } else {
        assert(objs.take(i + 1).drop_last() =~= objs.take(i));
        lemma_sta_marshal_err(objs, i + 1);
    }
}

/// The listing options a Station listing always uses: newest first by
/// creation time, no cap, no skip.
pub open spec fn sta_list_options() -> ListOptions {
    ListOptions { limit: None, offset: None, order_bys: Some(OrderBy::CtimeDesc) }
}

/// What a Station listing yields: the selected records of the `station`
/// collection, newest first by creation time, marshaled all-or-nothing.
pub open spec fn spec_sta_list(s: StoreV, nodes: Option<Seq<FilterNodeV>>) -> Result<
    Seq<StationV>,
    ErrorV,
> {
    spec_stations_from_objects(spec_select(s, "station"@, nodes, sta_list_options()))
}

/// The Station controller: the engine fixed to the `station` collection
/// and the newest-first default listing order.
pub struct StationBmc;

impl StationBmc {
    /// Fetches one Station by id.
    pub fn get(store: &ModelStore, id: &str) -> (r: Result<Station, Error>)
        requires
            store_wf(store@),
        ensures
            r matches Ok(v) ==> spec_sta_get(store@, id@) matches Ok(w) && v@ == w,
            r matches Err(e) ==> spec_sta_get(store@, id@) matches Err(w) && e@ == w,
    {
        match store.exec_get("station", id) {
            Ok(o) => Station::try_from_object(&o),
            Err(e) => Err(e),
        }
    }

    /// Creates a Station and returns the store-assigned id.
    pub fn create(store: &mut ModelStore, data: StationForCreate) -> (r: Result<
        ModelMutateResultData,
        Error,
    >)
        requires
            store_wf(old(store)@),
        ensures
            store_wf(final(store)@),
            old(store)@.next_seq < SEQ_LIMIT as nat ==> {
                &&& final(store)@ == spec_create_store(
                    old(store)@,
                    "station"@,
                    sta_create_map_of(data),
                )
                &&& r matches Ok(d) && d.id@ == id_chars("station"@, old(store)@.next_seq)
            },
            old(store)@.next_seq >= SEQ_LIMIT as nat ==> {
                &&& final(store)@ == old(store)@
                &&& r matches Err(e) && e@ == ErrorV::StoreFail
            },
    {
        let m = data.into_field_map();
        match store.exec_create("station", m) {
            Ok(id) => Ok(ModelMutateResultData { id }),
            Err(e) => Err(e),
        }
    }

    /// Partially updates one Station: only present payload fields are
    /// written; an empty payload succeeds and changes nothing.
    pub fn update(store: &mut ModelStore, id: &str, data: StationForUpdate) -> (r: Result<
        ModelMutateResultData,
        Error,
    >)
        requires
            store_wf(old(store)@),
        ensures
            store_wf(final(store)@),
            final(store)@ == spec_update(old(store)@, "station"@, id@, sta_update_map_of(data)).0,
            match spec_update(old(store)@, "station"@, id@, sta_update_map_of(data)).1 {
                Ok(rid) => r matches Ok(d) && d.id@ == rid,
                Err(e) => r matches Err(er) && er@ == e,
            },
    {
        let m = data.into_field_map();
        match store.exec_merge("station", id, m) {
            Ok(rid) => Ok(ModelMutateResultData { id: rid }),
            Err(e) => Err(e),
        }
    }

    /// Deletes one Station by id.
    pub fn delete(store: &mut ModelStore, id: &str) -> (r: Result<ModelMutateResultData, Error>)
        requires
            store_wf(old(store)@),
        ensures
            store_wf(final(store)@),
            final(store)@ == spec_delete(old(store)@, "station"@, id@).0,
            match spec_delete(old(store)@, "station"@, id@).1 {
                Ok(rid) => r matches Ok(d) && d.id@ == rid,
                Err(e) => r matches Err(er) && er@ == e,
            },
    {
        match store.exec_delete("station", id) {
            Ok(rid) => Ok(ModelMutateResultData { id: rid }),
            Err(e) => Err(e),
        }
    }

    /// Lists the Stations that pass the filter (all of them without one),
    /// newest first by creation time, marshaled all-or-nothing.
    pub fn list(store: &ModelStore, filter: Option<StationFilter>) -> (r: Result<
        Vec<Station>,
        Error,
    >)
        requires
            store_wf(store@),
        ensures
            r matches Ok(v) ==> spec_sta_list(store@, sta_opt_filter_nodes(&filter)) matches Ok(w)
                && stations_view(v@) == w,
            r matches Err(e) ==> spec_sta_list(store@, sta_opt_filter_nodes(&filter)) matches Err(
                w,
            ) && e@ == w,
    {
        let ghost fv = sta_opt_filter_nodes(&filter);
        let nodes: Option<Vec<FilterNode>> = match filter {
            Some(f) => Some(f.into_filter_nodes()),
            None => None,
        };
        proof {
            assert(opt_nodes_view(&nodes) == fv);
        }
        let opts = ListOptions { limit: None, offset: None, order_bys: Some(OrderBy::CtimeDesc) };
        proof {
            assert(opts == sta_list_options());
        }
        let objs = match store.exec_select("station", nodes, opts) {
            Ok(objs) => objs,
            Err(e) => {
                return Err(e);
            },
        };
        let ghost oseq = objs_view(objs@);
        proof {
            assert(oseq == spec_select(store@, "station"@, fv, sta_list_options()));
            assert(oseq.take(0) =~= Seq::<Map<Seq<char>, ValV>>::empty());
        }
        let mut out: Vec<Station> = Vec::new();
        proof {
            assert(stations_view(out@) =~= Seq::<StationV>::empty());
        }
        let mut i: usize = 0;
        #[verifier::loop_isolation(false)]
        while i < objs.len()
            invariant
                i <= objs.len(),
                oseq == objs_view(objs@),
                spec_stations_from_objects(oseq.take(i as int)) == Ok::<Seq<StationV>, ErrorV>(
                    stations_view(out@),
                ),
            decreases objs.len() - i,
        {
            proof {
                assert(oseq.take(i + 1).drop_last() =~= oseq.take(i as int));
                assert(oseq.take(i + 1).last() == objs@[i as int]@);
            }
            match Station::try_from_object(&objs[i]) {
                Ok(v) => {
                    let ghost prev = out@;
                    let ghost w = v@;
                    out.push(v);
                    proof {
                        assert(out@.drop_last() =~= prev);
                        assert(stations_view(out@) =~= stations_view(prev).push(w));
                    }
                },
                Err(e) => {
                    proof {
                        assert(spec_stations_from_objects(oseq.take(i + 1)) is Err);
                        lemma_sta_marshal_err(oseq, i + 1);
                    }
                    return Err(e);
                },
            }
            i += 1;
        }
        proof {
            assert(oseq.take(oseq.len() as int) =~= oseq);
        }
        Ok(out)
    }
}

} // verus!
