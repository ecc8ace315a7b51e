//! The System entity: model, payload shapes, filter and controller.
//!
//! A System is stored under the `system` collection with one payload field,
//! `name`. The controller is a thin facade over the store engine: it fixes
//! the collection name, converts payloads into field maps and marshals
//! returned records, field by field, into `System` values.

use vstd::prelude::*;

verus! {

use crate::decstr::dec_chars_int;
use crate::error::{Error, ErrorV};
use crate::filter::{nodes_view, FilterNode, FilterNodeV, OpValsString};
use crate::store::{
    objs_view, opt_nodes_view, spec_create_store, spec_delete, spec_get, spec_select, spec_update,
    store_wf, ListOptions, ModelMutateResultData, ModelStore, StoreV, SEQ_LIMIT,
};
use crate::decstr::id_chars;
use crate::vals::{FieldMap, Val, ValV};
use vstd::string::StringExecFns;

/// A System record as callers see it.
pub struct System {
    pub id: String,
    pub name: String,
    pub ctime: String,
}

/// The mathematical value of a `System`.
#[verifier::ext_equal]
pub struct SystemV {
    pub id: Seq<char>,
    pub name: Seq<char>,
    pub ctime: Seq<char>,
}

impl View for System {
    type V = SystemV;

    open spec fn view(&self) -> SystemV {
        SystemV { id: self.id@, name: self.name@, ctime: self.ctime@ }
    }
}

/// The mathematical values of a list of Systems.
pub open spec fn systems_view(s: Seq<System>) -> Seq<SystemV> {
    s.map_values(|x: System| x@)
}

/// The create payload of a System.
pub struct SystemForCreate {
    pub name: String,
}

/// The field map a create payload stores.
pub open spec fn sys_create_map(name: Seq<char>) -> Map<Seq<char>, ValV> {
    Map::empty().insert("name"@, ValV::Str(name))
}

impl SystemForCreate {
    /// Converts the payload into the field map the engine stores.
    pub fn into_field_map(self) -> (m: FieldMap)
        ensures
            m@ == sys_create_map(self.name@),
    {
        let mut m = FieldMap::new();
        m.set("name", Val::Str(self.name));
        m
    }
}

/// The update payload of a System: every field optional, absent fields are
/// left untouched.
pub struct SystemForUpdate {
    pub name: Option<String>,
}

/// The partial field map an update payload writes: only present fields.
pub open spec fn sys_update_map(name: Option<Seq<char>>) -> Map<Seq<char>, ValV> {
    match name {
        Option::Some(n) => Map::empty().insert("name"@, ValV::Str(n)),
        Option::None => Map::empty(),
    }
}

/// The update payload's field map, over the payload itself.
pub open spec fn sys_update_map_of(d: SystemForUpdate) -> Map<Seq<char>, ValV> {
    match d.name {
        Option::Some(n) => sys_update_map(Option::Some(n@)),
        Option::None => sys_update_map(Option::None),
    }
}

impl SystemForUpdate {
    /// Converts the payload into the partial field map the engine merges.
    pub fn into_field_map(self) -> (m: FieldMap)
        ensures
            m@ == sys_update_map_of(self),
    {
        let mut m = FieldMap::new();
        match self.name {
            Some(n) => m.set("name", Val::Str(n)),
            None => (),
        }
        m
    }
}

/// What marshaling a stored record into a `System` yields: each declared
/// field is read by name, in order `id`, `name`, `ctime`; a missing field
/// or one of the wrong type aborts the whole conversion. The stored integer
/// creation time is surfaced as its decimal string.
pub open spec fn spec_system_from_object(o: Map<Seq<char>, ValV>) -> Result<SystemV, ErrorV> {
    if !o.contains_key("id"@) {
        Err(ErrorV::ConversionMissing { field: "id"@ })
    } else if !(o["id"@] is Str) {
        Err(ErrorV::ConversionMismatch { field: "id"@ })
    } else if !o.contains_key("name"@) {
        Err(ErrorV::ConversionMissing { field: "name"@ })
    } else if !(o["name"@] is Str) {
        Err(ErrorV::ConversionMismatch { field: "name"@ })
    } else if !o.contains_key("ctime"@) {
        Err(ErrorV::ConversionMissing { field: "ctime"@ })
    } else if !(o["ctime"@] is Int) {
        Err(ErrorV::ConversionMismatch { field: "ctime"@ })
    } else {
        Ok(
            SystemV {
                id: o["id"@]->Str_0,
                name: o["name"@]->Str_0,
                ctime: dec_chars_int(o["ctime"@]->Int_0),
            },
        )
    }
}

impl System {
    /// Marshals a stored record into a `System`.
    pub fn try_from_object(o: &FieldMap) -> (r: Result<System, Error>)
        ensures
            r matches Ok(v) ==> spec_system_from_object(o@) matches Ok(w) && v@ == w,
            r matches Err(e) ==> spec_system_from_object(o@) matches Err(w) && e@ == w,
    {
        let id = match o.get("id") {
            None => {
                return Err(Error::ConversionMissing { field: String::from_str("id") });
            },
            Some(v) => match v {
                Val::Str(s) => s.clone(),
                _ => {
                    return Err(Error::ConversionMismatch { field: String::from_str("id") });
                },
            },
        };
        let name = match o.get("name") {
            None => {
                return Err(Error::ConversionMissing { field: String::from_str("name") });
            },
            Some(v) => match v {
                Val::Str(s) => s.clone(),
                _ => {
                    return Err(Error::ConversionMismatch { field: String::from_str("name") });
                },
            },
        };
        let ctime = match o.get("ctime") {
            None => {
                return Err(Error::ConversionMissing { field: String::from_str("ctime") });
            },
            Some(v) => match v {
                Val::Int(n) => crate::decstr::i64_to_dec(*n),
                _ => {
                    return Err(Error::ConversionMismatch { field: String::from_str("ctime") });
                },
            },
        };
        Ok(System { id, name, ctime })
    }
}

/// The typed filter of a System listing: each present field carries the
/// operations to OR; distinct fields are AND'd.
pub struct SystemFilter {
    pub id: Option<OpValsString>,
    pub name: Option<OpValsString>,
}

/// The compiled nodes of a System filter: one node per present field, in
/// declaration order.
pub open spec fn sys_filter_nodes_of(f: SystemFilter) -> Seq<FilterNodeV> {
    (match f.id {
        Option::Some(ops) => seq![FilterNodeV { name: "id"@, opvals: ops@ }],
        Option::None => Seq::<FilterNodeV>::empty(),
    }) + (match f.name {
        Option::Some(ops) => seq![FilterNodeV { name: "name"@, opvals: ops@ }],
        Option::None => Seq::<FilterNodeV>::empty(),
    })
}

/// The compiled nodes of an optional System filter.
pub open spec fn sys_opt_filter_nodes(f: &Option<SystemFilter>) -> Option<Seq<FilterNodeV>> {
    match *f {
        Option::Some(ff) => Option::Some(sys_filter_nodes_of(ff)),
        Option::None => Option::None,
    }
}

impl SystemFilter {
    /// The filter that matches every record.
    pub fn new() -> (r: SystemFilter)
        ensures
            r.id is None,
            r.name is None,
    {
        SystemFilter { id: None, name: None }
    }

    /// Sets the operations of one declared filterable field; any other
    /// field name is rejected with `FilterInvalid`.
    pub fn set_field(&mut self, name: &str, ops: OpValsString) -> (r: Result<(), Error>)
        ensures
            name@ == "id"@ ==> r is Ok && (final(self).id matches Some(v) && v@ == ops@)
                && final(self).name == old(self).name,
            name@ == "name"@ ==> r is Ok && (final(self).name matches Some(v) && v@ == ops@)
                && final(self).id == old(self).id,
            name@ != "id"@ && name@ != "name"@ ==> (r matches Err(e) && e@ == ErrorV::FilterInvalid)
                && *final(self) == *old(self),
    {
        proof {
            reveal_strlit("id");
            reveal_strlit("name");
            assert("id"@.len() == 2);
            assert("name"@.len() == 4);
            assert("id"@ != "name"@);
        }
        if crate::strutil::str_eq(name, "id") {
            self.id = Some(ops);
            Ok(())
        } else if crate::strutil::str_eq(name, "name") {
            self.name = Some(ops);
            Ok(())
        } else {
            Err(Error::FilterInvalid)
        }
    }

    /// Compiles the filter into its nodes. Compilation is total on the
    /// typed filter and deterministic: the nodes are exactly the present
    /// fields, in declaration order.
    pub fn into_filter_nodes(self) -> (r: Vec<FilterNode>)
        ensures
            nodes_view(r@) == sys_filter_nodes_of(self),
    {
        let ghost fv = sys_filter_nodes_of(self);
        let mut r: Vec<FilterNode> = Vec::new();
        let SystemFilter { id, name } = self;
        match id {
            Some(ops) => {
                r.push(FilterNode { name: String::from_str("id"), opvals: ops.0 });
            },
            None => (),
        }
        match name {
            Some(ops) => {
                r.push(FilterNode { name: String::from_str("name"), opvals: ops.0 });
            },
            None => (),
        }
        proof {
            assert(nodes_view(r@) =~= fv);
        }
        r
    }
}

/// What a System get yields: the stored record marshaled, or the store's
/// error unchanged.
pub open spec fn spec_sys_get(s: StoreV, id: Seq<char>) -> Result<SystemV, ErrorV> {
    match spec_get(s, "system"@, id) {
        Ok(o) => spec_system_from_object(o),
        Err(e) => Err(e),
    }
}

/// What marshaling a whole listing yields: every record marshaled, in
/// order; the first failure aborts the whole listing (all or nothing).
pub open spec fn spec_systems_from_objects(objs: Seq<Map<Seq<char>, ValV>>) -> Result<
    Seq<SystemV>,
    ErrorV,
>
    decreases objs.len(),
{
    if objs.len() == 0 {
        Ok(Seq::<SystemV>::empty())
    } else {
        match spec_systems_from_objects(objs.drop_last()) {
            Ok(rest) => match spec_system_from_object(objs.last()) {
                Ok(v) => Ok(rest.push(v)),
                Err(e) => Err(e),
            },
            Err(e) => Err(e),
        }
    }
}

/// A failed prefix decides the whole listing.
proof fn lemma_sys_marshal_err(objs: Seq<Map<Seq<char>, ValV>>, i: int)
    requires
        0 <= i <= objs.len(),
        spec_systems_from_objects(objs.take(i)) is Err,
    ensures
        spec_systems_from_objects(objs) == spec_systems_from_objects(objs.take(i)),
    decreases objs.len() - i,
{
    if i == objs.len() {
        assert(objs.take(i) =~= objs);
    } else {
        assert(objs.take(i + 1).drop_last() =~= objs.take(i));
        lemma_sys_marshal_err(objs, i + 1);
    }
}

/// What a System listing yields: the selected records of the `system`
/// collection in insertion order (no override of the default options),
/// marshaled all-or-nothing.
pub open spec fn spec_sys_list(s: StoreV, nodes: Option<Seq<FilterNodeV>>) -> Result<
    Seq<SystemV>,
    ErrorV,
> {
    spec_systems_from_objects(
        spec_select(
            s,
            "system"@,
            nodes,
            ListOptions { limit: None, offset: None, order_bys: None },
        ),
    )
}

/// The System controller: the engine fixed to the `system` collection.
pub struct SystemBmc;

impl SystemBmc {
    /// Fetches one System by id.
    pub fn get(store: &ModelStore, id: &str) -> (r: Result<System, Error>)
        requires
            store_wf(store@),
        ensures
            r matches Ok(v) ==> spec_sys_get(store@, id@) matches Ok(w) && v@ == w,
            r matches Err(e) ==> spec_sys_get(store@, id@) matches Err(w) && e@ == w,
    {
        match store.exec_get("system", id) {
            Ok(o) => System::try_from_object(&o),
            Err(e) => Err(e),
        }
    }

    /// Creates a System and returns the store-assigned id.
    pub fn create(store: &mut ModelStore, data: SystemForCreate) -> (r: Result<
        ModelMutateResultData,
        Error,
    >)
        requires
            store_wf(old(store)@),
        ensures
            store_wf(final(store)@),
            old(store)@.next_seq < SEQ_LIMIT as nat ==> {
                &&& final(store)@ == spec_create_store(
                    old(store)@,
                    "system"@,
                    sys_create_map(data.name@),
                )
                &&& r matches Ok(d) && d.id@ == id_chars("system"@, old(store)@.next_seq)
            },
            old(store)@.next_seq >= SEQ_LIMIT as nat ==> {
                &&& final(store)@ == old(store)@
                &&& r matches Err(e) && e@ == ErrorV::StoreFail
            },
    {
        let m = data.into_field_map();
        match store.exec_create("system", m) {
            Ok(id) => Ok(ModelMutateResultData { id }),
            Err(e) => Err(e),
        }
    }

    /// Partially updates one System: only present payload fields are
    /// written; an empty payload succeeds and changes nothing.
    pub fn update(store: &mut ModelStore, id: &str, data: SystemForUpdate) -> (r: Result<
        ModelMutateResultData,
        Error,
    >)
        requires
            store_wf(old(store)@),
        ensures
            store_wf(final(store)@),
            final(store)@ == spec_update(old(store)@, "system"@, id@, sys_update_map_of(data)).0,
            match spec_update(old(store)@, "system"@, id@, sys_update_map_of(data)).1 {
                Ok(rid) => r matches Ok(d) && d.id@ == rid,
                Err(e) => r matches Err(er) && er@ == e,
            },
    {
        let m = data.into_field_map();
        match store.exec_merge("system", id, m) {
            Ok(rid) => Ok(ModelMutateResultData { id: rid }),
            Err(e) => Err(e),
        }
    }

    /// Deletes one System by id.
    pub fn delete(store: &mut ModelStore, id: &str) -> (r: Result<ModelMutateResultData, Error>)
        requires
            store_wf(old(store)@),
        ensures
            store_wf(final(store)@),
            final(store)@ == spec_delete(old(store)@, "system"@, id@).0,
            match spec_delete(old(store)@, "system"@, id@).1 {
                Ok(rid) => r matches Ok(d) && d.id@ == rid,
                Err(e) => r matches Err(er) && er@ == e,
            },
    {
        match store.exec_delete("system", id) {
            Ok(rid) => Ok(ModelMutateResultData { id: rid }),
            Err(e) => Err(e),
        }
    }

    /// Lists the Systems that pass the filter (all of them without one), in
    /// insertion order, marshaled all-or-nothing.
    pub fn list(store: &ModelStore, filter: Option<SystemFilter>) -> (r: Result<Vec<System>, Error>)
        requires
            store_wf(store@),
        ensures
            r matches Ok(v) ==> spec_sys_list(store@, sys_opt_filter_nodes(&filter)) matches Ok(w)
                && systems_view(v@) == w,
            r matches Err(e) ==> spec_sys_list(store@, sys_opt_filter_nodes(&filter)) matches Err(w)
                && e@ == w,
    {
        let ghost fv = sys_opt_filter_nodes(&filter);
        let nodes: Option<Vec<FilterNode>> = match filter {
            Some(f) => Some(f.into_filter_nodes()),
            None => None,
        };
        proof {
            assert(opt_nodes_view(&nodes) == fv);
        }
        let opts = ListOptions::default();
        proof {
            assert(opts == (ListOptions { limit: None, offset: None, order_bys: None }));
        }
        let objs = match store.exec_select("system", nodes, opts) {
            Ok(objs) => objs,
            Err(e) => {
                return Err(e);
            },
        };
        let ghost oseq = objs_view(objs@);
        proof {
            assert(oseq == spec_select(
                store@,
                "system"@,
                fv,
                ListOptions { limit: None, offset: None, order_bys: None },
            ));
            assert(oseq.take(0) =~= Seq::<Map<Seq<char>, ValV>>::empty());
        }
        let mut out: Vec<System> = Vec::new();
        proof {
            assert(systems_view(out@) =~= Seq::<SystemV>::empty());
        }
        let mut i: usize = 0;
        #[verifier::loop_isolation(false)]
        while i < objs.len()
            invariant
                i <= objs.len(),
                oseq == objs_view(objs@),
                spec_systems_from_objects(oseq.take(i as int)) == Ok::<Seq<SystemV>, ErrorV>(
                    systems_view(out@),
                ),
            decreases objs.len() - i,
        {
            proof {
                assert(oseq.take(i + 1).drop_last() =~= oseq.take(i as int));
                assert(oseq.take(i + 1).last() == objs@[i as int]@);
            }
            match System::try_from_object(&objs[i]) {
                Ok(v) => {
                    let ghost prev = out@;
                    let ghost w = v@;
                    out.push(v);
                    proof {
                        assert(out@.drop_last() =~= prev);
                        assert(systems_view(out@) =~= systems_view(prev).push(w));
                    }
                },
                Err(e) => {
                    proof {
                        assert(spec_systems_from_objects(oseq.take(i + 1)) is Err);
                        lemma_sys_marshal_err(oseq, i + 1);
                    }
                    return Err(e);
                },
            }
            i += 1;
        }
        proof {
            assert(oseq.take(oseq.len() as int) =~= oseq);
        }
        Ok(out)
    }
}

} // verus!
