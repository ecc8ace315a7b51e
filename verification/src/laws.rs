//! Laws of the engine, stated and proved once and for all stores.
//!
//! Each law is a public proof function over the same specification
//! functions the executable operations are verified against, so what it
//! states holds of every call sequence the library can make.

use vstd::prelude::*;

verus! {

use crate::decstr::{dec_chars_int, id_chars};
use crate::error::ErrorV;
use crate::station::{
    spec_sta_get, sta_create_map, sta_filter_nodes_of, sta_update_map, StationFilter, StationV,
};
use crate::store::{
    hit, spec_create_store, spec_found, spec_update, store_wf, StoreV, SEQ_LIMIT,
};
use crate::system::{spec_sys_get, sys_create_map, sys_filter_nodes_of, SystemFilter, SystemV};
use crate::vals::ValV;

/// Round trip for a System: creating a record from any create payload and
/// fetching it under the returned id yields exactly the payload's fields,
/// with the store-assigned id and creation time.
pub proof fn lemma_system_round_trip(s: StoreV, name: Seq<char>)
    requires
        store_wf(s),
        s.next_seq < SEQ_LIMIT as nat,
    ensures
        store_wf(spec_create_store(s, "system"@, sys_create_map(name))),
        spec_sys_get(
            spec_create_store(s, "system"@, sys_create_map(name)),
            id_chars("system"@, s.next_seq),
        ) == Ok::<SystemV, ErrorV>(
            SystemV {
                id: id_chars("system"@, s.next_seq),
                name,
                ctime: dec_chars_int(s.next_seq as int),
            },
        ),
{
    reveal_strlit("id");
    reveal_strlit("ctime");
    reveal_strlit("name");
    assert("id"@.len() == 2);
    assert("ctime"@.len() == 5);
    assert("name"@.len() == 4);
    let s2 = spec_create_store(s, "system"@, sys_create_map(name));
    let id = id_chars("system"@, s.next_seq);
    let n = s.recs.len() as int;
    assert forall|i: int, j: int| 0 <= i < j < s2.recs.len() implies (
    #[trigger] s2.recs[i]).seq < (#[trigger] s2.recs[j]).seq by {
        if j < n {
            assert(s.recs[j].seq < s.next_seq);
        }
    }
    assert(store_wf(s2));
    assert(hit(s2, "system"@, id, n));
    let j = choose|j: int| hit(s2, "system"@, id, j);
    crate::store::lemma_hit_unique(s2, "system"@, id, n, j);
    let obj = crate::store::object_of(s2.recs[n]);
    assert(obj["id"@] == ValV::Str(id));
    assert(obj["name"@] == ValV::Str(name));
    assert(obj["ctime"@] == ValV::Int(s.next_seq as int));
}

/// Round trip for a Station: creating a record from any create payload and
/// fetching it under the returned id yields exactly the payload's fields
/// with the documented defaults applied — an omitted `visible` reads back
/// `true`, an omitted `desc` reads back as absent.
pub proof fn lemma_station_round_trip(
    s: StoreV,
    system_id: Seq<char>,
    title: Seq<char>,
    visible: Option<bool>,
    desc: Option<Seq<char>>,
)
    requires
        store_wf(s),
        s.next_seq < SEQ_LIMIT as nat,
    ensures
        store_wf(spec_create_store(s, "station"@, sta_create_map(system_id, title, visible, desc))),
        spec_sta_get(
            spec_create_store(s, "station"@, sta_create_map(system_id, title, visible, desc)),
            id_chars("station"@, s.next_seq),
        ) == Ok::<StationV, ErrorV>(
            StationV {
                id: id_chars("station"@, s.next_seq),
                ctime: dec_chars_int(s.next_seq as int),
                system_id,
                visible: match visible {
                    Option::Some(b) => b,
                    Option::None => true,
                },
                title,
                desc,
            },
        ),
{
    reveal_strlit("id");
    reveal_strlit("ctime");
    reveal_strlit("system_id");
    reveal_strlit("visible");
    reveal_strlit("title");
    reveal_strlit("desc");
    assert("id"@.len() == 2);
    assert("ctime"@.len() == 5);
    assert("system_id"@.len() == 9);
    assert("visible"@.len() == 7);
    assert("title"@.len() == 5);
    assert("desc"@.len() == 4);
    assert("ctime"@[0] == 'c' && "title"@[0] == 't');
    let m = sta_create_map(system_id, title, visible, desc);
    let s2 = spec_create_store(s, "station"@, m);
    let id = id_chars("station"@, s.next_seq);
    let n = s.recs.len() as int;
    assert forall|i: int, j: int| 0 <= i < j < s2.recs.len() implies (
    #[trigger] s2.recs[i]).seq < (#[trigger] s2.recs[j]).seq by {
        if j < n {
            assert(s.recs[j].seq < s.next_seq);
        }
    }
    assert(store_wf(s2));
    assert(hit(s2, "station"@, id, n));
    let j = choose|j: int| hit(s2, "station"@, id, j);
    crate::store::lemma_hit_unique(s2, "station"@, id, n, j);
    let obj = crate::store::object_of(s2.recs[n]);
    assert(obj["id"@] == ValV::Str(id));
    assert(obj["ctime"@] == ValV::Int(s.next_seq as int));
    assert(obj["system_id"@] == ValV::Str(system_id));
    assert(obj["title"@] == ValV::Str(title));
    match desc {
        Option::Some(d) => {
            assert(obj["desc"@] == ValV::Str(d));
        },
        Option::None => {
            assert(!obj.contains_key("desc"@));
        },
    }
}

/// Partial update with an empty payload is a no-op that still succeeds:
/// the store is unchanged, and the call returns the id when the record
/// exists and `NotFound` otherwise.
pub proof fn lemma_update_empty_is_noop(s: StoreV, table: Seq<char>, id: Seq<char>)
    requires
        store_wf(s),
    ensures
        spec_update(s, table, id, Map::<Seq<char>, ValV>::empty()).0 == s,
        spec_found(s, table, id) ==> spec_update(s, table, id, Map::<Seq<char>, ValV>::empty()).1
            == Ok::<Seq<char>, ErrorV>(id),
        !spec_found(s, table, id) ==> spec_update(s, table, id, Map::<Seq<char>, ValV>::empty()).1
            == Err::<Seq<char>, ErrorV>(ErrorV::NotFound),
{
    if spec_found(s, table, id) {
        let i = choose|i: int| hit(s, table, id, i);
        let f = s.recs[i].fields;
        assert(f.union_prefer_right(Map::<Seq<char>, ValV>::empty()) =~= f);
        assert(spec_update(s, table, id, Map::<Seq<char>, ValV>::empty()).0.recs =~= s.recs);
        assert(spec_update(s, table, id, Map::<Seq<char>, ValV>::empty()).0 =~= s);
    }
}

/// Update partiality for a Station: patching only `title` changes only
/// `title`. Every other record is untouched, the patched record keeps its
/// identity, collection and creation time, and every field but `title`
/// keeps its prior presence and value.
pub proof fn lemma_station_update_title_partial(s: StoreV, id: Seq<char>, title: Seq<char>)
    requires
        store_wf(s),
        spec_found(s, "station"@, id),
    ensures
        ({
            let patch = sta_update_map(Option::Some(title), Option::None, Option::None);
            let s2 = spec_update(s, "station"@, id, patch).0;
            let i = choose|i: int| hit(s, "station"@, id, i);
            &&& spec_update(s, "station"@, id, patch).1 == Ok::<Seq<char>, ErrorV>(id)
            &&& s2.recs.len() == s.recs.len()
            &&& s2.next_seq == s.next_seq
            &&& forall|j: int|
                0 <= j < s.recs.len() && j != i ==> (#[trigger] s2.recs[j]) == s.recs[j]
            &&& s2.recs[i].table == s.recs[i].table
            &&& s2.recs[i].seq == s.recs[i].seq
            &&& s2.recs[i].id == s.recs[i].id
            &&& s2.recs[i].fields.contains_key("title"@)
            &&& s2.recs[i].fields["title"@] == ValV::Str(title)
            &&& forall|k: Seq<char>|
                k != "title"@ ==> ((#[trigger] s2.recs[i].fields.contains_key(k))
                    <==> s.recs[i].fields.contains_key(k))
            &&& forall|k: Seq<char>|
                k != "title"@ && s.recs[i].fields.contains_key(k) ==> (#[trigger] s2.recs[i].fields[k])
                    == s.recs[i].fields[k]
        }),
{
    let patch = sta_update_map(Option::Some(title), Option::None, Option::None);
    let i = choose|i: int| hit(s, "station"@, id, i);
    assert(patch == Map::<Seq<char>, ValV>::empty().insert("title"@, ValV::Str(title)));
    assert(spec_update(s, "station"@, id, patch).0.recs[i].fields == s.recs[i].fields.union_prefer_right(patch));
}

/// Filter compilation loses no information: two Station filters that
/// compile to the same predicate agree on which fields are present and on
/// the operations of each present field. Compilation is a function of the
/// filter value, so it is also stable.
pub proof fn lemma_station_filter_compile_injective(f1: StationFilter, f2: StationFilter)
    requires
        sta_filter_nodes_of(f1) == sta_filter_nodes_of(f2),
    ensures
        f1.system_id is Some <==> f2.system_id is Some,
        f1.title is Some <==> f2.title is Some,
        f1.system_id matches Some(a) ==> (f2.system_id matches Some(b) && a@ == b@),
        f1.title matches Some(a) ==> (f2.title matches Some(b) && a@ == b@),
{
    reveal_strlit("system_id");
    reveal_strlit("title");
    assert("system_id"@.len() == 9);
    assert("title"@.len() == 5);
    let n1 = sta_filter_nodes_of(f1);
    let n2 = sta_filter_nodes_of(f2);
    if f1.system_id is Some && f1.title is Some {
        assert(n1[0].name == "system_id"@ && n1[1].name == "title"@ && n1.len() == 2);
    } else if f1.system_id is Some {
        assert(n1[0].name == "system_id"@ && n1.len() == 1);
    } else if f1.title is Some {
        assert(n1[0].name == "title"@ && n1.len() == 1);
    }
    if f2.system_id is Some && f2.title is Some {
        assert(n2[0].name == "system_id"@ && n2[1].name == "title"@ && n2.len() == 2);
    } else if f2.system_id is Some {
        assert(n2[0].name == "system_id"@ && n2.len() == 1);
    } else if f2.title is Some {
        assert(n2[0].name == "title"@ && n2.len() == 1);
    }
}

/// Filter compilation loses no information for System filters, in the same
/// sense.
pub proof fn lemma_system_filter_compile_injective(f1: SystemFilter, f2: SystemFilter)
    requires
        sys_filter_nodes_of(f1) == sys_filter_nodes_of(f2),
    ensures
        f1.id is Some <==> f2.id is Some,
        f1.name is Some <==> f2.name is Some,
        f1.id matches Some(a) ==> (f2.id matches Some(b) && a@ == b@),
        f1.name matches Some(a) ==> (f2.name matches Some(b) && a@ == b@),
{
    reveal_strlit("id");
    reveal_strlit("name");
    assert("id"@.len() == 2);
    assert("name"@.len() == 4);
    let n1 = sys_filter_nodes_of(f1);
    let n2 = sys_filter_nodes_of(f2);
    if f1.id is Some && f1.name is Some {
        assert(n1[0].name == "id"@ && n1[1].name == "name"@ && n1.len() == 2);
    } else if f1.id is Some {
        assert(n1[0].name == "id"@ && n1.len() == 1);
    } else if f1.name is Some {
        assert(n1[0].name == "name"@ && n1.len() == 1);
    }
    if f2.id is Some && f2.name is Some {
        assert(n2[0].name == "id"@ && n2[1].name == "name"@ && n2.len() == 2);
    } else if f2.id is Some {
        assert(n2[0].name == "id"@ && n2.len() == 1);
    } else if f2.name is Some {
        assert(n2[0].name == "name"@ && n2.len() == 1);
    }
}

} // verus!
