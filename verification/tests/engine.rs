//! Scenario tests: the engine and the two entity controllers end to end.

use model_store::error::{Error, ErrorKind};
use model_store::filter::{OpValString, OpValsString};
use model_store::station::{StationBmc, StationFilter, StationForCreate, StationForUpdate};
use model_store::store::{ListOptions, ModelStore, OrderBy};
use model_store::system::{SystemBmc, SystemFilter, SystemForCreate, SystemForUpdate};
use model_store::vals::{FieldMap, Val};

fn fresh_store() -> ModelStore {
    ModelStore::new()
}

fn create_system(store: &mut ModelStore, name: &str) -> String {
    SystemBmc::create(store, SystemForCreate { name: String::from(name) })
        .unwrap()
        .id
}

fn create_station(
    store: &mut ModelStore,
    system_id: &str,
    title: &str,
    visible: Option<bool>,
    desc: Option<&str>,
) -> String {
    StationBmc::create(
        store,
        StationForCreate {
            system_id: String::from(system_id),
            title: String::from(title),
            visible,
            desc: desc.map(String::from),
        },
    )
    .unwrap()
    .id
}

#[test]
fn system_round_trip() {
    let mut store = fresh_store();
    let id = create_system(&mut store, "System A");
    assert_eq!(id, "system:1");
    let sys = SystemBmc::get(&store, &id).unwrap();
    assert_eq!(sys.id, "system:1");
    assert_eq!(sys.name, "System A");
    assert_eq!(sys.ctime, "1");
}

#[test]
fn station_round_trip_with_defaults() {
    let mut store = fresh_store();
    let sys_id = create_system(&mut store, "System A");
    let id = create_station(&mut store, &sys_id, "Station A.1", None, None);
    assert_eq!(id, "station:2");
    let st = StationBmc::get(&store, &id).unwrap();
    assert_eq!(st.id, "station:2");
    assert_eq!(st.system_id, "system:1");
    assert_eq!(st.title, "Station A.1");
    assert!(st.visible);
    assert!(st.desc.is_none());
    assert_eq!(st.ctime, "2");
}

#[test]
fn station_round_trip_explicit_fields() {
    let mut store = fresh_store();
    let id = create_station(&mut store, "system:9", "S", Some(false), Some("a dock"));
    let st = StationBmc::get(&store, &id).unwrap();
    assert!(!st.visible);
    assert_eq!(st.desc.as_deref(), Some("a dock"));
}

#[test]
fn empty_update_is_noop_and_succeeds() {
    let mut store = fresh_store();
    let id = create_system(&mut store, "System A");
    let before = SystemBmc::get(&store, &id).unwrap();
    let touched = SystemBmc::update(&mut store, &id, SystemForUpdate { name: None }).unwrap();
    assert_eq!(touched.id, id);
    let after = SystemBmc::get(&store, &id).unwrap();
    assert_eq!(after.id, before.id);
    assert_eq!(after.name, before.name);
    assert_eq!(after.ctime, before.ctime);
}

#[test]
fn partial_update_changes_only_title() {
    let mut store = fresh_store();
    let sys_id = create_system(&mut store, "System A");
    let id = create_station(&mut store, &sys_id, "Old title", Some(false), Some("kept"));
    let payload = StationForUpdate { title: Some(String::from("X")), visible: None, desc: None };
    let touched = StationBmc::update(&mut store, &id, payload).unwrap();
    assert_eq!(touched.id, id);
    let st = StationBmc::get(&store, &id).unwrap();
    assert_eq!(st.title, "X");
    assert_eq!(st.system_id, sys_id);
    assert!(!st.visible);
    assert_eq!(st.desc.as_deref(), Some("kept"));
    assert_eq!(st.ctime, "2");
    assert_eq!(st.id, id);
}

#[test]
fn update_keeps_id_and_ctime() {
    let mut store = fresh_store();
    let id = create_system(&mut store, "A");
    SystemBmc::update(&mut store, &id, SystemForUpdate { name: Some(String::from("B")) })
        .unwrap();
    let sys = SystemBmc::get(&store, &id).unwrap();
    assert_eq!(sys.name, "B");
    assert_eq!(sys.id, "system:1");
    assert_eq!(sys.ctime, "1");
}

#[test]
fn missing_id_is_not_found_never_store_fail() {
    let mut store = fresh_store();
    create_system(&mut store, "System A");
    let got = SystemBmc::get(&store, "system:999");
    assert!(matches!(got, Err(Error::NotFound)));
    let upd = SystemBmc::update(&mut store, "system:999", SystemForUpdate { name: None });
    match upd {
        Err(e) => assert_eq!(e.kind(), ErrorKind::NotFound),
        Ok(_) => panic!("update of an absent id must fail"),
    }
    let del = SystemBmc::delete(&mut store, "system:999");
    match del {
        Err(e) => assert_eq!(e.kind(), ErrorKind::NotFound),
        Ok(_) => panic!("delete of an absent id must fail"),
    }
}

#[test]
fn delete_removes_the_record() {
    let mut store = fresh_store();
    let id = create_system(&mut store, "System A");
    let touched = SystemBmc::delete(&mut store, &id).unwrap();
    assert_eq!(touched.id, id);
    assert!(matches!(SystemBmc::get(&store, &id), Err(Error::NotFound)));
    assert!(matches!(
        SystemBmc::delete(&mut store, &id),
        Err(Error::NotFound)
    ));
}

#[test]
fn collections_are_separate() {
    let mut store = fresh_store();
    let id = create_system(&mut store, "System A");
    assert!(matches!(StationBmc::get(&store, &id), Err(Error::NotFound)));
}

#[test]
fn filter_contains_returns_exact_subset_newest_first() {
    let mut store = fresh_store();
    let sys_id = create_system(&mut store, "System A");
    create_station(&mut store, &sys_id, "Station A.1", None, None);
    create_station(&mut store, &sys_id, "Station A.2", None, None);
    create_station(&mut store, &sys_id, "Other", None, None);
    let mut filter = StationFilter::new();
    filter
        .set_field(
            "title",
            OpValsString(vec![OpValString::Contains(String::from("Station A"))]),
        )
        .unwrap();
    let listed = StationBmc::list(&store, Some(filter)).unwrap();
    assert_eq!(listed.len(), 2);
    assert_eq!(listed[0].title, "Station A.2");
    assert_eq!(listed[1].title, "Station A.1");
}

#[test]
fn list_without_filter_returns_all_stations_newest_first() {
    let mut store = fresh_store();
    let sys_id = create_system(&mut store, "System A");
    create_station(&mut store, &sys_id, "one", None, None);
    create_station(&mut store, &sys_id, "two", None, None);
    let listed = StationBmc::list(&store, None).unwrap();
    assert_eq!(listed.len(), 2);
    assert_eq!(listed[0].title, "two");
    assert_eq!(listed[1].title, "one");
}

#[test]
fn list_systems_is_in_insertion_order() {
    let mut store = fresh_store();
    create_system(&mut store, "System A");
    create_system(&mut store, "System B");
    let listed = SystemBmc::list(&store, None).unwrap();
    assert_eq!(listed.len(), 2);
    assert_eq!(listed[0].name, "System A");
    assert_eq!(listed[1].name, "System B");
}

#[test]
fn empty_listing_is_a_success() {
    let store = fresh_store();
    let listed = SystemBmc::list(&store, None).unwrap();
    assert!(listed.is_empty());
}

#[test]
fn filter_eq_on_system_id() {
    let mut store = fresh_store();
    let a = create_system(&mut store, "System A");
    let b = create_system(&mut store, "System B");
    create_station(&mut store, &a, "Station A.1", None, None);
    create_station(&mut store, &b, "Station B.1", None, None);
    let mut filter = StationFilter::new();
    filter
        .set_field(
            "system_id",
            OpValsString(vec![OpValString::Eq(String::from("system:1"))]),
        )
        .unwrap();
    let listed = StationBmc::list(&store, Some(filter)).unwrap();
    assert_eq!(listed.len(), 1);
    assert_eq!(listed[0].title, "Station A.1");
    assert_eq!(listed[0].system_id, a);
}

#[test]
fn filter_in_set_membership() {
    let mut store = fresh_store();
    create_system(&mut store, "alpha");
    create_system(&mut store, "beta");
    create_system(&mut store, "gamma");
    let mut filter = SystemFilter::new();
    filter
        .set_field(
            "name",
            OpValsString(vec![OpValString::In(vec![
                String::from("alpha"),
                String::from("gamma"),
            ])]),
        )
        .unwrap();
    let listed = SystemBmc::list(&store, Some(filter)).unwrap();
    assert_eq!(listed.len(), 2);
    assert_eq!(listed[0].name, "alpha");
    assert_eq!(listed[1].name, "gamma");
}

#[test]
fn filter_ops_on_one_field_are_or_combined() {
    let mut store = fresh_store();
    create_system(&mut store, "alpha");
    create_system(&mut store, "beta");
    create_system(&mut store, "gamma");
    let mut filter = SystemFilter::new();
    filter
        .set_field(
            "name",
            OpValsString(vec![
                OpValString::Eq(String::from("beta")),
                OpValString::Contains(String::from("mm")),
            ]),
        )
        .unwrap();
    let listed = SystemBmc::list(&store, Some(filter)).unwrap();
    assert_eq!(listed.len(), 2);
    assert_eq!(listed[0].name, "beta");
    assert_eq!(listed[1].name, "gamma");
}

#[test]
fn filter_fields_are_and_combined() {
    let mut store = fresh_store();
    let a = create_system(&mut store, "System A");
    let b = create_system(&mut store, "System B");
    create_station(&mut store, &a, "north", None, None);
    create_station(&mut store, &b, "north", None, None);
    let mut filter = StationFilter::new();
    filter
        .set_field("system_id", OpValsString(vec![OpValString::Eq(a.clone())]))
        .unwrap();
    filter
        .set_field("title", OpValsString(vec![OpValString::Eq(String::from("north"))]))
        .unwrap();
    let listed = StationBmc::list(&store, Some(filter)).unwrap();
    assert_eq!(listed.len(), 1);
    assert_eq!(listed[0].system_id, a);
}

#[test]
fn corrupt_record_fails_get_with_conversion_fail() {
    let mut store = fresh_store();
    let mut bad = FieldMap::new();
    bad.set("system_id", Val::Str(String::from("system:1")));
    let id = store.exec_create("station", bad).unwrap();
    let got = StationBmc::get(&store, &id);
    match got {
        Err(e) => {
            assert_eq!(e.kind(), ErrorKind::ConversionFail);
            assert_eq!(e.message(), "missing field visible");
        },
        Ok(_) => panic!("a record without required fields must not marshal"),
    }
}

#[test]
fn corrupt_record_fails_the_whole_listing() {
    let mut store = fresh_store();
    let sys_id = create_system(&mut store, "System A");
    create_station(&mut store, &sys_id, "good", None, None);
    let mut bad = FieldMap::new();
    bad.set("system_id", Val::Str(sys_id));
    store.exec_create("station", bad).unwrap();
    let listed = StationBmc::list(&store, None);
    match listed {
        Err(e) => assert_eq!(e.kind(), ErrorKind::ConversionFail),
        Ok(_) => panic!("a listing with an unmarshalable record must fail entirely"),
    }
}

#[test]
fn type_mismatch_is_reported_per_field() {
    let mut store = fresh_store();
    let mut bad = FieldMap::new();
    bad.set("name", Val::Int(7));
    let id = store.exec_create("system", bad).unwrap();
    let got = SystemBmc::get(&store, &id);
    match got {
        Err(e) => {
            assert_eq!(e.kind(), ErrorKind::ConversionFail);
            assert_eq!(e.message(), "type mismatch name");
        },
        Ok(_) => panic!("a mistyped field must not marshal"),
    }
}

#[test]
fn select_applies_offset_and_limit() {
    let mut store = fresh_store();
    for name in ["a", "b", "c", "d", "e"] {
        create_system(&mut store, name);
    }
    let opts = ListOptions { limit: Some(2), offset: Some(1), order_bys: None };
    let objs = store.exec_select("system", None, opts).unwrap();
    assert_eq!(objs.len(), 2);
    let names: Vec<String> = objs
        .iter()
        .map(|o| match o.get("name") {
            Some(Val::Str(s)) => s.clone(),
            _ => panic!("name field missing"),
        })
        .collect();
    assert_eq!(names, vec![String::from("b"), String::from("c")]);
}

#[test]
fn select_descending_reverses_insertion_order() {
    let mut store = fresh_store();
    create_system(&mut store, "first");
    create_system(&mut store, "second");
    let opts = ListOptions { limit: None, offset: None, order_bys: Some(OrderBy::CtimeDesc) };
    let objs = store.exec_select("system", None, opts).unwrap();
    assert_eq!(objs.len(), 2);
    match objs[0].get("name") {
        Some(Val::Str(s)) => assert_eq!(s, "second"),
        _ => panic!("name field missing"),
    }
}

#[test]
fn offset_past_the_end_yields_empty() {
    let mut store = fresh_store();
    create_system(&mut store, "only");
    let opts = ListOptions { limit: None, offset: Some(10), order_bys: None };
    let objs = store.exec_select("system", None, opts).unwrap();
    assert!(objs.is_empty());
}

#[test]
fn concrete_scenario_system_then_station_then_filtered_list() {
    let mut store = fresh_store();
    let sys = SystemBmc::create(&mut store, SystemForCreate { name: String::from("System A") })
        .unwrap();
    assert_eq!(sys.id, "system:1");
    let st = StationBmc::create(
        &mut store,
        StationForCreate {
            system_id: sys.id.clone(),
            title: String::from("Station A.1"),
            visible: None,
            desc: None,
        },
    )
    .unwrap();
    let got = StationBmc::get(&store, &st.id).unwrap();
    assert!(got.visible);
    assert!(got.desc.is_none());
    let mut filter = StationFilter::new();
    filter
        .set_field("system_id", OpValsString(vec![OpValString::Eq(sys.id.clone())]))
        .unwrap();
    let listed = StationBmc::list(&store, Some(filter)).unwrap();
    assert_eq!(listed.len(), 1);
    assert_eq!(listed[0].id, st.id);
    assert_eq!(listed[0].title, "Station A.1");
}

#[test]
fn unknown_filter_field_is_rejected() {
    let mut filter = SystemFilter::new();
    let r = filter.set_field("ctime", OpValsString(vec![]));
    assert!(matches!(r, Err(Error::FilterInvalid)));
    let mut sf = StationFilter::new();
    let r2 = sf.set_field("visible", OpValsString(vec![]));
    assert!(matches!(r2, Err(Error::FilterInvalid)));
}

#[test]
fn exhausted_id_counter_is_a_store_fail() {
    let mut store = fresh_store();
    store.next_seq = model_store::store::SEQ_LIMIT;
    let r = SystemBmc::create(&mut store, SystemForCreate { name: String::from("late") });
    match r {
        Err(e) => assert_eq!(e.kind(), ErrorKind::StoreFail),
        Ok(_) => panic!("an exhausted backend must report a store failure"),
    }
}
