use steam_store_api::envelope::{take_answer, Envelope, IdMap};
use steam_store_api::error::SteamErr;

fn keys<T>(map: IdMap<T>) -> Vec<String> {
    map.into_entries().into_iter().map(|(key, _)| key).collect()
}

#[test]
fn envelope_with_data_gives_the_data() {
    let envelope = Envelope { success: true, data: Some(5u32) };
    assert!(matches!(envelope.into_result(), Ok(5)));
}

#[test]
fn envelope_without_success_gives_no_success() {
    let envelope: Envelope<u32> = Envelope { success: false, data: None };
    assert!(matches!(envelope.into_result(), Err(SteamErr::ResponseWithNoSuccess)));
}

#[test]
fn envelope_without_success_hides_its_data() {
    let envelope = Envelope { success: false, data: Some(5u32) };
    assert!(matches!(envelope.into_result(), Err(SteamErr::ResponseWithNoSuccess)));
}

#[test]
fn envelope_with_success_and_no_data_gives_no_data() {
    let envelope: Envelope<u32> = Envelope { success: true, data: None };
    assert!(matches!(envelope.into_result(), Err(SteamErr::ResponseWithNoData)));
}

#[test]
fn new_map_is_empty() {
    let map: IdMap<u32> = IdMap::new();
    assert_eq!(map.len(), 0);
    assert!(map.into_entries().is_empty());
}

#[test]
fn insert_keeps_the_order_of_new_keys() {
    let mut map = IdMap::new();
    assert_eq!(map.insert("30".to_string(), 3u32), None);
    assert_eq!(map.insert("10".to_string(), 1), None);
    assert_eq!(map.insert("20".to_string(), 2), None);
    assert_eq!(map.len(), 3);
    assert_eq!(
        map.into_entries(),
        vec![("30".to_string(), 3), ("10".to_string(), 1), ("20".to_string(), 2)]
    );
}

#[test]
fn insert_replaces_the_value_of_a_key_in_place() {
    let mut map = IdMap::new();
    map.insert("a".to_string(), 1u32);
    map.insert("b".to_string(), 2);
    map.insert("c".to_string(), 3);
    assert_eq!(map.insert("b".to_string(), 20), Some(2));
    assert_eq!(map.len(), 3);
    assert_eq!(
        map.into_entries(),
        vec![("a".to_string(), 1), ("b".to_string(), 20), ("c".to_string(), 3)]
    );
}

#[test]
fn remove_takes_the_entry_out() {
    let mut map = IdMap::new();
    map.insert("a".to_string(), 1u32);
    map.insert("b".to_string(), 2);
    map.insert("c".to_string(), 3);
    assert_eq!(map.remove(&"b".to_string()), Some(2));
    assert_eq!(map.remove(&"b".to_string()), None);
    assert_eq!(map.remove(&"B".to_string()), None);
    assert_eq!(map.len(), 2);
    assert_eq!(keys(map), vec!["a", "c"]);
}

#[test]
fn keys_are_compared_as_text() {
    let mut map = IdMap::new();
    map.insert("7".to_string(), 1u32);
    assert_eq!(map.insert("07".to_string(), 2), None);
    assert_eq!(map.insert("+7".to_string(), 3), None);
    assert_eq!(map.len(), 3);
    assert_eq!(map.remove(&"7".to_string()), Some(1));
}

#[test]
fn take_answer_finds_the_entry_by_decimal_text() {
    let mut map = IdMap::new();
    map.insert("10".to_string(), Envelope { success: true, data: Some("ten") });
    map.insert("20".to_string(), Envelope { success: true, data: Some("twenty") });
    assert!(matches!(take_answer(map, 20), Ok("twenty")));
}

#[test]
fn take_answer_reports_an_absent_id_with_its_text() {
    let mut map = IdMap::new();
    map.insert("10".to_string(), Envelope { success: true, data: Some("ten") });
    map.insert("020".to_string(), Envelope { success: true, data: Some("twenty") });
    match take_answer(map, 20) {
        Err(SteamErr::IdNotFound(id)) => assert_eq!(id, "20"),
        other => panic!("{}", format!("{:?}", other)),
    }
}

#[test]
fn take_answer_on_an_empty_response_is_not_found() {
    let map: IdMap<Envelope<u32>> = IdMap::new();
    match take_answer(map, 0) {
        Err(SteamErr::IdNotFound(id)) => assert_eq!(id, "0"),
        other => panic!("{}", format!("{:?}", other)),
    }
}

#[test]
fn take_answer_opens_the_envelope_that_it_found() {
    let mut map: IdMap<Envelope<u32>> = IdMap::new();
    map.insert("1".to_string(), Envelope { success: false, data: None });
    map.insert("2".to_string(), Envelope { success: true, data: None });
    map.insert("3".to_string(), Envelope { success: true, data: Some(33) });
    let mut first = IdMap::new();
    let mut second = IdMap::new();
    let mut third = IdMap::new();
    for (key, envelope) in map.into_entries() {
        let copy = Envelope { success: envelope.success, data: envelope.data };
        first.insert(key.clone(), Envelope { success: copy.success, data: copy.data });
        second.insert(key.clone(), Envelope { success: copy.success, data: copy.data });
        third.insert(key, copy);
    }
    assert!(matches!(take_answer(first, 1), Err(SteamErr::ResponseWithNoSuccess)));
    assert!(matches!(take_answer(second, 2), Err(SteamErr::ResponseWithNoData)));
    assert!(matches!(take_answer(third, 3), Ok(33)));
}
