use building_rendering::dict::IdDict;
use building_rendering::ids::RawID;

fn key(instance_id: u32) -> RawID {
    RawID { instance_id, type_id: 1, machine: 0, version: 0 }
}

#[test]
fn empty_dictionary_holds_nothing() {
    let dict: IdDict<usize> = IdDict::new();
    assert_eq!(dict.len(), 0);
    assert!(!dict.contains_key(key(1)));
    assert_eq!(dict.get(key(1)), None);
}

#[test]
fn insert_hands_back_the_previous_value() {
    let mut dict: IdDict<usize> = IdDict::new();
    assert_eq!(dict.insert(key(1), 10), None);
    assert_eq!(dict.insert(key(2), 20), None);
    assert_eq!(dict.insert(key(1), 11), Some(10));
    assert_eq!(dict.len(), 2);
    assert_eq!(dict.get(key(1)), Some(&11));
    assert_eq!(dict.get(key(2)), Some(&20));
}

#[test]
fn keys_differ_by_any_field() {
    let mut dict: IdDict<u8> = IdDict::new();
    let base = RawID { instance_id: 1, type_id: 1, machine: 1, version: 1 };
    dict.insert(base, 0);
    dict.insert(RawID { instance_id: 2, ..base }, 1);
    dict.insert(RawID { type_id: 2, ..base }, 2);
    dict.insert(RawID { machine: 2, ..base }, 3);
    dict.insert(RawID { version: 2, ..base }, 4);
    assert_eq!(dict.len(), 5);
    assert_eq!(dict.get(base), Some(&0));
    assert_eq!(dict.get(RawID { version: 2, ..base }), Some(&4));
}

#[test]
fn remove_hands_back_what_was_filed() {
    let mut dict: IdDict<usize> = IdDict::new();
    dict.insert(key(1), 10);
    dict.insert(key(2), 20);
    dict.insert(key(3), 30);
    assert_eq!(dict.remove(key(2)), Some(20));
    assert_eq!(dict.remove(key(2)), None);
    assert_eq!(dict.len(), 2);
    assert_eq!(dict.get(key(1)), Some(&10));
    assert_eq!(dict.get(key(3)), Some(&30));
    assert!(!dict.contains_key(key(2)));
}
