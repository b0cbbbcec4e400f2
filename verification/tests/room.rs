use smart_home::home::room::Room;
use smart_home::name_set::NameSet;

#[test]
fn test_add_device_to_room() {
    let mut room = Room::new(String::from("Test Room"));
    room.add_device("test_device");
    assert!(room.get_devices().contains("test_device"));
}

#[test]
fn new_room_has_its_name_and_no_devices() {
    let room = Room::new(String::from("Cellar"));
    assert_eq!(room.get_name(), "Cellar");
    assert!(room.get_devices().is_empty());
    assert_eq!(room.get_devices().len(), 0);
    assert!(!room.get_devices().contains("lamp"));
}

#[test]
fn adding_a_device_twice_registers_it_once() {
    let mut room = Room::new(String::from("Hall"));
    room.add_device("lamp");
    room.add_device("lamp");
    room.add_device("lamp");
    assert_eq!(room.get_devices().len(), 1);
    assert_eq!(room.get_devices().names(), &vec![String::from("lamp")]);
    let hits = room.get_devices().names().iter().filter(|n| n.as_str() == "lamp").count();
    assert_eq!(hits, 1);
}

#[test]
fn devices_keep_the_order_of_their_registration() {
    let mut room = Room::new(String::from("Hall"));
    room.add_device("b");
    room.add_device("a");
    room.add_device("b");
    room.add_device("c");
    assert_eq!(
        room.get_devices().names(),
        &vec![String::from("b"), String::from("a"), String::from("c")]
    );
    assert_eq!(room.get_name(), "Hall");
}

#[test]
fn name_set_insert_tells_whether_the_name_was_new() {
    let mut set = NameSet::new();
    assert!(set.is_empty());
    assert!(set.insert("x"));
    assert!(!set.insert("x"));
    assert!(set.insert("y"));
    assert!(set.insert(""));
    assert_eq!(set.len(), 3);
    assert!(!set.is_empty());
    assert!(set.contains("x"));
    assert!(set.contains("y"));
    assert!(set.contains(""));
    assert!(!set.contains("z"));
    assert!(!set.contains("X"));
}

#[test]
fn name_set_clone_is_independent() {
    let mut set = NameSet::new();
    set.insert("x");
    set.insert("y");
    let mut copy = set.clone();
    assert_eq!(copy.names(), set.names());
    copy.insert("z");
    assert_eq!(copy.len(), 3);
    assert_eq!(set.len(), 2);
    assert!(!set.contains("z"));
}
