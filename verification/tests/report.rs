use smart_home::device::{Device, SmartSocket, SmartThermometer};
use smart_home::home::room::Room;
use smart_home::home::SmartHouse;
use smart_home::provider::{
    get_full_device_info, BorrowingDeviceInfoProvider, DeviceInfoProvider,
    OwningDeviceInfoProvider,
};
use smart_home::text::join;

#[test]
fn test_create_report() {
    let mut smart_house = SmartHouse::new(String::from("Test House"));

    let mut living_room = Room::new(String::from("Living Room"));
    living_room.add_device("sm_socket_1");
    smart_house.add_room(living_room);

    let socket1 = SmartSocket::new(String::from("sm_socket_1"), false);
    let info_provider = OwningDeviceInfoProvider { socket: socket1 };
    let report = smart_house.create_report(&info_provider);

    assert!(report.contains("House name is : Test House"));
    assert!(report.contains("Room: Living Room"));
    assert!(report.contains("Socket: sm_socket_1 and status is false"));
}

#[test]
fn report_text_is_exact() {
    let mut house = SmartHouse::new(String::from("Test House"));
    let mut living_room = Room::new(String::from("Living Room"));
    living_room.add_device("sm_socket_1");
    living_room.add_device("lamp");
    house.add_room(living_room);
    house.add_room(Room::new(String::from("Attic")));

    let socket = SmartSocket::new(String::from("sm_socket_1"), false);
    let provider = OwningDeviceInfoProvider { socket };
    let report = house.create_report(&provider);

    assert_eq!(
        report,
        "\nHouse name is : Test House\n\n\
         Room: Living Room\n\
         Devices: sm_socket_1, lamp\n\
         \x20 Full info of device in Room Living Room - Socket: sm_socket_1 and status is false\n\
         \n\
         Room: Attic\n\
         \n"
    );
}

#[test]
fn report_always_names_the_house() {
    for name in ["H", "", "My Smart House", "Дом"] {
        let house = SmartHouse::new(String::from(name));
        let socket = SmartSocket::new(String::from("s"), true);
        let report = house.create_report(&OwningDeviceInfoProvider { socket });
        assert!(report.starts_with(&format!("\nHouse name is : {}\n\n", name)));
        assert!(report.lines().any(|line| line == format!("House name is : {}", name)));
    }
}

#[test]
fn report_with_a_borrowing_provider() {
    let mut house = SmartHouse::new(String::from("H"));
    let mut a = Room::new(String::from("A"));
    a.add_device("s1");
    let mut b = Room::new(String::from("B"));
    b.add_device("t1");
    house.add_room(a);
    house.add_room(b);

    let socket = SmartSocket::new(String::from("s1"), true);
    let thermo = SmartThermometer::new(String::from("t1"), true);
    let provider = BorrowingDeviceInfoProvider { socket: &socket, thermo: &thermo };
    let report = house.create_report(&provider);

    assert!(report.contains("Room: A"));
    assert!(report.contains("Full info of device in Room A - Socket: s1 and status is true"));
    assert!(report.contains("Room: B"));
    assert!(report.contains("Full info of device in Room B - Thermometer: t1 and status is true"));
    assert!(!report.contains("No devices found in any room."));
    assert_eq!(
        report,
        "\nHouse name is : H\n\n\
         Room: A\nDevices: s1\n\x20 Full info of device in Room A - Socket: s1 and status is true\n\n\
         Room: B\nDevices: t1\n\x20 Full info of device in Room B - Thermometer: t1 and status is true\n\n"
    );
    assert_eq!(socket.get_name(), "s1");
    assert_eq!(thermo.get_name(), "t1");
}

#[test]
fn report_on_a_house_without_rooms() {
    let house = SmartHouse::new(String::from("Empty"));
    let socket = SmartSocket::new(String::from("s"), true);
    let report = house.create_report(&OwningDeviceInfoProvider { socket });
    assert!(report.contains("No devices found in any room."));
    assert_eq!(report, "\nHouse name is : Empty\n\nNo devices found in any room.\n");
}

#[test]
fn report_on_rooms_without_devices() {
    let mut house = SmartHouse::new(String::from("Bare"));
    house.add_room(Room::new(String::from("A")));
    house.add_room(Room::new(String::from("B")));
    let socket = SmartSocket::new(String::from("s"), true);
    let report = house.create_report(&OwningDeviceInfoProvider { socket });
    assert!(report.contains("No devices found in any room."));
    assert_eq!(
        report,
        "\nHouse name is : Bare\n\nRoom: A\n\nRoom: B\n\nNo devices found in any room.\n"
    );
}

#[test]
fn unknown_device_is_listed_without_detail() {
    let mut house = SmartHouse::new(String::from("H"));
    let mut a = Room::new(String::from("A"));
    a.add_device("ghost");
    house.add_room(a);

    let socket = SmartSocket::new(String::from("s1"), true);
    let provider = OwningDeviceInfoProvider { socket };
    assert_eq!(provider.get_info("A", "ghost"), None);

    let report = house.create_report(&provider);
    assert!(report.contains("Devices: ghost"));
    assert!(!report.contains("Full info"));
    assert!(!report.contains("No devices found in any room."));
    assert_eq!(report, "\nHouse name is : H\n\nRoom: A\nDevices: ghost\n\n");
}

#[test]
fn socket_report_and_name() {
    let on = SmartSocket::new(String::from("s1"), true);
    let off = SmartSocket::new(String::from("s2"), false);
    assert_eq!(on.report(), "Socket: s1 and status is true");
    assert_eq!(off.report(), "Socket: s2 and status is false");
    assert_eq!(on.get_name(), "s1");
    assert_eq!(off.get_name(), "s2");
}

#[test]
fn thermometer_report_and_name() {
    let on = SmartThermometer::new(String::from("t1"), true);
    let off = SmartThermometer::new(String::from(""), false);
    assert_eq!(on.report(), "Thermometer: t1 and status is true");
    assert_eq!(off.report(), "Thermometer:  and status is false");
    assert_eq!(on.get_name(), "t1");
    assert_eq!(off.get_name(), "");
}

#[test]
fn owning_provider_knows_its_socket_only() {
    let socket = SmartSocket::new(String::from("s1"), false);
    let provider = OwningDeviceInfoProvider { socket };
    assert_eq!(
        provider.get_info("Kitchen", "s1"),
        Some(String::from("Full info of device in Room Kitchen - Socket: s1 and status is false"))
    );
    assert_eq!(provider.get_info("Kitchen", "s2"), None);
    assert_eq!(provider.get_info("Kitchen", ""), None);
    assert_eq!(provider.get_info("Kitchen", "S1"), None);
}

#[test]
fn borrowing_provider_knows_both_devices() {
    let socket = SmartSocket::new(String::from("s1"), true);
    let thermo = SmartThermometer::new(String::from("t1"), false);
    let provider = BorrowingDeviceInfoProvider { socket: &socket, thermo: &thermo };
    assert_eq!(
        provider.get_info("A", "s1"),
        Some(String::from("Full info of device in Room A - Socket: s1 and status is true"))
    );
    assert_eq!(
        provider.get_info("B", "t1"),
        Some(String::from("Full info of device in Room B - Thermometer: t1 and status is false"))
    );
    assert_eq!(provider.get_info("A", "x"), None);
}

#[test]
fn borrowing_provider_prefers_the_thermometer_on_equal_names() {
    let socket = SmartSocket::new(String::from("d"), true);
    let thermo = SmartThermometer::new(String::from("d"), true);
    let provider = BorrowingDeviceInfoProvider { socket: &socket, thermo: &thermo };
    assert_eq!(
        provider.get_info("A", "d"),
        Some(String::from("Full info of device in Room A - Thermometer: d and status is true"))
    );
}

#[test]
fn full_device_info_looks_the_name_up() {
    let socket = SmartSocket::new(String::from("s1"), true);
    let thermo = SmartThermometer::new(String::from("t1"), true);
    let table: Vec<(&str, &dyn Device)> = vec![("s1", &socket), ("t1", &thermo)];
    assert_eq!(
        get_full_device_info("R", "t1", table),
        Some(String::from("Full info of device in Room R - Thermometer: t1 and status is true"))
    );
    let table: Vec<(&str, &dyn Device)> = vec![("s1", &socket), ("t1", &thermo)];
    assert_eq!(
        get_full_device_info("R", "s1", table),
        Some(String::from("Full info of device in Room R - Socket: s1 and status is true"))
    );
    let table: Vec<(&str, &dyn Device)> = vec![("s1", &socket), ("t1", &thermo)];
    assert_eq!(get_full_device_info("R", "u1", table), None);
    assert_eq!(get_full_device_info("R", "s1", Vec::new()), None);
}

#[test]
fn full_device_info_goes_by_the_listed_name_and_the_later_entry() {
    let socket = SmartSocket::new(String::from("s1"), true);
    let thermo = SmartThermometer::new(String::from("t1"), false);
    let table: Vec<(&str, &dyn Device)> = vec![("k", &socket), ("k", &thermo), ("m", &socket)];
    assert_eq!(
        get_full_device_info("R", "k", table),
        Some(String::from("Full info of device in Room R - Thermometer: t1 and status is false"))
    );
    let table: Vec<(&str, &dyn Device)> = vec![("k", &socket), ("k", &thermo), ("m", &socket)];
    assert_eq!(
        get_full_device_info("R", "m", table),
        Some(String::from("Full info of device in Room R - Socket: s1 and status is true"))
    );
    let table: Vec<(&str, &dyn Device)> = vec![("k", &socket)];
    assert_eq!(get_full_device_info("R", "s1", table), None);
}

#[test]
fn join_puts_the_separator_between_neighbours() {
    assert_eq!(join(&Vec::new(), ", "), "");
    assert_eq!(join(&vec![String::from("a")], ", "), "a");
    assert_eq!(join(&vec![String::from("a"), String::from("b"), String::from("c")], ", "), "a, b, c");
    assert_eq!(join(&vec![String::from(""), String::from("")], "-"), "-");
}
