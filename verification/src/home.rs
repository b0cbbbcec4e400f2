//! The house: its rooms, and the report on them.

pub mod report;
pub mod room;

use crate::home::report::{any_device, details, header, house_line, lemma_report_names_house,
    lemma_report_without_devices, listing, newline, notice_line, report_text, room_line,
    room_sections};
use crate::home::room::{Room, RoomView};
use crate::name_set::NameSet;
use crate::provider::DeviceInfoProvider;
use crate::text::{contains_text, join, texts};
use vstd::prelude::*;
use vstd::string::*;

verus! {

/// What a house is: its name and its rooms, in the order in which they were
/// added.
pub struct HouseView {
    pub name: Seq<char>,
    pub rooms: Seq<RoomView>,
}

/// The names of rooms, in order.
pub open spec fn room_names(rooms: Seq<RoomView>) -> Seq<Seq<char>> {
    Seq::new(rooms.len(), |i: int| rooms[i].name)
}

/// What rooms are to the house, in order.
pub open spec fn room_views(rooms: Seq<Room>) -> Seq<RoomView> {
    Seq::new(rooms.len(), |i: int| rooms[i]@)
}

/// What a list of rooms' device names says, entry by entry.
pub open spec fn listed(entries: Seq<(String, NameSet)>) -> Seq<RoomView> {
    Seq::new(entries.len(), |i: int| RoomView { name: entries[i].0@, devices: entries[i].1.order() })
}

impl HouseView {
    /// Whether the house has a room of that name.
    pub open spec fn has_room(self, name: Seq<char>) -> bool {
        room_names(self.rooms).contains(name)
    }

    /// No two rooms share a name, and no room holds a device name twice.
    pub open spec fn valid(self) -> bool {
        &&& room_names(self.rooms).no_duplicates()
        &&& forall|i: int| 0 <= i < self.rooms.len() ==> (#[trigger] self.rooms[i]).devices.no_duplicates()
    }

    /// The house with one more room at the end.
    pub open spec fn with_room(self, room: RoomView) -> HouseView {
        HouseView { name: self.name, rooms: self.rooms.push(room) }
    }
}

/// A house: a name and rooms, no two of them with the same name.
pub struct SmartHouse {
    name: String,
    rooms: Vec<Room>,
}

impl View for SmartHouse {
    type V = HouseView;

    closed spec fn view(&self) -> HouseView {
        HouseView { name: self.name@, rooms: room_views(self.rooms@) }
    }
}

impl SmartHouse {
    /// No two rooms share a name, and no room holds a device name twice.
    #[verifier::type_invariant]
    pub open spec fn wf(&self) -> bool {
        self@.valid()
    }

    /// A house without rooms.
    pub fn new(name: String) -> (house: Self)
        ensures
            house@.name == name@,
            house@.rooms == Seq::<RoomView>::empty(),
            house@.valid(),
    {
        let house = SmartHouse { name, rooms: Vec::new() };
        assert(house@.rooms =~= Seq::<RoomView>::empty());
        house
    }

    /// The house's name.
    pub fn get_name(&self) -> (name: String)
        ensures
            name@ == self@.name,
    {
        self.name.clone()
    }

    /// The rooms, in the order in which they were added.
    pub fn _get_rooms(&self) -> (rooms: &Vec<Room>)
        ensures
            room_views(rooms@) == self@.rooms,
            self@.valid(),
    {
        proof {
            use_type_invariant(self);
        }
        &self.rooms
    }

    /// Where the room of that name stands among the rooms.
    fn position(&self, name: &str) -> (found: Option<usize>)
        ensures
            found is None <==> !self@.has_room(name@),
            found is Some ==> found->0 < self@.rooms.len(),
            found is Some ==> self@.rooms[found->0 as int].name == name@,
    {
        let wanted = name.to_owned();
        let mut i: usize = 0;
        while i < self.rooms.len()
            invariant
                i <= self.rooms.len(),
                wanted@ == name@,
                forall|j: int| 0 <= j < i ==> self.rooms[j]@.name != name@,
            decreases self.rooms.len() - i,
        {
            if self.rooms[i].get_name().to_owned() == wanted {
                assert(room_names(self@.rooms)[i as int] == name@);
                return Some(i);
            }
            i += 1;
        }
        None
    }

    /// Adds a room, unless the house has a room of that name already: then
    /// the house stays as it is and the answer is `None`.
    pub fn add_room(&mut self, room: Room) -> (added: Option<bool>)
        ensures
            final(self)@.valid(),
            added == (if old(self)@.has_room(room@.name) {
                None
            } else {
                Some(true)
            }),
            added is None ==> *final(self) == *old(self),
            added is Some ==> final(self)@ == old(self)@.with_room(room@),
            added is Some ==> final(self)@.rooms.len() == old(self)@.rooms.len() + 1,
    {
        proof {
            use_type_invariant(&*self);
        }
        if self.position(room.get_name()).is_none() {
            let devices = room.get_devices();
            let ghost before = self@;
            let mut rooms: Vec<Room> = Vec::new();
            std::mem::swap(&mut rooms, &mut self.rooms);
            rooms.push(room);
            proof {
                let grown = room_views(rooms@);
                assert(grown =~= before.rooms.push(room@));
                assert forall|i: int, j: int|
                    0 <= i < grown.len() && 0 <= j < grown.len() && i != j implies room_names(
                    grown,
                )[i] != room_names(grown)[j] by {
                    if i < before.rooms.len() {
                        assert(room_names(before.rooms)[i] == grown[i].name);
                    }
                    if j < before.rooms.len() {
                        assert(room_names(before.rooms)[j] == grown[j].name);
                    }
                }
            }
            self.rooms = rooms;
            return Some(true);
        }
        None
    }

    /// The device names registered in the room of that name, if the house
    /// has such a room.
    pub fn get_devices_in_room(&self, room_name: &str) -> (devices: Option<&NameSet>)
        ensures
            self@.valid(),
            devices is Some <==> self@.has_room(room_name@),
            devices is Some ==> exists|i: int|
                0 <= i < self@.rooms.len() && (#[trigger] self@.rooms[i]).name == room_name@
                    && devices->0.order() == self@.rooms[i].devices,
    {
        proof {
            use_type_invariant(self);
        }
        match self.position(room_name) {
            Some(i) => {
                assert(self@.rooms[i as int].name == room_name@);
                Some(self.rooms[i].get_devices())
            },
            None => None,
        }
    }

    /// The device names of every room, room by room: a copy, in the order of
    /// the rooms.
    pub fn get_all_devices(&self) -> (all: Vec<(String, NameSet)>)
        ensures
            listed(all@) == self@.rooms,
            all@.len() == self@.rooms.len(),
            self@.valid(),
    {
        proof {
            use_type_invariant(self);
        }
        let mut all: Vec<(String, NameSet)> = Vec::new();
        let mut i: usize = 0;
        while i < self.rooms.len()
            invariant
                i <= self.rooms.len(),
                all.len() == i,
                listed(all@) == room_views(self.rooms@).take(i as int),
            decreases self.rooms.len() - i,
        {
            let room = &self.rooms[i];
            let ghost before = all@;
            all.push((room.get_name().to_owned(), room.get_devices().clone()));
            proof {
                let grown = listed(all@);
                let wanted = room_views(self.rooms@).take(i + 1);
                assert forall|j: int| 0 <= j < grown.len() implies grown[j] == wanted[j] by {
                    if j < i {
                        assert(all@[j] == before[j]);
                        assert(listed(before)[j] == room_views(self.rooms@).take(i as int)[j]);
                    }
                }
                assert(grown =~= wanted);
            }
            i += 1;
        }
        assert(room_views(self.rooms@).take(self.rooms.len() as int) =~= room_views(self.rooms@));
        all
    }

    /// The report on the house: its name, then for each room its name, the
    /// names of its registered devices and what `info` knows of each of them,
    /// and at the end a notice if no device is registered in any room.
    pub fn create_report(&self, info: &impl DeviceInfoProvider) -> (report: String)
        ensures
            report@ == report_text(info, self@),
            contains_text(report@, house_line(self@.name)),
            !any_device(self@.rooms) ==> contains_text(report@, notice_line()),
    {
        let mut report = String::new();
        report.append("\n");
        report.append("House name is : ");
        report.append(self.name.as_str());
        report.append("\n");
        report.append("\n");
        assert(report@ =~= header(self@.name));

        let mut any_device_found = false;
        let ghost rooms = self@.rooms;
        let mut r: usize = 0;
        while r < self.rooms.len()
            invariant
                r <= self.rooms.len(),
                rooms == room_views(self.rooms@),
                report@ == header(self@.name) + room_sections(info, rooms.take(r as int)),
                any_device_found == any_device(rooms.take(r as int)),
            decreases self.rooms.len() - r,
        {
            let room = &self.rooms[r];
            let room_name = room.get_name();
            let devices_in_room = room.get_devices();
            let devices = devices_in_room.names();
            let ghost start = report@;
            let ghost seen = rooms.take(r as int);
            let ghost names = room@.devices;

            report.append("Room: ");
            report.append(room_name);
            report.append("\n");
            if !devices_in_room.is_empty() {
                any_device_found = true;
                let line = join(devices, ", ");
                report.append("Devices: ");
                report.append(line.as_str());
                report.append("\n");
            }
            assert(report@ =~= start + room_line(room@.name) + newline() + listing(names));
            let ghost listed_up = report@;

            let mut d: usize = 0;
            while d < devices.len()
                invariant
                    d <= devices.len(),
                    texts(devices@) == names,
                    room_name@ == room@.name,
                    report@ == listed_up + details(info, room@.name, names.take(d as int)),
                    any_device_found == (any_device(seen) || names.len() > 0),
                decreases devices.len() - d,
            {
                proof {
                    let next = names.take(d + 1);
                    assert(next.drop_last() =~= names.take(d as int));
                    assert(next.last() == devices[d as int]@);
                }
                if let Some(device_info) = info.get_info(room_name, devices[d].as_str()) {
                    any_device_found = true;
                    report.append("  ");
                    report.append(device_info.as_str());
                    report.append("\n");
                }
                assert(report@ =~= listed_up + details(info, room@.name, names.take(d + 1)));
                d += 1;
            }
            report.append("\n");
            proof {
                assert(names.take(names.len() as int) =~= names);
                let next = rooms.take(r + 1);
                assert(next.drop_last() =~= seen);
                assert(next.last() == room@);
                assert(report@ =~= header(self@.name) + room_sections(info, next));
                if any_device(seen) {
                    let i = choose|i: int| 0 <= i < seen.len() && #[trigger] seen[i].devices.len() > 0;
                    assert(next[i].devices.len() > 0);
                }
                if names.len() > 0 {
                    assert(next[r as int].devices.len() > 0);
                }
                if any_device(next) {
                    let i = choose|i: int| 0 <= i < next.len() && #[trigger] next[i].devices.len() > 0;
                    if i < r {
                        assert(seen[i].devices.len() > 0);
                    }
                }
            }
            r += 1;
        }
        assert(rooms.take(self.rooms.len() as int) =~= rooms);

        if !any_device_found {
            report.append("No devices found in any room.");
            report.append("\n");
        }
        proof {
            assert(report@ =~= report_text(info, self@));
            lemma_report_names_house(info, self@);
            if !any_device(self@.rooms) {
                lemma_report_without_devices(info, self@);
            }
        }
        report
    }
}

} // verus!
