//! What the report on a house says, as a text, and what follows from that.

use crate::home::room::RoomView;
use crate::home::HouseView;
use crate::provider::{full_info, lemma_full_info_holds_report, DeviceInfoProvider};
use crate::text::{contains_text, joined, lemma_contained_after_prefix,
    lemma_contained_in_extension, lemma_contained_in_whole, lemma_contains_itself,
    lemma_joined_contains_part, lemma_middle_is_contained, occurs_at};
use vstd::prelude::*;

verus! {

/// The line that names the house.
pub open spec fn house_line(house: Seq<char>) -> Seq<char> {
    "House name is : "@ + house
}

/// The line that names a room.
pub open spec fn room_line(room: Seq<char>) -> Seq<char> {
    "Room: "@ + room
}

/// The line that lists the device names registered in a room.
pub open spec fn devices_line(devices: Seq<Seq<char>>) -> Seq<char> {
    "Devices: "@ + joined(devices, ", "@)
}

/// The line that stands at the end of a report on a house without devices.
pub open spec fn notice_line() -> Seq<char> {
    "No devices found in any room."@
}

/// The end of a line.
pub open spec fn newline() -> Seq<char> {
    "\n"@
}

/// The head of the report: a blank line, the house's line, a blank line.
pub open spec fn header(house: Seq<char>) -> Seq<char> {
    newline() + house_line(house) + newline() + newline()
}

/// The listing of a room's registered devices: their line where there are
/// any, nothing where there are none.
pub open spec fn listing(devices: Seq<Seq<char>>) -> Seq<char> {
    if devices.len() == 0 {
        Seq::empty()
    } else {
        devices_line(devices) + newline()
    }
}

/// What the report shows of one answer of the provider: the detailed line,
/// indented by two spaces, or nothing where the provider had no answer.
pub open spec fn detail(info: Option<Seq<char>>) -> Seq<char> {
    match info {
        Some(line) => "  "@ + line + newline(),
        None => Seq::empty(),
    }
}

/// The provider's answers on the devices of a room, one after another.
pub open spec fn details<P: DeviceInfoProvider>(info: &P, room: Seq<char>, devices: Seq<Seq<char>>) -> Seq<char>
    decreases devices.len(),
{
    if devices.len() == 0 {
        Seq::empty()
    } else {
        details(info, room, devices.drop_last()) + detail(info.info_spec(room, devices.last()))
    }
}

/// The report's part on one room: its line, the listing of its devices, the
/// provider's answers on them, and a blank line.
pub open spec fn room_section<P: DeviceInfoProvider>(info: &P, room: RoomView) -> Seq<char> {
    room_line(room.name) + newline() + listing(room.devices) + details(
        info,
        room.name,
        room.devices,
    ) + newline()
}

/// The report's parts on the rooms, one after another.
pub open spec fn room_sections<P: DeviceInfoProvider>(info: &P, rooms: Seq<RoomView>) -> Seq<char>
    decreases rooms.len(),
{
    if rooms.len() == 0 {
        Seq::empty()
    } else {
        room_sections(info, rooms.drop_last()) + room_section(info, rooms.last())
    }
}

/// Whether a device is registered in one of the rooms.
pub open spec fn any_device(rooms: Seq<RoomView>) -> bool {
    exists|i: int| 0 <= i < rooms.len() && #[trigger] rooms[i].devices.len() > 0
}

/// The end of the report: nothing where a device is registered in some room,
/// the notice that there is none otherwise.
pub open spec fn closing(rooms: Seq<RoomView>) -> Seq<char> {
    if any_device(rooms) {
        Seq::empty()
    } else {
        notice_line() + newline()
    }
}

/// The report on a house, with the detailed lines that `info` provides.
pub open spec fn report_text<P: DeviceInfoProvider>(info: &P, house: HouseView) -> Seq<char> {
    header(house.name) + room_sections(info, house.rooms) + closing(house.rooms)
}

/// Every report holds the line that names the house, as its second line.
pub proof fn lemma_report_names_house<P: DeviceInfoProvider>(info: &P, house: HouseView)
    ensures
        occurs_at(report_text(info, house), house_line(house.name), newline().len() as int),
        contains_text(report_text(info, house), house_line(house.name)),
{
    let rest = newline() + newline() + room_sections(info, house.rooms) + closing(house.rooms);
    lemma_middle_is_contained(newline(), house_line(house.name), rest);
    assert(report_text(info, house) =~= newline() + house_line(house.name) + rest);
}

/// The report on a house in whose rooms no device is registered is the head,
/// the rooms' parts and the notice; so it contains the notice.
pub proof fn lemma_report_without_devices<P: DeviceInfoProvider>(info: &P, house: HouseView)
    requires
        !any_device(house.rooms),
    ensures
        report_text(info, house) == header(house.name) + room_sections(info, house.rooms)
            + notice_line() + newline(),
        contains_text(report_text(info, house), notice_line()),
{
    let before = header(house.name) + room_sections(info, house.rooms);
    lemma_middle_is_contained(before, notice_line(), newline());
    assert(report_text(info, house) =~= before + notice_line() + newline());
}

/// The report on a house without rooms is the head and the notice.
pub proof fn lemma_report_without_rooms<P: DeviceInfoProvider>(info: &P, house: HouseView)
    requires
        house.rooms.len() == 0,
    ensures
        report_text(info, house) == header(house.name) + notice_line() + newline(),
        contains_text(report_text(info, house), notice_line()),
{
    lemma_report_without_devices(info, house);
    assert(report_text(info, house) =~= header(house.name) + notice_line() + newline());
}

/// The report on a house in one of whose rooms a device is registered ends
/// with the last room's part: no notice follows.
pub proof fn lemma_report_with_devices<P: DeviceInfoProvider>(info: &P, house: HouseView)
    requires
        any_device(house.rooms),
    ensures
        report_text(info, house) == header(house.name) + room_sections(info, house.rooms),
{
    assert(report_text(info, house) =~= header(house.name) + room_sections(info, house.rooms));
}

/// The rooms' parts contain the part on each of the rooms.
proof fn lemma_sections_hold_section<P: DeviceInfoProvider>(info: &P, rooms: Seq<RoomView>, i: int)
    requires
        0 <= i < rooms.len(),
    ensures
        contains_text(room_sections(info, rooms), room_section(info, rooms[i])),
    decreases rooms.len(),
{
    let front = room_sections(info, rooms.drop_last());
    let last = room_section(info, rooms.last());
    if i == rooms.len() - 1 {
        lemma_contains_itself(last);
        lemma_contained_after_prefix(front, last, last);
    } else {
        lemma_sections_hold_section(info, rooms.drop_last(), i);
        assert(rooms.drop_last()[i] == rooms[i]);
        lemma_contained_in_extension(front, room_section(info, rooms[i]), last);
    }
}

/// The report contains the part on each room of the house.
proof fn lemma_report_holds_section<P: DeviceInfoProvider>(info: &P, house: HouseView, i: int)
    requires
        0 <= i < house.rooms.len(),
    ensures
        contains_text(report_text(info, house), room_section(info, house.rooms[i])),
{
    let sections = room_sections(info, house.rooms);
    lemma_sections_hold_section(info, house.rooms, i);
    lemma_middle_is_contained(header(house.name), sections, closing(house.rooms));
    lemma_contained_in_whole(report_text(info, house), sections, room_section(info, house.rooms[i]));
}

/// The provider's answers on a room's devices contain what the report shows
/// of each single answer.
proof fn lemma_details_hold_detail<P: DeviceInfoProvider>(
    info: &P,
    room: Seq<char>,
    devices: Seq<Seq<char>>,
    j: int,
)
    requires
        0 <= j < devices.len(),
    ensures
        contains_text(details(info, room, devices), detail(info.info_spec(room, devices[j]))),
    decreases devices.len(),
{
    let front = details(info, room, devices.drop_last());
    let last = detail(info.info_spec(room, devices.last()));
    if j == devices.len() - 1 {
        lemma_contains_itself(last);
        lemma_contained_after_prefix(front, last, last);
    } else {
        lemma_details_hold_detail(info, room, devices.drop_last(), j);
        assert(devices.drop_last()[j] == devices[j]);
        lemma_contained_in_extension(front, detail(info.info_spec(room, devices[j])), last);
    }
}

/// The report names every room of the house.
pub proof fn lemma_report_names_room<P: DeviceInfoProvider>(info: &P, house: HouseView, i: int)
    requires
        0 <= i < house.rooms.len(),
    ensures
        contains_text(report_text(info, house), room_line(house.rooms[i].name)),
{
    let room = house.rooms[i];
    let rest = newline() + listing(room.devices) + details(info, room.name, room.devices)
        + newline();
    lemma_middle_is_contained(Seq::empty(), room_line(room.name), rest);
    assert(room_section(info, room) =~= Seq::<char>::empty() + room_line(room.name) + rest);
    lemma_report_holds_section(info, house, i);
    lemma_contained_in_whole(report_text(info, house), room_section(info, room), room_line(room.name));
}

/// The report lists every device name registered in a room of the house,
/// on the line of that room's devices.
pub proof fn lemma_report_lists_device<P: DeviceInfoProvider>(
    info: &P,
    house: HouseView,
    i: int,
    j: int,
)
    requires
        0 <= i < house.rooms.len(),
        0 <= j < house.rooms[i].devices.len(),
    ensures
        contains_text(report_text(info, house), devices_line(house.rooms[i].devices)),
        contains_text(devices_line(house.rooms[i].devices), house.rooms[i].devices[j]),
{
    let room = house.rooms[i];
    let line = devices_line(room.devices);
    let rest = newline() + details(info, room.name, room.devices) + newline();
    lemma_middle_is_contained(room_line(room.name) + newline(), line, rest);
    assert(room_section(info, room) =~= room_line(room.name) + newline() + line + rest);
    lemma_report_holds_section(info, house, i);
    lemma_contained_in_whole(report_text(info, house), room_section(info, room), line);
    lemma_joined_contains_part(room.devices, ", "@, j);
    lemma_contained_after_prefix("Devices: "@, joined(room.devices, ", "@), room.devices[j]);
}

/// The report shows, for every registered device that the provider knows,
/// the provider's line on it.
pub proof fn lemma_report_shows_known_device<P: DeviceInfoProvider>(
    info: &P,
    house: HouseView,
    i: int,
    j: int,
)
    requires
        0 <= i < house.rooms.len(),
        0 <= j < house.rooms[i].devices.len(),
        info.info_spec(house.rooms[i].name, house.rooms[i].devices[j]) is Some,
    ensures
        contains_text(
            report_text(info, house),
            info.info_spec(house.rooms[i].name, house.rooms[i].devices[j])->0,
        ),
{
    let room = house.rooms[i];
    let answer = info.info_spec(room.name, room.devices[j]);
    let all = details(info, room.name, room.devices);
    lemma_middle_is_contained("  "@, answer->0, newline());
    lemma_details_hold_detail(info, room.name, room.devices, j);
    lemma_contained_in_whole(all, detail(answer), answer->0);
    lemma_middle_is_contained(room_line(room.name) + newline() + listing(room.devices), all, newline());
    lemma_contained_in_whole(room_section(info, room), all, answer->0);
    lemma_report_holds_section(info, house, i);
    lemma_contained_in_whole(report_text(info, house), room_section(info, room), answer->0);
}

/// Where the provider's line on a registered device is the detailed line
/// made from a status line, the report shows that detailed line and, in it,
/// the status line.
pub proof fn lemma_report_shows_status<P: DeviceInfoProvider>(
    info: &P,
    house: HouseView,
    i: int,
    j: int,
    status: Seq<char>,
)
    requires
        0 <= i < house.rooms.len(),
        0 <= j < house.rooms[i].devices.len(),
        info.info_spec(house.rooms[i].name, house.rooms[i].devices[j]) == Some(
            full_info(house.rooms[i].name, status),
        ),
    ensures
        contains_text(report_text(info, house), full_info(house.rooms[i].name, status)),
        contains_text(report_text(info, house), status),
{
    let line = full_info(house.rooms[i].name, status);
    lemma_report_shows_known_device(info, house, i, j);
    lemma_full_info_holds_report(house.rooms[i].name, status);
    lemma_contained_in_whole(report_text(info, house), line, status);
}

/// Where the provider knows none of a room's devices, the room's part holds
/// no detailed line: it is the room's line, the listing and a blank line.
pub proof fn lemma_unknown_devices_add_nothing<P: DeviceInfoProvider>(info: &P, room: RoomView)
    requires
        forall|i: int|
            0 <= i < room.devices.len() ==> info.info_spec(room.name, #[trigger] room.devices[i])
                is None,
    ensures
        details(info, room.name, room.devices) == Seq::<char>::empty(),
        room_section(info, room) == room_line(room.name) + newline() + listing(room.devices)
            + newline(),
{
    lemma_no_details(info, room.name, room.devices);
    assert(room_section(info, room) =~= room_line(room.name) + newline() + listing(room.devices)
        + newline());
}

/// Devices that the provider does not know give no detailed lines.
proof fn lemma_no_details<P: DeviceInfoProvider>(info: &P, room: Seq<char>, devices: Seq<Seq<char>>)
    requires
        forall|i: int| 0 <= i < devices.len() ==> info.info_spec(room, #[trigger] devices[i]) is None,
    ensures
        details(info, room, devices) == Seq::<char>::empty(),
    decreases devices.len(),
{
    if devices.len() > 0 {
        let front = devices.drop_last();
        assert forall|i: int| 0 <= i < front.len() implies info.info_spec(room, #[trigger] front[i]) is None by {
            assert(front[i] == devices[i]);
        }
        lemma_no_details(info, room, front);
        assert(devices.last() == devices[devices.len() - 1]);
        assert(details(info, room, devices) =~= Seq::<char>::empty());
    }
}

} // verus!
