//! Providers of detailed device information, and the lookup they share.

use crate::device::{Device, SmartSocket, SmartThermometer};
use crate::text::{contains_text, lemma_middle_is_contained, text_of};
use vstd::prelude::*;
use vstd::string::*;

verus! {

/// The detailed line on a device with status line `report` that stands in `room`.
pub open spec fn full_info(room: Seq<char>, report: Seq<char>) -> Seq<char> {
    "Full info of device in Room "@ + room + " - "@ + report
}

/// The lookup table that a list of named devices amounts to: each name leads
/// to the status line of the device listed under it, and of two devices
/// listed under one name the later one counts.
pub open spec fn table_of(devices: Seq<(&str, &dyn Device)>) -> Map<Seq<char>, Seq<char>>
    decreases devices.len(),
{
    if devices.len() == 0 {
        Map::empty()
    } else {
        table_of(devices.drop_last()).insert(devices.last().0@, devices.last().1.report_spec())
    }
}

/// What a lookup of `device` in `table` gives for a device in `room`: the
/// detailed line where the table knows the name, nothing where it does not.
pub open spec fn lookup_info(
    room: Seq<char>,
    device: Seq<char>,
    table: Map<Seq<char>, Seq<char>>,
) -> Option<Seq<char>> {
    if table.contains_key(device) {
        Some(full_info(room, table[device]))
    } else {
        None
    }
}

/// A name that none of the devices is listed under is not in their table.
proof fn lemma_unlisted_name(devices: Seq<(&str, &dyn Device)>, name: Seq<char>)
    requires
        forall|j: int| 0 <= j < devices.len() ==> devices[j].0@ != name,
    ensures
        !table_of(devices).contains_key(name),
    decreases devices.len(),
{
    if devices.len() > 0 {
        let front = devices.drop_last();
        assert forall|j: int| 0 <= j < front.len() implies front[j].0@ != name by {
            assert(front[j] == devices[j]);
        }
        lemma_unlisted_name(front, name);
    }
}

/// The table leads from a name to the last device listed under it.
proof fn lemma_last_listed_counts(devices: Seq<(&str, &dyn Device)>, name: Seq<char>, at: int)
    requires
        0 <= at < devices.len(),
        devices[at].0@ == name,
        forall|j: int| at < j < devices.len() ==> devices[j].0@ != name,
    ensures
        table_of(devices).contains_key(name),
        table_of(devices)[name] == devices[at].1.report_spec(),
    decreases devices.len(),
{
    if at < devices.len() - 1 {
        let front = devices.drop_last();
        assert(front[at] == devices[at]);
        assert forall|j: int| at < j < front.len() implies front[j].0@ != name by {
            assert(front[j] == devices[j]);
        }
        lemma_last_listed_counts(front, name, at);
    }
}

/// The detailed line on a device ends with the device's status line.
pub proof fn lemma_full_info_holds_report(room: Seq<char>, report: Seq<char>)
    ensures
        contains_text(full_info(room, report), report),
        contains_text(full_info(room, report), room),
{
    let lead = "Full info of device in Room "@;
    lemma_middle_is_contained(lead + room + " - "@, report, Seq::empty());
    assert(full_info(room, report) =~= lead + room + " - "@ + report + Seq::<char>::empty());
    lemma_middle_is_contained(lead, room, " - "@ + report);
    assert(full_info(room, report) =~= lead + room + (" - "@ + report));
}

/// Looks `device` up among the listed devices and, where it is found, gives
/// the detailed line on it for `room`.
pub fn get_full_device_info(room: &str, device: &str, devices: Vec<(&str, &dyn Device)>) -> (info:
    Option<String>)
    ensures
        text_of(info) == lookup_info(room@, device@, table_of(devices@)),
{
    let wanted = device.to_owned();
    let mut i: usize = devices.len();
    while i > 0
        invariant
            i <= devices.len(),
            wanted@ == device@,
            forall|j: int| i <= j < devices.len() ==> devices[j].0@ != device@,
        decreases i,
    {
        i -= 1;
        if devices[i].0.to_owned() == wanted {
            proof {
                lemma_last_listed_counts(devices@, device@, i as int);
            }
            let mut line = String::from_str("Full info of device in Room ");
            line.append(room);
            line.append(" - ");
            let report = devices[i].1.report();
            line.append(report.as_str());
            return Some(line);
        }
    }
    proof {
        lemma_unlisted_name(devices@, device@);
    }
    None
}

/// Where detailed information on the devices of a house comes from.
pub trait DeviceInfoProvider {
    /// The detailed line that the provider has on `device` in `room`, if it
    /// knows the device.
    spec fn info_spec(&self, room: Seq<char>, device: Seq<char>) -> Option<Seq<char>>;

    /// Gives the detailed line on `device` in `room`, or nothing where the
    /// provider does not know the device.
    fn get_info(&self, room: &str, device: &str) -> (info: Option<String>)
        ensures
            text_of(info) == self.info_spec(room@, device@),
    ;
}

/// A provider that owns the one socket it knows.
pub struct OwningDeviceInfoProvider {
    pub socket: SmartSocket,
}

/// A provider that knows a socket and a thermometer owned by someone else.
pub struct BorrowingDeviceInfoProvider<'a, 'b> {
    pub socket: &'a SmartSocket,
    pub thermo: &'b SmartThermometer,
}

impl DeviceInfoProvider for OwningDeviceInfoProvider {
    open spec fn info_spec(&self, room: Seq<char>, device: Seq<char>) -> Option<Seq<char>> {
        if device == self.socket.name_spec() {
            Some(full_info(room, self.socket.report_spec()))
        } else {
            None
        }
    }

    /// The detailed line on the provider's socket where `device` is its
    /// name, nothing for every other name.
    fn get_info(&self, room: &str, device: &str) -> (info: Option<String>)
        ensures
            info is Some <==> device@ == self.socket.name_spec(),
            info is Some ==> info->0@ == full_info(room@, self.socket.report_spec()),
    {
        let devices: Vec<(&str, &dyn Device)> = vec![(self.socket.get_name(), &self.socket)];
        proof {
            reveal_with_fuel(table_of, 2);
            assert(devices@.drop_last() =~= Seq::<(&str, &dyn Device)>::empty());
        }
        get_full_device_info(room, device, devices)
    }
}

impl<'a, 'b> DeviceInfoProvider for BorrowingDeviceInfoProvider<'a, 'b> {
    open spec fn info_spec(&self, room: Seq<char>, device: Seq<char>) -> Option<Seq<char>> {
        if device == self.thermo.name_spec() {
            Some(full_info(room, self.thermo.report_spec()))
        } else if device == self.socket.name_spec() {
            Some(full_info(room, self.socket.report_spec()))
        } else {
            None
        }
    }

    /// The detailed line on the thermometer or on the socket where `device`
    /// is the name of one of them (on the thermometer where it is the name
    /// of both), nothing for every other name.
    fn get_info(&self, room: &str, device: &str) -> (info: Option<String>)
        ensures
            info is Some <==> device@ == self.socket.name_spec() || device@
                == self.thermo.name_spec(),
            device@ == self.thermo.name_spec() ==> text_of(info) == Some(
                full_info(room@, self.thermo.report_spec()),
            ),
            device@ == self.socket.name_spec() && device@ != self.thermo.name_spec() ==> text_of(
                info,
            ) == Some(full_info(room@, self.socket.report_spec())),
    {
        let devices: Vec<(&str, &dyn Device)> = vec![
            (self.socket.get_name(), self.socket),
            (self.thermo.get_name(), self.thermo),
        ];
        proof {
            reveal_with_fuel(table_of, 3);
            let front = devices@.drop_last();
            assert(front.len() == 1);
            assert(front[0] == devices@[0]);
            assert(front.drop_last() =~= Seq::<(&str, &dyn Device)>::empty());
        }
        get_full_device_info(room, device, devices)
    }
}

} // verus!
