//! Rooms: a name and the names of the devices registered there.

use crate::name_set::{occurrences, with_name, NameSet};
use vstd::prelude::*;
use vstd::string::*;

verus! {

/// What a room is to the rest of the house: its name and the names of its
/// devices, in the order in which they were registered.
pub struct RoomView {
    pub name: Seq<char>,
    pub devices: Seq<Seq<char>>,
}

/// A room of a house. It holds the names of its devices, not the devices.
pub struct Room {
    name: String,
    devices: NameSet,
}

impl View for Room {
    type V = RoomView;

    /// The room's name and the names of its devices.
    closed spec fn view(&self) -> RoomView {
        RoomView { name: self.name@, devices: self.devices.order() }
    }
}

impl Room {
    /// A room without devices.
    pub fn new(name: String) -> (room: Self)
        ensures
            room@.name == name@,
            room@.devices == Seq::<Seq<char>>::empty(),
    {
        Room { name, devices: NameSet::new() }
    }

    /// The room's name.
    pub fn get_name(&self) -> (name: &str)
        ensures
            name@ == self@.name,
    {
        self.name.as_str()
    }

    /// Registers a device by its name. A name that is already registered
    /// changes nothing, so each name is registered at most once.
    pub fn add_device(&mut self, device: &str)
        ensures
            final(self)@.name == old(self)@.name,
            final(self)@.devices == with_name(old(self)@.devices, device@),
            final(self)@.devices.to_set() == old(self)@.devices.to_set().insert(device@),
            final(self)@.devices.no_duplicates(),
            occurrences(final(self)@.devices, device@) == 1,
    {
        self.devices.insert(device);
    }

    /// The names of the registered devices.
    pub fn get_devices(&self) -> (devices: &NameSet)
        ensures
            devices.order() == self@.devices,
            devices@ == self@.devices.to_set(),
            self@.devices.no_duplicates(),
    {
        proof {
            use_type_invariant(&self.devices);
        }
        &self.devices
    }
}

} // verus!
