//! Devices: named units with an on/off state and a one-line status report.

use vstd::prelude::*;
use vstd::string::*;

verus! {

/// The text that stands for a boolean in a status line.
pub open spec fn bool_text(b: bool) -> Seq<char> {
    if b {
        "true"@
    } else {
        "false"@
    }
}

/// The word that a status line shows for a boolean.
fn bool_word(b: bool) -> (word: &'static str)
    ensures
        word@ == bool_text(b),
{
    if b {
        "true"
    } else {
        "false"
    }
}

/// The status line of a socket with the given name and state.
pub open spec fn socket_report(name: Seq<char>, enabled: bool) -> Seq<char> {
    "Socket: "@ + name + " and status is "@ + bool_text(enabled)
}

/// The status line of a thermometer with the given name and state.
pub open spec fn thermometer_report(name: Seq<char>, enabled: bool) -> Seq<char> {
    "Thermometer: "@ + name + " and status is "@ + bool_text(enabled)
}

/// What every device can do: tell its name and report its status.
pub trait Device {
    /// The device's name.
    spec fn name_spec(&self) -> Seq<char>;

    /// The device's status line.
    spec fn report_spec(&self) -> Seq<char>;

    /// Tells the device's name.
    fn get_name(&self) -> (name: &str)
        ensures
            name@ == self.name_spec(),
    ;

    /// Writes the device's status line.
    fn report(&self) -> (line: String)
        ensures
            line@ == self.report_spec(),
    ;
}

/// A socket that can be switched on and off.
pub struct SmartSocket {
    name: String,
    enable: bool,
}

impl SmartSocket {
    /// The socket's name.
    pub closed spec fn name(&self) -> Seq<char> {
        self.name@
    }

    /// Whether the socket is switched on.
    pub closed spec fn enabled(&self) -> bool {
        self.enable
    }

    /// A socket of that name, switched on or off.
    pub fn new(name: String, enable: bool) -> (socket: Self)
        ensures
            socket.name() == name@,
            socket.enabled() == enable,
    {
        SmartSocket { name, enable }
    }
}

impl Device for SmartSocket {
    open spec fn name_spec(&self) -> Seq<char> {
        self.name()
    }

    open spec fn report_spec(&self) -> Seq<char> {
        socket_report(self.name(), self.enabled())
    }

    fn get_name(&self) -> (name: &str) {
        self.name.as_str()
    }

    fn report(&self) -> (line: String) {
        let mut line = String::from_str("Socket: ");
        line.append(self.name.as_str());
        line.append(" and status is ");
        line.append(bool_word(self.enable));
        line
    }
}

/// A thermometer that can be switched on and off.
pub struct SmartThermometer {
    name: String,
    enable: bool,
}

impl SmartThermometer {
    /// The thermometer's name.
    pub closed spec fn name(&self) -> Seq<char> {
        self.name@
    }

    /// Whether the thermometer is switched on.
    pub closed spec fn enabled(&self) -> bool {
        self.enable
    }

    /// A thermometer of that name, switched on or off.
    pub fn new(name: String, enable: bool) -> (thermometer: Self)
        ensures
            thermometer.name() == name@,
            thermometer.enabled() == enable,
    {
        SmartThermometer { name, enable }
    }
}

impl Device for SmartThermometer {
    open spec fn name_spec(&self) -> Seq<char> {
        self.name()
    }

    open spec fn report_spec(&self) -> Seq<char> {
        thermometer_report(self.name(), self.enabled())
    }

    fn get_name(&self) -> (name: &str) {
        self.name.as_str()
    }

    fn report(&self) -> (line: String) {
        let mut line = String::from_str("Thermometer: ");
        line.append(self.name.as_str());
        line.append(" and status is ");
        line.append(bool_word(self.enable));
        line
    }
}

} // verus!
