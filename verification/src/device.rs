//! The thermometer as the bridge sees it: what it can be told and what it
//! reports.

use crate::target::Temperature;
use crate::text::str_eq;
use vstd::prelude::*;

verus! {

/// A command for the thermometer.
#[derive(Clone, Copy, Debug, PartialEq, Eq, Structural)]
pub enum DeviceCommand {
    SetTemperatureUnit(TemperatureUnit),
    SilenceAlarm,
    /// Alarm above `target`.
    SetTargetTemp { probe: u8, target: Temperature },
    /// Alarm outside the range from `min` up to, not including, `max`.
    SetTargetRange { probe: u8, min: Temperature, max: Temperature },
    RemoveTarget { probe: u8 },
    EnableRealTimeData(bool),
    RequestBatteryLevel,
}

/// The unit in which the thermometer shows temperatures on its display.
#[derive(Clone, Copy, Debug, PartialEq, Eq, Structural)]
pub enum TemperatureUnit {
    Celcius,
    Fahrenheit,
}

impl TemperatureUnit {
    /// The label under which the unit is published and written.
    pub open spec fn label(self) -> Seq<char> {
        match self {
            TemperatureUnit::Celcius => "ºC"@,
            TemperatureUnit::Fahrenheit => "ºF"@,
        }
    }

    /// The unit that a label names, if it names one.
    pub open spec fn from_label(label: Seq<char>) -> Option<TemperatureUnit> {
        if label == "ºC"@ {
            Some(TemperatureUnit::Celcius)
        } else if label == "ºF"@ {
            Some(TemperatureUnit::Fahrenheit)
        } else {
            None
        }
    }

    /// Every unit is found again from its label.
    pub proof fn lemma_label_roundtrip(self)
        ensures
            TemperatureUnit::from_label(self.label()) == Some(self),
    {
        reveal_strlit("ºC");
        reveal_strlit("ºF");
        assert("ºC"@[1] == 'C');
        assert("ºF"@[1] == 'F');
    }

    pub fn as_str(&self) -> (label: &'static str)
        ensures
            label@ == self.label(),
    {
        match self {
            TemperatureUnit::Celcius => "ºC",
            TemperatureUnit::Fahrenheit => "ºF",
        }
    }
}

/// Reads a display unit from its label.
pub fn parse_display_unit(value: &str) -> (unit: Option<TemperatureUnit>)
    ensures
        unit == TemperatureUnit::from_label(value@),
{
    if str_eq(value, "ºC") {
        Some(TemperatureUnit::Celcius)
    } else if str_eq(value, "ºF") {
        Some(TemperatureUnit::Fahrenheit)
    } else {
        None
    }
}

/// What the thermometer reports besides temperatures.
#[derive(Clone, Copy, Debug, PartialEq, Eq, Structural)]
pub enum SettingResult {
    /// The thermometer has received a command.
    AcknowledgeCommand { command_id: u8, success: bool },
    BatteryLevel { current_voltage: u16, max_voltage: u16 },
    /// The button that silences the alarm was pressed.
    SilencePressed,
}

/// One report of the temperatures of all probe slots, in the order of the
/// probe indices; a slot without a probe holds no temperature.
#[derive(Clone, Debug)]
pub struct RealTimeData {
    pub probe_temperatures: Vec<Option<Temperature>>,
}

} // verus!
