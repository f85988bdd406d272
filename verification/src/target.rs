//! Target temperatures: the per-probe alarm configuration that the bridge
//! remembers, because the thermometer forgets it when a probe is unplugged.

use crate::text::str_eq;
use std::collections::HashMap;
use vstd::prelude::*;
use vstd::string::StringExecFns;
use vstd::std_specs::hash::group_hash_axioms;

verus! {

broadcast use group_hash_axioms;

/// A temperature in degrees Celsius, carried as the bit pattern of an IEEE 754
/// single-precision number. The bridge hands temperatures on and never
/// computes with them.
#[derive(Clone, Copy, Debug, PartialEq, Eq, Structural)]
pub struct Temperature {
    pub bits: u32,
}

impl Temperature {
    /// The bit pattern of positive zero.
    pub open spec fn zero_spec() -> Temperature {
        Temperature { bits: 0 }
    }

    pub fn from_bits(bits: u32) -> (temperature: Temperature)
        ensures
            temperature.bits == bits,
    {
        Temperature { bits }
    }

    pub fn to_bits(self) -> (bits: u32)
        ensures
            bits == self.bits,
    {
        self.bits
    }
}

/// How a probe's target temperatures are to be used.
#[derive(Clone, Copy, Debug, PartialEq, Eq, Structural)]
pub enum TargetMode {
    /// No target: the probe never raises the alarm.
    Off,
    /// Alarm once the temperature is above the maximum.
    Single,
    /// Alarm once the temperature leaves the range from minimum to maximum.
    Range,
}

/// The target mode and temperatures of a single probe. Temperatures that the
/// mode does not use are kept, so that a later change of mode finds them.
#[derive(Clone, Copy, Debug, PartialEq, Eq, Structural)]
pub struct Target {
    pub mode: TargetMode,
    pub temperature_min: Temperature,
    pub temperature_max: Temperature,
}

/// The text that was offered as a target mode and is none.
#[derive(Clone, Debug, PartialEq, Eq)]
pub struct InvalidTargetMode {
    pub text: String,
}

impl TargetMode {
    /// The label under which the mode is published and written.
    pub open spec fn label(self) -> Seq<char> {
        match self {
            TargetMode::Off => "None"@,
            TargetMode::Single => "Maximum only"@,
            TargetMode::Range => "Range"@,
        }
    }

    /// The mode that a label names, if it names one.
    pub open spec fn from_label(label: Seq<char>) -> Option<TargetMode> {
        if label == "None"@ {
            Some(TargetMode::Off)
        } else if label == "Maximum only"@ {
            Some(TargetMode::Single)
        } else if label == "Range"@ {
            Some(TargetMode::Range)
        } else {
            None
        }
    }

    /// Every mode is found again from its label.
    pub proof fn lemma_label_roundtrip(self)
        ensures
            TargetMode::from_label(self.label()) == Some(self),
    {
        reveal_strlit("None");
        reveal_strlit("Maximum only");
        reveal_strlit("Range");
        assert("None"@.len() == 4);
        assert("Maximum only"@.len() == 12);
        assert("Range"@.len() == 5);
    }

    pub fn as_str(&self) -> (label: &'static str)
        ensures
            label@ == self.label(),
    {
        match self {
            TargetMode::Off => "None",
            TargetMode::Single => "Maximum only",
            TargetMode::Range => "Range",
        }
    }

    /// Reads a mode from its label; any other text is refused and handed back.
    pub fn from_str(s: &str) -> (mode: Result<TargetMode, InvalidTargetMode>)
        ensures
            match mode {
                Ok(m) => TargetMode::from_label(s@) == Some(m),
                Err(e) => TargetMode::from_label(s@) is None && e.text@ == s@,
            },
    {
        if str_eq(s, "None") {
            Ok(TargetMode::Off)
        } else if str_eq(s, "Maximum only") {
            Ok(TargetMode::Single)
        } else if str_eq(s, "Range") {
            Ok(TargetMode::Range)
        } else {
            Err(InvalidTargetMode { text: s.to_owned() })
        }
    }
}

impl InvalidTargetMode {
    /// The message that names the refused text.
    pub open spec fn message_spec(self) -> Seq<char> {
        "Invalid target mode "@ + self.text@
    }

    pub fn message(&self) -> (message: String)
        ensures
            message@ == self.message_spec(),
    {
        let mut message = "Invalid target mode ".to_owned();
        message.append(self.text.as_str());
        message
    }
}

impl Default for TargetMode {
    fn default() -> (mode: TargetMode)
        ensures
            mode == TargetMode::Off,
    {
        TargetMode::Off
    }
}

impl Target {
    /// The target of a probe that nobody has configured yet.
    pub open spec fn default_spec() -> Target {
        Target {
            mode: TargetMode::Off,
            temperature_min: Temperature::zero_spec(),
            temperature_max: Temperature::zero_spec(),
        }
    }
}

impl Default for Target {
    fn default() -> (target: Target)
        ensures
            target == Target::default_spec(),
    {
        Target {
            mode: TargetMode::Off,
            temperature_min: Temperature { bits: 0 },
            temperature_max: Temperature { bits: 0 },
        }
    }
}

/// The target that `targets` holds for a probe: its entry, or the default
/// where it has none yet.
pub open spec fn target_of(targets: Map<u8, Target>, probe_index: u8) -> Target {
    if targets.dom().contains(probe_index) {
        targets[probe_index]
    } else {
        Target::default_spec()
    }
}

/// The targets set for each probe, by probe index.
pub struct TargetState {
    targets: HashMap<u8, Target>,
}

impl View for TargetState {
    type V = Map<u8, Target>;

    closed spec fn view(&self) -> Map<u8, Target> {
        self.targets@
    }
}

impl TargetState {
    pub fn new() -> (state: TargetState)
        ensures
            state@ == Map::<u8, Target>::empty(),
    {
        TargetState { targets: HashMap::new() }
    }

    /// The target of a probe, made with the default on first use.
    pub fn target(&mut self, probe_index: u8) -> (target: &mut Target)
        ensures
            *target == target_of(old(self)@, probe_index),
            final(self)@ == old(self)@.insert(probe_index, *final(target)),
    {
        self.targets.entry(probe_index).or_insert(Target::default())
    }
}

} // verus!
