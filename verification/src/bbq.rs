//! The reconciliation core of one thermometer session: it turns what the
//! thermometer reports into operations on the property tree, and writes to the
//! property tree into commands for the thermometer. It performs nothing
//! itself: every function hands back what is to be done.

use crate::config::Config;
use crate::config::DeviceConfig;
use crate::config::MacAddress;
use crate::device::parse_display_unit;
use crate::device::DeviceCommand;
use crate::device::RealTimeData;
use crate::device::SettingResult;
use crate::device::TemperatureUnit;
use crate::target::target_of;
use crate::target::Target;
use crate::target::TargetMode;
use crate::target::TargetState;
use crate::target::Temperature;
use crate::text::bool_of;
use crate::text::decimal_text;
use crate::text::parse_bool;
use crate::text::push_decimal;
use crate::text::str_eq;
use crate::tree::probe_id_to_index;
use crate::tree::probe_index_of;
use crate::tree::probe_node;
use crate::tree::probe_node_spec;
use crate::tree::Action;
use crate::tree::Node;
use crate::tree::NodeId;
use crate::tree::PropertyId;
use crate::tree::Subscription;
use crate::tree::Value;
use std::collections::HashSet;
use vstd::prelude::*;
use vstd::std_specs::hash::group_hash_axioms;
use vstd::string::StringExecFns;

verus! {

broadcast use group_hash_axioms;

/// The battery charge as a whole percentage of the maximum voltage, rounded
/// down.
pub open spec fn percentage_of(current_voltage: u16, max_voltage: u16) -> int {
    current_voltage as int * 100 / max_voltage as int
}

pub fn battery_percentage(current_voltage: u16, max_voltage: u16) -> (percentage: u32)
    requires
        max_voltage != 0,
    ensures
        percentage == percentage_of(current_voltage, max_voltage),
{
    let current: u32 = current_voltage as u32;
    let max: u32 = max_voltage as u32;
    current * 100 / max
}

/// The command that brings the thermometer to a target: the mode decides, and
/// a single target uses the maximum only.
pub open spec fn target_command(probe_index: u8, target: Target) -> DeviceCommand {
    match target.mode {
        TargetMode::Off => DeviceCommand::RemoveTarget { probe: probe_index },
        TargetMode::Single => DeviceCommand::SetTargetTemp {
            probe: probe_index,
            target: target.temperature_max,
        },
        TargetMode::Range => DeviceCommand::SetTargetRange {
            probe: probe_index,
            min: target.temperature_min,
            max: target.temperature_max,
        },
    }
}

pub fn set_target(probe_index: u8, target: &Target) -> (command: DeviceCommand)
    ensures
        command == target_command(probe_index, *target),
{
    match target.mode {
        TargetMode::Off => DeviceCommand::RemoveTarget { probe: probe_index },
        TargetMode::Single => DeviceCommand::SetTargetTemp {
            probe: probe_index,
            target: target.temperature_max,
        },
        TargetMode::Range => DeviceCommand::SetTargetRange {
            probe: probe_index,
            min: target.temperature_min,
            max: target.temperature_max,
        },
    }
}

/// What to publish for a report of the thermometer: the battery level as
/// voltage and percentage, the silenced alarm as a passing `false`, and
/// nothing for any other report.
pub open spec fn setting_result_actions(result: SettingResult) -> Seq<Action> {
    match result {
        SettingResult::BatteryLevel { current_voltage, max_voltage } => seq![
            Action::Publish {
                node: NodeId::Battery,
                property: PropertyId::Voltage,
                value: Value::Integer(current_voltage as u32),
            },
            Action::Publish {
                node: NodeId::Battery,
                property: PropertyId::Percentage,
                value: Value::Integer(percentage_of(current_voltage, max_voltage) as u32),
            },
        ],
        SettingResult::SilencePressed => seq![
            Action::PublishNonretained {
                node: NodeId::Settings,
                property: PropertyId::Alarm,
                value: Value::Boolean(false),
            },
        ],
        _ => Seq::<Action>::empty(),
    }
}

pub fn handle_setting_result(result: SettingResult) -> (actions: Vec<Action>)
    requires
        result matches SettingResult::BatteryLevel { max_voltage, .. } ==> max_voltage != 0,
    ensures
        actions@ == setting_result_actions(result),
{
    let mut actions: Vec<Action> = Vec::new();
    match result {
        SettingResult::BatteryLevel { current_voltage, max_voltage } => {
            let percentage = battery_percentage(current_voltage, max_voltage);
            actions.push(
                Action::Publish {
                    node: NodeId::Battery,
                    property: PropertyId::Voltage,
                    value: Value::Integer(current_voltage as u32),
                },
            );
            actions.push(
                Action::Publish {
                    node: NodeId::Battery,
                    property: PropertyId::Percentage,
                    value: Value::Integer(percentage),
                },
            );
        },
        SettingResult::SilencePressed => {
            actions.push(
                Action::PublishNonretained {
                    node: NodeId::Settings,
                    property: PropertyId::Alarm,
                    value: Value::Boolean(false),
                },
            );
        },
        _ => {},
    }
    assert(actions@ =~= setting_result_actions(result));
    actions
}

/// The target after a write to one of its properties, or nothing where the
/// write is refused: an unknown property, a value that is no temperature, a
/// label that names no mode. `number` is the temperature that `value`
/// denotes, if it denotes one.
pub open spec fn written_target(
    target: Target,
    property_id: Seq<char>,
    value: Seq<char>,
    number: Option<Temperature>,
) -> Option<Target> {
    if property_id == "target_min"@ {
        match number {
            Some(temperature) => Some(Target { temperature_min: temperature, ..target }),
            None => None,
        }
    } else if property_id == "target_max"@ {
        match number {
            Some(temperature) => Some(Target { temperature_max: temperature, ..target }),
            None => None,
        }
    } else if property_id == "mode"@ {
        match TargetMode::from_label(value) {
            Some(mode) => Some(Target { mode: mode, ..target }),
            None => None,
        }
    } else {
        None
    }
}

/// What a write does: the targets after it, and the command to send, or none
/// where the write is refused. A write names a node, a property and a value;
/// `number` is the temperature that the value denotes, if it denotes one.
///
/// The unit takes one of its two labels. The alarm takes `false` only: it can
/// be silenced, not raised. A probe's target takes a temperature for its
/// minimum and maximum and a label for its mode; the command is the one for
/// the target as it stands after the write. A write to a probe makes the
/// probe's target known even where it is refused. Any other write changes
/// nothing.
pub open spec fn update_outcome(
    targets: Map<u8, Target>,
    node_id: Seq<char>,
    property_id: Seq<char>,
    value: Seq<char>,
    number: Option<Temperature>,
) -> (Map<u8, Target>, Option<DeviceCommand>) {
    if node_id == "settings"@ && property_id == "unit"@ {
        match TemperatureUnit::from_label(value) {
            Some(unit) => (targets, Some(DeviceCommand::SetTemperatureUnit(unit))),
            None => (targets, None),
        }
    } else if node_id == "settings"@ && property_id == "alarm"@ {
        if bool_of(value) == Some(false) {
            (targets, Some(DeviceCommand::SilenceAlarm))
        } else {
            (targets, None)
        }
    } else {
        match probe_index_of(node_id) {
            Some(probe_index) => {
                let target = target_of(targets, probe_index);
                match written_target(target, property_id, value, number) {
                    Some(written) => (
                        targets.insert(probe_index, written),
                        Some(target_command(probe_index, written)),
                    ),
                    None => (targets.insert(probe_index, target), None),
                }
            },
            None => (targets, None),
        }
    }
}

/// The value to hand back as accepted after a write: the written value where
/// the thermometer took the command, nothing where it did not.
pub fn update_echo(delivered: bool, value: &str) -> (echo: Option<String>)
    ensures
        match echo {
            Some(text) => delivered && text@ == value@,
            None => !delivered,
        },
{
    if delivered {
        Some(value.to_owned())
    } else {
        None
    }
}

/// What is done when a probe appears: its node is advertised, the
/// thermometer is given the probe's target again, and the target is
/// published, mode first.
pub open spec fn restore_actions(probe_index: u8, target: Target) -> Seq<Action> {
    let node = NodeId::Probe(probe_index);
    seq![
        Action::AddNode(node),
        Action::Device(target_command(probe_index, target)),
        Action::Publish {
            node: node,
            property: PropertyId::TargetMode,
            value: Value::Mode(target.mode),
        },
        Action::Publish {
            node: node,
            property: PropertyId::TargetTemperatureMin,
            value: Value::Temperature(target.temperature_min),
        },
        Action::Publish {
            node: node,
            property: PropertyId::TargetTemperatureMax,
            value: Value::Temperature(target.temperature_max),
        },
    ]
}

/// What is done for one probe slot of a report. `present` says whether the
/// probe's node is advertised, `target` is the probe's target.
///
/// A temperature is published, after the probe has been restored where its
/// node was missing. A slot without a temperature has its node removed where
/// there is one.
pub open spec fn probe_actions(
    present: bool,
    target: Target,
    probe_index: u8,
    reading: Option<Temperature>,
) -> Seq<Action> {
    let node = NodeId::Probe(probe_index);
    match reading {
        Some(temperature) => {
            let publish = Action::Publish {
                node: node,
                property: PropertyId::Temperature,
                value: Value::Temperature(temperature),
            };
            if present {
                seq![publish]
            } else {
                restore_actions(probe_index, target).push(publish)
            }
        },
        None => if present {
            seq![Action::RemoveNode(node)]
        } else {
            Seq::<Action>::empty()
        },
    }
}

/// What is done for the first `n` probe slots of a report, slot by slot in
/// the order of the probe indices.
pub open spec fn frame_actions(
    probes: Set<u8>,
    targets: Map<u8, Target>,
    data: Seq<Option<Temperature>>,
    n: nat,
) -> Seq<Action>
    recommends
        n <= data.len() <= 256,
    decreases n,
{
    if n == 0 {
        Seq::<Action>::empty()
    } else {
        let i = (n - 1) as u8;
        frame_actions(probes, targets, data, (n - 1) as nat) + probe_actions(
            probes.contains(i),
            target_of(targets, i),
            i,
            data[n - 1],
        )
    }
}

/// The probes whose nodes are advertised after the first `n` slots of a
/// report: of those slots, the ones that hold a temperature.
pub open spec fn probes_after(probes: Set<u8>, data: Seq<Option<Temperature>>, n: nat) -> Set<u8> {
    Set::new(
        |i: u8|
            if i < n {
                data[i as int] is Some
            } else {
                probes.contains(i)
            },
    )
}

/// The targets after the first `n` slots of a report: a probe that appeared
/// has its target made known; no target changes.
pub open spec fn targets_after(
    probes: Set<u8>,
    targets: Map<u8, Target>,
    data: Seq<Option<Temperature>>,
    n: nat,
) -> Map<u8, Target> {
    Map::new(
        |i: u8| targets.dom().contains(i) || (i < n && data[i as int] is Some && !probes.contains(i)),
        |i: u8| target_of(targets, i),
    )
}

/// What is done when a session starts, in this order: the battery and the
/// settings are advertised, the display is set to Celsius and the unit
/// published, both streams of the thermometer are opened, and the thermometer
/// is asked for its temperatures and its battery level.
pub open spec fn startup_actions_spec() -> Seq<Action> {
    seq![
        Action::AddNode(NodeId::Battery),
        Action::AddNode(NodeId::Settings),
        Action::Device(DeviceCommand::SetTemperatureUnit(TemperatureUnit::Celcius)),
        Action::Publish {
            node: NodeId::Settings,
            property: PropertyId::DisplayUnit,
            value: Value::Unit(TemperatureUnit::Celcius),
        },
        Action::Subscribe(Subscription::SettingResults),
        Action::Subscribe(Subscription::RealTimeData),
        Action::Device(DeviceCommand::EnableRealTimeData(true)),
        Action::Device(DeviceCommand::RequestBatteryLevel),
    ]
}

/// The name of a probe: the configured one, or `Probe N`, counting from one.
pub open spec fn probe_name_spec(probe_names: Seq<String>, probe_index: u8) -> Seq<char> {
    if probe_index < probe_names.len() {
        probe_names[probe_index as int]@
    } else {
        "Probe "@ + decimal_text((probe_index + 1) as nat)
    }
}

/// Who a session's thermometer is.
#[derive(Clone, Debug)]
pub struct Identity {
    pub mac_address: MacAddress,
    pub config: Config,
    pub device_config: DeviceConfig,
    pub name: String,
}

/// The state of the session with one thermometer.
pub struct Bbq {
    identity: Identity,
    target_state: TargetState,
    /// The probes whose nodes are advertised.
    nodes: HashSet<u8>,
}

/// Appends `more` to `out`.
fn append_actions(out: &mut Vec<Action>, more: &Vec<Action>)
    ensures
        final(out)@ == old(out)@ + more@,
{
    let mut i: usize = 0;
    while i < more.len()
        invariant
            i <= more.len(),
            out@ == old(out)@ + more@.subrange(0, i as int),
        decreases more.len() - i,
    {
        out.push(more[i]);
        assert(out@ =~= old(out)@ + more@.subrange(0, i + 1));
        i += 1;
    }
    assert(more@.subrange(0, i as int) =~= more@);
}

impl Bbq {
    /// Who the thermometer is.
    pub closed spec fn identity_spec(&self) -> Identity {
        self.identity
    }

    /// The targets that are known, by probe index.
    pub closed spec fn targets(&self) -> Map<u8, Target> {
        self.target_state@
    }

    /// The probes whose nodes are advertised.
    pub closed spec fn probes(&self) -> Set<u8> {
        self.nodes@
    }

    /// The session for a thermometer that is connected and authenticated. It
    /// goes by its configured name, or by its Bluetooth name where none is
    /// configured. No target is known and no probe is advertised yet.
    pub fn new(mac_address: MacAddress, bluetooth_name: String, config: Config) -> (bbq: Bbq)
        ensures
            bbq.targets() == Map::<u8, Target>::empty(),
            bbq.probes() == Set::<u8>::empty(),
            bbq.identity_spec().mac_address == mac_address,
            bbq.identity_spec().config == config,
            match config.devices@.get(mac_address.key_spec()) {
                Some(entry) => {
                    &&& bbq.identity_spec().device_config.name == entry.name
                    &&& bbq.identity_spec().device_config.probe_names@ == entry.probe_names@
                    &&& bbq.identity_spec().name@ == match entry.name {
                        Some(name) => name@,
                        None => bluetooth_name@,
                    }
                },
                None => {
                    &&& bbq.identity_spec().device_config.name is None
                    &&& bbq.identity_spec().device_config.probe_names@.len() == 0
                    &&& bbq.identity_spec().name@ == bluetooth_name@
                },
            },
    {
        let device_config = config.device_config(&mac_address);
        let name = match &device_config.name {
            Some(name) => name.clone(),
            None => bluetooth_name,
        };
        Bbq {
            identity: Identity { mac_address, config, device_config, name },
            target_state: TargetState::new(),
            nodes: HashSet::new(),
        }
    }

    pub fn identity(&self) -> (identity: &Identity)
        ensures
            *identity == self.identity_spec(),
    {
        &self.identity
    }

    /// Whether the node of a probe is advertised.
    pub fn has_probe(&self, probe_index: u8) -> (present: bool)
        ensures
            present == self.probes().contains(probe_index),
    {
        self.nodes.contains(&probe_index)
    }

    /// The target of a probe: the default where none is known.
    pub fn target(&mut self, probe_index: u8) -> (target: Target)
        ensures
            target == target_of(old(self).targets(), probe_index),
            final(self).targets() == old(self).targets().insert(probe_index, target),
            final(self).probes() == old(self).probes(),
            final(self).identity_spec() == old(self).identity_spec(),
    {
        *self.target_state.target(probe_index)
    }

    /// The base topic under which the thermometer is advertised: the prefix,
    /// then the device id made of the device id prefix and the address.
    pub fn device_base(&self) -> (base: String)
        ensures
            base@ == self.identity_spec().config.homie.prefix@ + "/"@
                + self.identity_spec().config.homie.device_id_prefix@ + "-"@
                + self.identity_spec().mac_address.suffix_spec(),
    {
        let mut base = self.identity.config.homie.prefix.clone();
        base.append("/");
        base.append(self.identity.config.homie.device_id_prefix.as_str());
        base.append("-");
        let suffix = self.identity.mac_address.device_id_suffix();
        base.append(suffix.as_str());
        base
    }

    /// What to do when the session starts.
    pub fn startup_actions(&self) -> (actions: Vec<Action>)
        ensures
            actions@ == startup_actions_spec(),
    {
        let mut actions: Vec<Action> = Vec::new();
        actions.push(Action::AddNode(NodeId::Battery));
        actions.push(Action::AddNode(NodeId::Settings));
        actions.push(Action::Device(DeviceCommand::SetTemperatureUnit(TemperatureUnit::Celcius)));
        actions.push(
            Action::Publish {
                node: NodeId::Settings,
                property: PropertyId::DisplayUnit,
                value: Value::Unit(TemperatureUnit::Celcius),
            },
        );
        actions.push(Action::Subscribe(Subscription::SettingResults));
        actions.push(Action::Subscribe(Subscription::RealTimeData));
        actions.push(Action::Device(DeviceCommand::EnableRealTimeData(true)));
        actions.push(Action::Device(DeviceCommand::RequestBatteryLevel));
        assert(actions@ =~= startup_actions_spec());
        actions
    }

    /// How the node of a probe is advertised.
    pub fn node_for_probe(&self, probe_index: u8) -> (node: Node)
        ensures
            node@ == probe_node_spec(
                probe_index,
                probe_name_spec(self.identity_spec().device_config.probe_names@, probe_index),
            ),
    {
        let names = &self.identity.device_config.probe_names;
        let name = if (probe_index as usize) < names.len() {
            names[probe_index as usize].clone()
        } else {
            let mut name = "Probe ".to_owned();
            push_decimal(&mut name, probe_index as u32 + 1);
            name
        };
        probe_node(probe_index, name)
    }

    /// Takes a write to a property. Hands back the command to send to the
    /// thermometer, or nothing where the write is refused; then nothing is to
    /// be sent and nothing to be handed back as accepted. `number` is the
    /// temperature that `value` denotes, if it denotes one.
    pub fn handle_update(
        &mut self,
        node_id: &str,
        property_id: &str,
        value: &str,
        number: Option<Temperature>,
    ) -> (command: Option<DeviceCommand>)
        ensures
            (final(self).targets(), command) == update_outcome(
                old(self).targets(),
                node_id@,
                property_id@,
                value@,
                number,
            ),
            final(self).probes() == old(self).probes(),
            final(self).identity_spec() == old(self).identity_spec(),
    {
        let settings = str_eq(node_id, "settings");
        if settings && str_eq(property_id, "unit") {
            match parse_display_unit(value) {
                Some(unit) => Some(DeviceCommand::SetTemperatureUnit(unit)),
                None => None,
            }
        } else if settings && str_eq(property_id, "alarm") {
            match parse_bool(value) {
                Some(false) => Some(DeviceCommand::SilenceAlarm),
                _ => None,
            }
        } else {
            match probe_id_to_index(node_id) {
                Some(probe_index) => {
                    let target = self.target_state.target(probe_index);
                    if str_eq(property_id, "target_min") {
                        match number {
                            Some(temperature) => {
                                target.temperature_min = temperature;
                            },
                            None => {
                                return None;
                            },
                        }
                    } else if str_eq(property_id, "target_max") {
                        match number {
                            Some(temperature) => {
                                target.temperature_max = temperature;
                            },
                            None => {
                                return None;
                            },
                        }
                    } else if str_eq(property_id, "mode") {
                        match TargetMode::from_str(value) {
                            Ok(mode) => {
                                target.mode = mode;
                            },
                            Err(_) => {
                                return None;
                            },
                        }
                    } else {
                        return None;
                    }
                    let written = *target;
                    Some(set_target(probe_index, &written))
                },
                None => None,
            }
        }
    }

    /// Advertises a probe that has appeared and restores its target. The
    /// probe's node must not be advertised yet: a node is advertised once.
    pub fn add_probe(&mut self, probe_index: u8) -> (actions: Vec<Action>)
        requires
            !old(self).probes().contains(probe_index),
        ensures
            actions@ == restore_actions(probe_index, target_of(old(self).targets(), probe_index)),
            final(self).targets() == old(self).targets().insert(
                probe_index,
                target_of(old(self).targets(), probe_index),
            ),
            final(self).probes() == old(self).probes().insert(probe_index),
            final(self).identity_spec() == old(self).identity_spec(),
    {
        let target = *self.target_state.target(probe_index);
        self.nodes.insert(probe_index);
        let node = NodeId::Probe(probe_index);
        let mut actions: Vec<Action> = Vec::new();
        actions.push(Action::AddNode(node));
        actions.push(Action::Device(set_target(probe_index, &target)));
        actions.push(
            Action::Publish {
                node,
                property: PropertyId::TargetMode,
                value: Value::Mode(target.mode),
            },
        );
        actions.push(
            Action::Publish {
                node,
                property: PropertyId::TargetTemperatureMin,
                value: Value::Temperature(target.temperature_min),
            },
        );
        actions.push(
            Action::Publish {
                node,
                property: PropertyId::TargetTemperatureMax,
                value: Value::Temperature(target.temperature_max),
            },
        );
        assert(actions@ =~= restore_actions(probe_index, target));
        actions
    }

    /// Takes a report of temperatures. Hands back what to do, slot by slot in
    /// the order of the probe indices. Afterwards, of the probes that the
    /// report has a slot for, exactly those with a temperature are advertised.
    pub fn handle_realtime_data(&mut self, data: &RealTimeData) -> (actions: Vec<Action>)
        requires
            data.probe_temperatures@.len() <= 256,
        ensures
            actions@ == frame_actions(
                old(self).probes(),
                old(self).targets(),
                data.probe_temperatures@,
                data.probe_temperatures@.len(),
            ),
            final(self).probes() == probes_after(
                old(self).probes(),
                data.probe_temperatures@,
                data.probe_temperatures@.len(),
            ),
            final(self).targets() == targets_after(
                old(self).probes(),
                old(self).targets(),
                data.probe_temperatures@,
                data.probe_temperatures@.len(),
            ),
            final(self).identity_spec() == old(self).identity_spec(),
    {
        let ghost probes = self.probes();
        let ghost targets = self.targets();
        let ghost frame = data.probe_temperatures@;
        let mut actions: Vec<Action> = Vec::new();
        let len = data.probe_temperatures.len();
        let mut n: usize = 0;
        assert(self.probes() =~= probes_after(probes, frame, 0));
        assert(self.targets() =~= targets_after(probes, targets, frame, 0));
        while n < len
            invariant
                n <= len <= 256,
                len == frame.len(),
                frame == data.probe_temperatures@,
                actions@ == frame_actions(probes, targets, frame, n as nat),
                self.probes() == probes_after(probes, frame, n as nat),
                self.targets() == targets_after(probes, targets, frame, n as nat),
                self.identity_spec() == old(self).identity_spec(),
            decreases len - n,
        {
            let probe_index = n as u8;
            let ghost before_probes = self.probes();
            let ghost before_targets = self.targets();
            let exists = self.nodes.contains(&probe_index);
            assert(exists == probes.contains(probe_index));
            assert(target_of(before_targets, probe_index) == target_of(targets, probe_index));
            let node = NodeId::Probe(probe_index);
            match data.probe_temperatures[n] {
                Some(temperature) => {
                    if !exists {
                        let restore = self.add_probe(probe_index);
                        append_actions(&mut actions, &restore);
                    }
                    actions.push(
                        Action::Publish {
                            node,
                            property: PropertyId::Temperature,
                            value: Value::Temperature(temperature),
                        },
                    );
                },
                None => {
                    if exists {
                        self.nodes.remove(&probe_index);
                        actions.push(Action::RemoveNode(node));
                    }
                },
            }
            assert(actions@ =~= frame_actions(probes, targets, frame, n as nat) + probe_actions(
                exists,
                target_of(targets, probe_index),
                probe_index,
                frame[n as int],
            ));
            assert(self.probes() =~= probes_after(probes, frame, (n + 1) as nat));
            assert(self.targets() =~= targets_after(probes, targets, frame, (n + 1) as nat));
            n += 1;
        }
        actions
    }
}

} // verus!
