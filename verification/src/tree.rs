//! The property tree as the bridge sees it: which nodes and properties it
//! advertises, how they are named, and what it asks the outside to do.

use crate::device::DeviceCommand;
use crate::device::TemperatureUnit;
use crate::target::TargetMode;
use crate::target::Temperature;
use crate::text::ascii_starts_with;
use crate::text::decimal_text;
use crate::text::decimal_u8;
use crate::text::lemma_decimal_text_value;
use crate::text::is_digit;
use crate::text::lemma_not_ascii_no_number;
use crate::text::lemma_number_is_digits;
use crate::text::parse_u8_from;
use crate::text::push_decimal;
use crate::text::str_eq;
use vstd::prelude::*;
use vstd::utf8::is_ascii_chars;

verus! {

/// A node of the property tree: the battery, the settings, or one probe.
#[derive(Clone, Copy, Debug, PartialEq, Eq, Structural)]
pub enum NodeId {
    Battery,
    Settings,
    Probe(u8),
}

/// The probe index that a node id names: the id is `probe` followed by one or
/// more ASCII digits that denote a number below 256. No other id names a
/// probe.
pub open spec fn probe_index_of(id: Seq<char>) -> Option<u8> {
    if id.len() >= 5 && id.subrange(0, 5) == "probe"@ {
        decimal_u8(id.subrange(5, id.len() as int))
    } else {
        None
    }
}

/// The node id of the probe with the given index.
pub open spec fn probe_id_of(probe_index: u8) -> Seq<char> {
    "probe"@ + decimal_text(probe_index as nat)
}

impl NodeId {
    /// The id under which the node is advertised.
    pub open spec fn text(self) -> Seq<char> {
        match self {
            NodeId::Battery => "battery"@,
            NodeId::Settings => "settings"@,
            NodeId::Probe(probe_index) => probe_id_of(probe_index),
        }
    }

    /// The node that an id names, if it names one.
    pub open spec fn from_text(id: Seq<char>) -> Option<NodeId> {
        if id == "battery"@ {
            Some(NodeId::Battery)
        } else if id == "settings"@ {
            Some(NodeId::Settings)
        } else {
            match probe_index_of(id) {
                Some(probe_index) => Some(NodeId::Probe(probe_index)),
                None => None,
            }
        }
    }

    pub fn parse(id: &str) -> (node: Option<NodeId>)
        ensures
            node == NodeId::from_text(id@),
    {
        if str_eq(id, "battery") {
            Some(NodeId::Battery)
        } else if str_eq(id, "settings") {
            Some(NodeId::Settings)
        } else {
            match probe_id_to_index(id) {
                Some(probe_index) => Some(NodeId::Probe(probe_index)),
                None => None,
            }
        }
    }

    pub fn to_string(&self) -> (id: String)
        ensures
            id@ == self.text(),
    {
        match self {
            NodeId::Battery => "battery".to_owned(),
            NodeId::Settings => "settings".to_owned(),
            NodeId::Probe(probe_index) => {
                let mut id = "probe".to_owned();
                push_decimal(&mut id, *probe_index as u32);
                id
            },
        }
    }

    /// Every node is found again from its id.
    pub proof fn lemma_text_roundtrip(self)
        ensures
            NodeId::from_text(self.text()) == Some(self),
    {
        reveal_strlit("battery");
        reveal_strlit("settings");
        reveal_strlit("probe");
        match self {
            NodeId::Battery => {
                assert("battery"@.len() == 7);
            },
            NodeId::Settings => {
                assert("settings"@.len() == 8);
                assert("settings"@[0] == 's');
                assert("battery"@[0] == 'b');
            },
            NodeId::Probe(probe_index) => {
                lemma_probe_id_roundtrip(probe_index);
                let id = probe_id_of(probe_index);
                assert(id[0] == 'p');
                assert("settings"@[0] == 's');
                assert("battery"@[0] == 'b');
            },
        }
    }
}

/// The index of a probe is found again from its node id.
pub proof fn lemma_probe_id_roundtrip(probe_index: u8)
    ensures
        probe_index_of(probe_id_of(probe_index)) == Some(probe_index),
{
    reveal_strlit("probe");
    lemma_decimal_text_value(probe_index as nat);
    let id = probe_id_of(probe_index);
    assert(id.subrange(0, 5) =~= "probe"@);
    assert(id.subrange(5, id.len() as int) =~= decimal_text(probe_index as nat));
    crate::text::lemma_decimal_u8_roundtrip(probe_index);
}

/// An id that names a probe is `probe` followed by one or more ASCII digits
/// and nothing else: no sign, no blank, no other character.
pub proof fn lemma_probe_id_shape(id: Seq<char>, k: int)
    requires
        probe_index_of(id) is Some,
        0 <= k < id.len(),
    ensures
        id.len() > 5,
        k < 5 ==> id[k] == "probe"@[k],
        k >= 5 ==> is_digit(id[k]),
{
    reveal_strlit("probe");
    let rest = id.subrange(5, id.len() as int);
    if k < 5 {
        assert(id.subrange(0, 5)[k] == id[k]);
    } else {
        lemma_number_is_digits(rest, k - 5);
        assert(rest[k - 5] == id[k]);
    }
}

/// The probe index that a node id names, if it names one.
pub fn probe_id_to_index(probe_id: &str) -> (probe_index: Option<u8>)
    ensures
        probe_index == probe_index_of(probe_id@),
{
    proof {
        reveal_strlit("probe");
    }
    if !probe_id.is_ascii() {
        proof {
            lemma_not_ascii_no_probe(probe_id@);
        }
        return None;
    }
    if !ascii_starts_with(probe_id, "probe") {
        return None;
    }
    parse_u8_from(probe_id, 5)
}

/// A node id with a character outside ASCII names no probe.
pub proof fn lemma_not_ascii_no_probe(id: Seq<char>)
    requires
        !is_ascii_chars(id),
    ensures
        probe_index_of(id) is None,
{
    reveal_strlit("probe");
    if id.len() >= 5 && id.subrange(0, 5) == "probe"@ {
        let rest = id.subrange(5, id.len() as int);
        let k = choose|k: int| 0 <= k < id.len() && !('\0' <= #[trigger] id[k] <= '\u{7f}');
        if k < 5 {
            assert(id.subrange(0, 5)[k] == id[k]);
        } else {
            assert(rest[k - 5] == id[k]);
            assert(!is_ascii_chars(rest));
            lemma_not_ascii_no_number(rest);
        }
    }
}

/// A property of a node.
#[derive(Clone, Copy, Debug, PartialEq, Eq, Structural)]
pub enum PropertyId {
    Voltage,
    Percentage,
    DisplayUnit,
    Alarm,
    Temperature,
    TargetTemperatureMin,
    TargetTemperatureMax,
    TargetMode,
}

impl PropertyId {
    /// The id under which the property is advertised.
    pub open spec fn text(self) -> Seq<char> {
        match self {
            PropertyId::Voltage => "voltage"@,
            PropertyId::Percentage => "percentage"@,
            PropertyId::DisplayUnit => "unit"@,
            PropertyId::Alarm => "alarm"@,
            PropertyId::Temperature => "temperature"@,
            PropertyId::TargetTemperatureMin => "target_min"@,
            PropertyId::TargetTemperatureMax => "target_max"@,
            PropertyId::TargetMode => "mode"@,
        }
    }

    pub fn as_str(&self) -> (id: &'static str)
        ensures
            id@ == self.text(),
    {
        match self {
            PropertyId::Voltage => "voltage",
            PropertyId::Percentage => "percentage",
            PropertyId::DisplayUnit => "unit",
            PropertyId::Alarm => "alarm",
            PropertyId::Temperature => "temperature",
            PropertyId::TargetTemperatureMin => "target_min",
            PropertyId::TargetTemperatureMax => "target_max",
            PropertyId::TargetMode => "mode",
        }
    }
}

/// A value to publish; the outside renders it as text.
#[derive(Clone, Copy, Debug, PartialEq, Eq, Structural)]
pub enum Value {
    Integer(u32),
    Boolean(bool),
    Temperature(Temperature),
    Unit(TemperatureUnit),
    Mode(TargetMode),
}

/// A stream of events from the thermometer.
#[derive(Clone, Copy, Debug, PartialEq, Eq, Structural)]
pub enum Subscription {
    SettingResults,
    RealTimeData,
}

/// One thing the bridge asks the outside to do. A failed action ends the
/// session; the actions that would have followed are not performed.
#[derive(Clone, Copy, Debug, PartialEq, Eq, Structural)]
pub enum Action {
    /// Advertise the node with its properties.
    AddNode(NodeId),
    RemoveNode(NodeId),
    /// Publish a value that the broker keeps for later subscribers.
    Publish { node: NodeId, property: PropertyId, value: Value },
    /// Publish a passing event, which no later subscriber is to see.
    PublishNonretained { node: NodeId, property: PropertyId, value: Value },
    Device(DeviceCommand),
    Subscribe(Subscription),
}

impl Action {
    /// The probe whose node the action is about, if it is about one.
    pub open spec fn probe(self) -> Option<u8> {
        match self {
            Action::AddNode(NodeId::Probe(p)) => Some(p),
            Action::RemoveNode(NodeId::Probe(p)) => Some(p),
            Action::Publish { node: NodeId::Probe(p), .. } => Some(p),
            Action::PublishNonretained { node: NodeId::Probe(p), .. } => Some(p),
            Action::Device(DeviceCommand::SetTargetTemp { probe, .. }) => Some(probe),
            Action::Device(DeviceCommand::SetTargetRange { probe, .. }) => Some(probe),
            Action::Device(DeviceCommand::RemoveTarget { probe }) => Some(probe),
            _ => None,
        }
    }
}

/// What kind of value a property holds.
#[derive(Clone, Copy, Debug, PartialEq, Eq, Structural)]
pub enum Datatype {
    Integer,
    Float,
    Boolean,
    /// One of the labels of the display units.
    DisplayUnit,
    /// One of the labels of the target modes.
    TargetMode,
}

impl Datatype {
    /// The labels that a property of this kind may hold; none where the kind
    /// is no enumeration.
    pub open spec fn labels(self) -> Seq<Seq<char>> {
        match self {
            Datatype::DisplayUnit => seq!["ºC"@, "ºF"@],
            Datatype::TargetMode => seq!["None"@, "Maximum only"@, "Range"@],
            _ => Seq::<Seq<char>>::empty(),
        }
    }

    pub fn enumeration_values(&self) -> (values: Vec<&'static str>)
        ensures
            values@.len() == self.labels().len(),
            forall|i: int| 0 <= i < values@.len() ==> (#[trigger] values@[i])@ == self.labels()[i],
    {
        let mut values: Vec<&'static str> = Vec::new();
        match self {
            Datatype::DisplayUnit => {
                values.push("ºC");
                values.push("ºF");
            },
            Datatype::TargetMode => {
                values.push("None");
                values.push("Maximum only");
                values.push("Range");
            },
            _ => {},
        }
        values
    }
}

/// How a property is advertised.
#[derive(Clone, Copy, Debug)]
pub struct Property {
    pub id: PropertyId,
    pub name: &'static str,
    pub datatype: Datatype,
    /// Whether the property takes writes.
    pub settable: bool,
    /// Whether the broker keeps the property's value.
    pub retained: bool,
    pub unit: Option<&'static str>,
}

/// What a `Property` says.
pub struct PropertyView {
    pub id: PropertyId,
    pub name: Seq<char>,
    pub datatype: Datatype,
    pub settable: bool,
    pub retained: bool,
    pub unit: Option<Seq<char>>,
}

impl View for Property {
    type V = PropertyView;

    open spec fn view(&self) -> PropertyView {
        PropertyView {
            id: self.id,
            name: self.name@,
            datatype: self.datatype,
            settable: self.settable,
            retained: self.retained,
            unit: match self.unit {
                Some(unit) => Some(unit@),
                None => None,
            },
        }
    }
}

/// How a node is advertised.
#[derive(Clone, Debug)]
pub struct Node {
    pub id: NodeId,
    pub name: String,
    pub node_type: &'static str,
    pub properties: Vec<Property>,
}

/// What a `Node` says.
pub struct NodeView {
    pub id: NodeId,
    pub name: Seq<char>,
    pub node_type: Seq<char>,
    pub properties: Seq<PropertyView>,
}

impl View for Node {
    type V = NodeView;

    open spec fn view(&self) -> NodeView {
        NodeView {
            id: self.id,
            name: self.name@,
            node_type: self.node_type@,
            properties: self.properties@.map_values(|p: Property| p@),
        }
    }
}

/// The battery node: voltage and percentage, both read-only.
pub open spec fn battery_node_spec() -> NodeView {
    NodeView {
        id: NodeId::Battery,
        name: "Battery"@,
        node_type: "Battery level"@,
        properties: seq![
            PropertyView {
                id: PropertyId::Voltage,
                name: "Voltage"@,
                datatype: Datatype::Integer,
                settable: false,
                retained: true,
                unit: None,
            },
            PropertyView {
                id: PropertyId::Percentage,
                name: "Percentage"@,
                datatype: Datatype::Integer,
                settable: false,
                retained: true,
                unit: Some("%"@),
            },
        ],
    }
}

/// The settings node: the display unit, and the alarm as a passing event.
pub open spec fn settings_node_spec() -> NodeView {
    NodeView {
        id: NodeId::Settings,
        name: "Settings"@,
        node_type: "Settings"@,
        properties: seq![
            PropertyView {
                id: PropertyId::DisplayUnit,
                name: "Unit"@,
                datatype: Datatype::DisplayUnit,
                settable: true,
                retained: true,
                unit: None,
            },
            PropertyView {
                id: PropertyId::Alarm,
                name: "Alarm"@,
                datatype: Datatype::Boolean,
                settable: true,
                retained: false,
                unit: None,
            },
        ],
    }
}

/// The node of a probe with the given name: its temperature, read-only, and
/// its target, writable.
pub open spec fn probe_node_spec(probe_index: u8, name: Seq<char>) -> NodeView {
    NodeView {
        id: NodeId::Probe(probe_index),
        name: name,
        node_type: "Temperature probe"@,
        properties: seq![
            PropertyView {
                id: PropertyId::Temperature,
                name: "Temperature"@,
                datatype: Datatype::Float,
                settable: false,
                retained: true,
                unit: Some("ºC"@),
            },
            PropertyView {
                id: PropertyId::TargetTemperatureMin,
                name: "Minimum temperature"@,
                datatype: Datatype::Float,
                settable: true,
                retained: true,
                unit: Some("ºC"@),
            },
            PropertyView {
                id: PropertyId::TargetTemperatureMax,
                name: "Target/maximum temperature"@,
                datatype: Datatype::Float,
                settable: true,
                retained: true,
                unit: Some("ºC"@),
            },
            PropertyView {
                id: PropertyId::TargetMode,
                name: "Target mode"@,
                datatype: Datatype::TargetMode,
                settable: true,
                retained: true,
                unit: None,
            },
        ],
    }
}

pub fn battery_node() -> (node: Node)
    ensures
        node@ == battery_node_spec(),
{
    let mut properties: Vec<Property> = Vec::new();
    properties.push(
        Property {
            id: PropertyId::Voltage,
            name: "Voltage",
            datatype: Datatype::Integer,
            settable: false,
            retained: true,
            unit: None,
        },
    );
    properties.push(
        Property {
            id: PropertyId::Percentage,
            name: "Percentage",
            datatype: Datatype::Integer,
            settable: false,
            retained: true,
            unit: Some("%"),
        },
    );
    let node = Node {
        id: NodeId::Battery,
        name: "Battery".to_owned(),
        node_type: "Battery level",
        properties,
    };
    assert(node@.properties =~= battery_node_spec().properties);
    node
}

pub fn settings_node() -> (node: Node)
    ensures
        node@ == settings_node_spec(),
{
    let mut properties: Vec<Property> = Vec::new();
    properties.push(
        Property {
            id: PropertyId::DisplayUnit,
            name: "Unit",
            datatype: Datatype::DisplayUnit,
            settable: true,
            retained: true,
            unit: None,
        },
    );
    properties.push(
        Property {
            id: PropertyId::Alarm,
            name: "Alarm",
            datatype: Datatype::Boolean,
            settable: true,
            retained: false,
            unit: None,
        },
    );
    let node = Node {
        id: NodeId::Settings,
        name: "Settings".to_owned(),
        node_type: "Settings",
        properties,
    };
    assert(node@.properties =~= settings_node_spec().properties);
    node
}

/// The node of a probe with the given name.
pub fn probe_node(probe_index: u8, name: String) -> (node: Node)
    ensures
        node@ == probe_node_spec(probe_index, name@),
{
    let mut properties: Vec<Property> = Vec::new();
    properties.push(
        Property {
            id: PropertyId::Temperature,
            name: "Temperature",
            datatype: Datatype::Float,
            settable: false,
            retained: true,
            unit: Some("ºC"),
        },
    );
    properties.push(
        Property {
            id: PropertyId::TargetTemperatureMin,
            name: "Minimum temperature",
            datatype: Datatype::Float,
            settable: true,
            retained: true,
            unit: Some("ºC"),
        },
    );
    properties.push(
        Property {
            id: PropertyId::TargetTemperatureMax,
            name: "Target/maximum temperature",
            datatype: Datatype::Float,
            settable: true,
            retained: true,
            unit: Some("ºC"),
        },
    );
    properties.push(
        Property {
            id: PropertyId::TargetMode,
            name: "Target mode",
            datatype: Datatype::TargetMode,
            settable: true,
            retained: true,
            unit: None,
        },
    );
    let node = Node {
        id: NodeId::Probe(probe_index),
        name,
        node_type: "Temperature probe",
        properties,
    };
    assert(node@.properties =~= probe_node_spec(probe_index, name@).properties);
    node
}

} // verus!
