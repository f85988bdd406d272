//! What holds of the reconciliation core whatever its state.

use crate::bbq::frame_actions;
use crate::bbq::probe_actions;
use crate::bbq::probes_after;
use crate::bbq::restore_actions;
use crate::bbq::targets_after;
use crate::bbq::update_outcome;
use crate::device::DeviceCommand;
use crate::device::TemperatureUnit;
use crate::target::target_of;
use crate::target::Target;
use crate::target::TargetMode;
use crate::target::Temperature;
use crate::text::bool_of;
use crate::tree::lemma_probe_id_roundtrip;
use crate::tree::probe_id_of;
use crate::tree::probe_index_of;
use crate::tree::Action;
use crate::tree::NodeId;
use crate::tree::PropertyId;
use crate::tree::Value;
use vstd::prelude::*;

verus! {

/// The ids of the settings node and of its properties differ from one
/// another, and no probe goes by the id of the settings or of the battery.
pub proof fn lemma_ids_differ()
    ensures
        "unit"@ != "alarm"@,
        "target_min"@ != "target_max"@,
        "target_min"@ != "mode"@,
        "target_max"@ != "mode"@,
        probe_index_of("settings"@) is None,
        probe_index_of("battery"@) is None,
{
    reveal_strlit("unit");
    reveal_strlit("alarm");
    reveal_strlit("target_min");
    reveal_strlit("target_max");
    reveal_strlit("mode");
    reveal_strlit("settings");
    reveal_strlit("battery");
    reveal_strlit("probe");
    assert("unit"@.len() == 4 && "alarm"@.len() == 5);
    assert("target_min"@.len() == 10 && "mode"@.len() == 4 && "target_max"@.len() == 10);
    assert("target_min"@[8] == 'i' && "target_max"@[8] == 'a');
    assert("settings"@.subrange(0, 5)[0] == 's' && "probe"@[0] == 'p');
    assert("battery"@.subrange(0, 5)[0] == 'b');
}

/// A write of the display unit is taken exactly where the value is one of the
/// two labels: then the targets stay and the thermometer is told the unit
/// that the value names. Any other value is refused: no command, no change.
pub proof fn law_unit_write(targets: Map<u8, Target>, value: Seq<char>, number: Option<Temperature>)
    ensures
        update_outcome(targets, "settings"@, "unit"@, value, number) == (
            targets,
            match TemperatureUnit::from_label(value) {
                Some(unit) => Some(DeviceCommand::SetTemperatureUnit(unit)),
                None => None,
            },
        ),
        TemperatureUnit::from_label(value) matches Some(unit) ==> value == unit.label(),
{
}

/// The alarm can be silenced and never raised: a write of `false` to the
/// alarm is handed on as the command to silence it, whatever the state; a
/// write of `true`, or of anything else, is refused with no command and no
/// change.
pub proof fn law_alarm_write(targets: Map<u8, Target>, value: Seq<char>, number: Option<Temperature>)
    ensures
        update_outcome(targets, "settings"@, "alarm"@, value, number) == (
            targets,
            if value == "false"@ {
                Some(DeviceCommand::SilenceAlarm)
            } else {
                None
            },
        ),
        update_outcome(targets, "settings"@, "alarm"@, "true"@, number) == (
            targets,
            None::<DeviceCommand>,
        ),
{
    lemma_ids_differ();
    reveal_strlit("true");
    reveal_strlit("false");
    assert("true"@.len() == 4 && "false"@.len() == 5);
    assert(bool_of(value) == Some(false) <==> value == "false"@);
}

/// A write to a node that is neither the settings nor a probe does nothing:
/// no command, no change.
pub proof fn law_unknown_node_write(
    targets: Map<u8, Target>,
    node_id: Seq<char>,
    property_id: Seq<char>,
    value: Seq<char>,
    number: Option<Temperature>,
)
    requires
        node_id != "settings"@,
        probe_index_of(node_id) is None,
    ensures
        update_outcome(targets, node_id, property_id, value, number) == (
            targets,
            None::<DeviceCommand>,
        ),
{
}

/// A write to a property that its node does not have gives no command and
/// changes no target.
pub proof fn law_unknown_property_write(
    targets: Map<u8, Target>,
    node_id: Seq<char>,
    property_id: Seq<char>,
    value: Seq<char>,
    number: Option<Temperature>,
)
    requires
        property_id != "unit"@,
        property_id != "alarm"@,
        property_id != "target_min"@,
        property_id != "target_max"@,
        property_id != "mode"@,
    ensures
        update_outcome(targets, node_id, property_id, value, number).1 is None,
        forall|probe_index: u8|
            target_of(
                update_outcome(targets, node_id, property_id, value, number).0,
                probe_index,
            ) == target_of(targets, probe_index),
{
}

/// A refused write changes no target, and a write that is taken changes the
/// target of the probe it names and no other.
pub proof fn law_write_touches_one_probe(
    targets: Map<u8, Target>,
    node_id: Seq<char>,
    property_id: Seq<char>,
    value: Seq<char>,
    number: Option<Temperature>,
    other: u8,
)
    requires
        update_outcome(targets, node_id, property_id, value, number).1 is None
            || probe_index_of(node_id) != Some(other),
    ensures
        target_of(update_outcome(targets, node_id, property_id, value, number).0, other)
            == target_of(targets, other),
{
}

/// The same write twice in a row gives the same command twice and leaves the
/// targets as the first write left them.
pub proof fn law_write_idempotent(
    targets: Map<u8, Target>,
    node_id: Seq<char>,
    property_id: Seq<char>,
    value: Seq<char>,
    number: Option<Temperature>,
)
    ensures
        ({
            let first = update_outcome(targets, node_id, property_id, value, number);
            let second = update_outcome(first.0, node_id, property_id, value, number);
            second == first
        }),
{
    let first = update_outcome(targets, node_id, property_id, value, number);
    let second = update_outcome(first.0, node_id, property_id, value, number);
    assert(second.0 =~= first.0);
}

/// A probe's node is advertised after a report exactly where the report holds
/// a temperature for the probe; the nodes of probes beyond the report stay as
/// they were.
pub proof fn law_node_follows_report(
    probes: Set<u8>,
    data: Seq<Option<Temperature>>,
    probe_index: u8,
)
    ensures
        probes_after(probes, data, data.len()).contains(probe_index) == (if probe_index
            < data.len() {
            data[probe_index as int] is Some
        } else {
            probes.contains(probe_index)
        }),
{
}

/// A report changes no target: a probe that has disappeared keeps its, and a
/// probe that appears is given its own again.
pub proof fn law_report_keeps_targets(
    probes: Set<u8>,
    targets: Map<u8, Target>,
    data: Seq<Option<Temperature>>,
    probe_index: u8,
)
    ensures
        target_of(targets_after(probes, targets, data, data.len()), probe_index) == target_of(
            targets,
            probe_index,
        ),
        targets.dom().subset_of(targets_after(probes, targets, data, data.len()).dom()),
{
}

/// Every action for one probe slot is about that probe.
pub proof fn lemma_probe_actions_about(
    present: bool,
    target: Target,
    probe_index: u8,
    reading: Option<Temperature>,
    j: int,
)
    requires
        0 <= j < probe_actions(present, target, probe_index, reading).len(),
    ensures
        probe_actions(present, target, probe_index, reading)[j].probe() == Some(probe_index),
{
}

/// The actions for the first `n` slots of a report are about probes below
/// `n`.
pub proof fn lemma_frame_actions_about(
    probes: Set<u8>,
    targets: Map<u8, Target>,
    data: Seq<Option<Temperature>>,
    n: nat,
    j: int,
)
    requires
        n <= data.len() <= 256,
        0 <= j < frame_actions(probes, targets, data, n).len(),
    ensures
        frame_actions(probes, targets, data, n)[j].probe() matches Some(p) && p < n,
    decreases n,
{
    if n > 0 {
        let before = frame_actions(probes, targets, data, (n - 1) as nat);
        if j < before.len() {
            lemma_frame_actions_about(probes, targets, data, (n - 1) as nat, j);
        } else {
            let i = (n - 1) as u8;
            lemma_probe_actions_about(
                probes.contains(i),
                target_of(targets, i),
                i,
                data[n - 1],
                j - before.len(),
            );
        }
    }
}

/// Where the actions for one probe stand among the actions for a report:
/// after the actions for the slots below it.
pub open spec fn slot_offset(
    probes: Set<u8>,
    targets: Map<u8, Target>,
    data: Seq<Option<Temperature>>,
    probe_index: u8,
) -> int {
    frame_actions(probes, targets, data, probe_index as nat).len() as int
}

/// The actions for a report hold the actions for each of its slots in one
/// piece, and no action about the slot's probe stands outside that piece.
pub proof fn lemma_frame_actions_slot(
    probes: Set<u8>,
    targets: Map<u8, Target>,
    data: Seq<Option<Temperature>>,
    n: nat,
    probe_index: u8,
)
    requires
        probe_index < n <= data.len() <= 256,
    ensures
        ({
            let all = frame_actions(probes, targets, data, n);
            let slot = probe_actions(
                probes.contains(probe_index),
                target_of(targets, probe_index),
                probe_index,
                data[probe_index as int],
            );
            let k = slot_offset(probes, targets, data, probe_index);
            &&& k + slot.len() <= all.len()
            &&& all.subrange(k, k + slot.len()) == slot
            &&& forall|j: int|
                0 <= j < all.len() && !(k <= j < k + slot.len()) ==> (#[trigger] all[j]).probe()
                    != Some(probe_index)
        }),
    decreases n,
{
    let all = frame_actions(probes, targets, data, n);
    let slot = probe_actions(
        probes.contains(probe_index),
        target_of(targets, probe_index),
        probe_index,
        data[probe_index as int],
    );
    let k = slot_offset(probes, targets, data, probe_index);
    let before = frame_actions(probes, targets, data, (n - 1) as nat);
    let i = (n - 1) as u8;
    let last = probe_actions(probes.contains(i), target_of(targets, i), i, data[n - 1]);
    assert(all == before + last);
    if probe_index == n - 1 {
        assert(all.subrange(k, k + slot.len()) =~= slot);
        assert forall|j: int|
            0 <= j < all.len() && !(k <= j < k + slot.len()) implies (#[trigger] all[j]).probe()
            != Some(probe_index) by {
            lemma_frame_actions_about(probes, targets, data, (n - 1) as nat, j);
        }
    } else {
        lemma_frame_actions_slot(probes, targets, data, (n - 1) as nat, probe_index);
        assert(all.subrange(k, k + slot.len()) =~= before.subrange(k, k + slot.len()));
        assert forall|j: int|
            0 <= j < all.len() && !(k <= j < k + slot.len()) implies (#[trigger] all[j]).probe()
            != Some(probe_index) by {
            if j >= before.len() {
                lemma_probe_actions_about(
                    probes.contains(i),
                    target_of(targets, i),
                    i,
                    data[n - 1],
                    j - before.len(),
                );
            } else {
                assert(all[j] == before[j]);
            }
        }
    }
}

/// The targets after a probe's target has been written as a range: the mode
/// first, then the minimum, then the maximum.
pub open spec fn targets_with_range(
    targets: Map<u8, Target>,
    probe_index: u8,
    min_text: Seq<char>,
    min: Temperature,
    max_text: Seq<char>,
    max: Temperature,
) -> Map<u8, Target> {
    let id = probe_id_of(probe_index);
    let with_mode = update_outcome(targets, id, "mode"@, "Range"@, None).0;
    let with_min = update_outcome(with_mode, id, "target_min"@, min_text, Some(min)).0;
    update_outcome(with_min, id, "target_max"@, max_text, Some(max)).0
}

/// A target that was written is restored before the next temperature.
///
/// Let a probe's target be written as a range from `min` to `max`. Let a
/// report follow in which the probe is missing, and then a report in which it
/// is back with a temperature. Then the actions for the second report hold,
/// in one piece and in this order: the probe's node is advertised, the
/// thermometer is given the range, the mode `Range`, `min` and `max` are
/// published, and then the temperature. No other action for that report is
/// about the probe.
pub proof fn law_restore_before_publish(
    probes: Set<u8>,
    targets: Map<u8, Target>,
    probe_index: u8,
    min_text: Seq<char>,
    min: Temperature,
    max_text: Seq<char>,
    max: Temperature,
    gone: Seq<Option<Temperature>>,
    back: Seq<Option<Temperature>>,
    temperature: Temperature,
)
    requires
        probe_index < gone.len() <= 256,
        probe_index < back.len() <= 256,
        gone[probe_index as int] is None,
        back[probe_index as int] == Some(temperature),
    ensures
        ({
            let written = targets_with_range(targets, probe_index, min_text, min, max_text, max);
            let probes_then = probes_after(probes, gone, gone.len());
            let targets_then = targets_after(probes, written, gone, gone.len());
            let all = frame_actions(probes_then, targets_then, back, back.len());
            let k = slot_offset(probes_then, targets_then, back, probe_index);
            let node = NodeId::Probe(probe_index);
            let range = Target { mode: TargetMode::Range, temperature_min: min, temperature_max: max };
            &&& target_of(written, probe_index) == range
            &&& 0 <= k && k + 6 <= all.len()
            &&& all.subrange(k, k + 6) == seq![
                Action::AddNode(node),
                Action::Device(
                    DeviceCommand::SetTargetRange { probe: probe_index, min: min, max: max },
                ),
                Action::Publish {
                    node: node,
                    property: PropertyId::TargetMode,
                    value: Value::Mode(TargetMode::Range),
                },
                Action::Publish {
                    node: node,
                    property: PropertyId::TargetTemperatureMin,
                    value: Value::Temperature(min),
                },
                Action::Publish {
                    node: node,
                    property: PropertyId::TargetTemperatureMax,
                    value: Value::Temperature(max),
                },
                Action::Publish {
                    node: node,
                    property: PropertyId::Temperature,
                    value: Value::Temperature(temperature),
                },
            ]
            &&& forall|j: int|
                0 <= j < all.len() && !(k <= j < k + 6) ==> (#[trigger] all[j]).probe() != Some(
                    probe_index,
                )
        }),
{
    lemma_ids_differ();
    lemma_probe_id_roundtrip(probe_index);
    reveal_strlit("Range");
    reveal_strlit("None");
    reveal_strlit("Maximum only");
    reveal_strlit("settings");
    reveal_strlit("probe");
    let id = probe_id_of(probe_index);
    assert(id[0] == 'p' && "settings"@[0] == 's');
    assert("Range"@.len() == 5 && "None"@.len() == 4 && "Maximum only"@.len() == 12);
    assert(TargetMode::from_label("Range"@) == Some(TargetMode::Range));
    let written = targets_with_range(targets, probe_index, min_text, min, max_text, max);
    let range = Target { mode: TargetMode::Range, temperature_min: min, temperature_max: max };
    assert(target_of(written, probe_index) == range);
    let probes_then = probes_after(probes, gone, gone.len());
    let targets_then = targets_after(probes, written, gone, gone.len());
    assert(!probes_then.contains(probe_index));
    assert(target_of(targets_then, probe_index) == range);
    lemma_frame_actions_slot(probes_then, targets_then, back, back.len(), probe_index);
    let slot = probe_actions(false, range, probe_index, Some(temperature));
    assert(slot =~= restore_actions(probe_index, range).push(
        Action::Publish {
            node: NodeId::Probe(probe_index),
            property: PropertyId::Temperature,
            value: Value::Temperature(temperature),
        },
    ));
    assert(slot.len() == 6);
}

} // verus!
