use cloudbbq_homie::bbq::battery_percentage;
use cloudbbq_homie::bbq::handle_setting_result;
use cloudbbq_homie::bbq::set_target;
use cloudbbq_homie::bbq::update_echo;
use cloudbbq_homie::bbq::Bbq;
use cloudbbq_homie::device::RealTimeData;
use cloudbbq_homie::device::SettingResult;
use cloudbbq_homie::config::Config;
use cloudbbq_homie::config::DeviceConfig;
use cloudbbq_homie::config::MacAddress;
use cloudbbq_homie::target::Target;
use cloudbbq_homie::target::TargetMode;
use cloudbbq_homie::target::TargetState;
use cloudbbq_homie::target::Temperature;
use cloudbbq_homie::tree::battery_node;
use cloudbbq_homie::tree::settings_node;
use cloudbbq_homie::tree::Action;
use cloudbbq_homie::tree::Datatype;
use cloudbbq_homie::device::DeviceCommand;
use cloudbbq_homie::tree::NodeId;
use cloudbbq_homie::tree::PropertyId;
use cloudbbq_homie::tree::Subscription;
use cloudbbq_homie::device::TemperatureUnit;
use cloudbbq_homie::tree::Value;

fn degrees(value: f32) -> Temperature {
    Temperature::from_bits(value.to_bits())
}

fn number(value: &str) -> Option<Temperature> {
    value.parse::<f32>().ok().map(degrees)
}

fn write(bbq: &mut Bbq, node: &str, property: &str, value: &str) -> Option<DeviceCommand> {
    bbq.handle_update(node, property, value, number(value))
}

fn address() -> MacAddress {
    MacAddress::from_octets([0x11, 0x22, 0x33, 0xaa, 0xbb, 0xcc])
}

fn session() -> Bbq {
    Bbq::new(address(), "iBBQ".to_string(), Config::default())
}

fn frame(temperatures: Vec<Option<f32>>) -> RealTimeData {
    RealTimeData { probe_temperatures: temperatures.into_iter().map(|t| t.map(degrees)).collect() }
}

fn publish(node: NodeId, property: PropertyId, value: Value) -> Action {
    Action::Publish { node, property, value }
}

fn temperature(probe: u8, value: f32) -> Action {
    publish(NodeId::Probe(probe), PropertyId::Temperature, Value::Temperature(degrees(value)))
}

fn restore(probe: u8, command: DeviceCommand, mode: TargetMode, min: f32, max: f32) -> Vec<Action> {
    let node = NodeId::Probe(probe);
    vec![
        Action::AddNode(node),
        Action::Device(command),
        publish(node, PropertyId::TargetMode, Value::Mode(mode)),
        publish(node, PropertyId::TargetTemperatureMin, Value::Temperature(degrees(min))),
        publish(node, PropertyId::TargetTemperatureMax, Value::Temperature(degrees(max))),
    ]
}

#[test]
fn temperature_keeps_its_bits() {
    let value = degrees(23.5);
    assert_eq!(value.to_bits(), 23.5f32.to_bits());
    assert_eq!(f32::from_bits(value.to_bits()), 23.5);
    assert_eq!(Temperature::from_bits(7).bits, 7);
}

#[test]
fn target_defaults_to_no_target_at_zero() {
    let target = Target::default();
    assert_eq!(target.mode, TargetMode::Off);
    assert_eq!(target.temperature_min, degrees(0.0));
    assert_eq!(target.temperature_max, degrees(0.0));
}

#[test]
fn target_state_makes_targets_on_first_use() {
    let mut state = TargetState::new();
    assert_eq!(*state.target(3), Target::default());
    state.target(3).mode = TargetMode::Single;
    state.target(3).temperature_max = degrees(95.0);
    assert_eq!(
        *state.target(3),
        Target {
            mode: TargetMode::Single,
            temperature_min: degrees(0.0),
            temperature_max: degrees(95.0)
        }
    );
    assert_eq!(*state.target(4), Target::default());
}

#[test]
fn battery_percentage_rounds_down() {
    assert_eq!(battery_percentage(310, 400), 77);
    assert_eq!(battery_percentage(5979, 6550), 91);
    assert_eq!(battery_percentage(0, 6550), 0);
    assert_eq!(battery_percentage(6550, 6550), 100);
    assert_eq!(battery_percentage(399, 400), 99);
    assert_eq!(battery_percentage(65535, 1), 6553500);
}

#[test]
fn battery_level_is_published_as_voltage_and_percentage() {
    let actions = handle_setting_result(SettingResult::BatteryLevel {
        current_voltage: 310,
        max_voltage: 400,
    });
    assert_eq!(
        actions,
        vec![
            publish(NodeId::Battery, PropertyId::Voltage, Value::Integer(310)),
            publish(NodeId::Battery, PropertyId::Percentage, Value::Integer(77)),
        ]
    );
}

#[test]
fn silence_pressed_is_published_as_a_passing_event() {
    assert_eq!(
        handle_setting_result(SettingResult::SilencePressed),
        vec![Action::PublishNonretained {
            node: NodeId::Settings,
            property: PropertyId::Alarm,
            value: Value::Boolean(false),
        }]
    );
}

#[test]
fn other_setting_results_are_ignored() {
    let result = SettingResult::AcknowledgeCommand { command_id: 2, success: true };
    assert!(handle_setting_result(result).is_empty());
}

#[test]
fn set_target_goes_by_the_mode() {
    let mut target =
        Target { mode: TargetMode::Off, temperature_min: degrees(10.0), temperature_max: degrees(20.0) };
    assert_eq!(set_target(2, &target), DeviceCommand::RemoveTarget { probe: 2 });
    target.mode = TargetMode::Single;
    assert_eq!(set_target(2, &target), DeviceCommand::SetTargetTemp { probe: 2, target: degrees(20.0) });
    target.mode = TargetMode::Range;
    assert_eq!(
        set_target(2, &target),
        DeviceCommand::SetTargetRange { probe: 2, min: degrees(10.0), max: degrees(20.0) }
    );
}

#[test]
fn unit_writes_are_taken_for_both_labels_only() {
    let mut bbq = session();
    assert_eq!(
        write(&mut bbq, "settings", "unit", "ºC"),
        Some(DeviceCommand::SetTemperatureUnit(TemperatureUnit::Celcius))
    );
    assert_eq!(
        write(&mut bbq, "settings", "unit", "ºF"),
        Some(DeviceCommand::SetTemperatureUnit(TemperatureUnit::Fahrenheit))
    );
    assert_eq!(write(&mut bbq, "settings", "unit", "K"), None);
    assert_eq!(write(&mut bbq, "settings", "unit", ""), None);
    assert_eq!(write(&mut bbq, "settings", "unit", "ºc"), None);
}

#[test]
fn accepted_write_is_echoed_only_when_delivered() {
    assert_eq!(update_echo(true, "ºF"), Some("ºF".to_string()));
    assert_eq!(update_echo(false, "ºF"), None);
}

#[test]
fn alarm_can_be_silenced_but_not_raised() {
    let mut bbq = session();
    assert_eq!(write(&mut bbq, "settings", "alarm", "true"), None);
    assert_eq!(write(&mut bbq, "settings", "alarm", "false"), Some(DeviceCommand::SilenceAlarm));
    assert_eq!(write(&mut bbq, "settings", "alarm", "False"), None);
    assert_eq!(write(&mut bbq, "settings", "alarm", "0"), None);
}

#[test]
fn unknown_nodes_and_properties_are_refused() {
    let mut bbq = session();
    assert_eq!(write(&mut bbq, "kitchen", "mode", "Range"), None);
    assert_eq!(write(&mut bbq, "battery", "voltage", "3"), None);
    assert_eq!(write(&mut bbq, "settings", "mode", "Range"), None);
    assert_eq!(write(&mut bbq, "probe1", "temperature", "20"), None);
    assert_eq!(write(&mut bbq, "probe1", "unit", "ºC"), None);
    assert_eq!(write(&mut bbq, "probe", "mode", "Range"), None);
    assert_eq!(write(&mut bbq, "probe256", "mode", "Range"), None);
    assert_eq!(write(&mut bbq, "probe+1", "mode", "Range"), None);
    assert_eq!(write(&mut bbq, "probe+1", "target_max", "20"), None);
    assert_eq!(write(&mut bbq, "probe 1", "mode", "Range"), None);
    assert_eq!(bbq.target(1), Target::default());
}

#[test]
fn malformed_target_writes_are_refused_and_change_nothing() {
    let mut bbq = session();
    assert!(write(&mut bbq, "probe1", "target_max", "80").is_some());
    assert_eq!(write(&mut bbq, "probe1", "target_max", "hot"), None);
    assert_eq!(write(&mut bbq, "probe1", "target_min", ""), None);
    assert_eq!(write(&mut bbq, "probe1", "mode", "range"), None);
    assert_eq!(
        bbq.target(1),
        Target { mode: TargetMode::Off, temperature_min: degrees(0.0), temperature_max: degrees(80.0) }
    );
}

#[test]
fn target_writes_give_the_command_for_the_resulting_mode() {
    let mut bbq = session();
    assert_eq!(
        write(&mut bbq, "probe2", "target_min", "10"),
        Some(DeviceCommand::RemoveTarget { probe: 2 })
    );
    assert_eq!(
        write(&mut bbq, "probe2", "target_max", "20.5"),
        Some(DeviceCommand::RemoveTarget { probe: 2 })
    );
    assert_eq!(
        write(&mut bbq, "probe2", "mode", "Maximum only"),
        Some(DeviceCommand::SetTargetTemp { probe: 2, target: degrees(20.5) })
    );
    assert_eq!(
        write(&mut bbq, "probe2", "mode", "Range"),
        Some(DeviceCommand::SetTargetRange { probe: 2, min: degrees(10.0), max: degrees(20.5) })
    );
    assert_eq!(
        write(&mut bbq, "probe2", "target_min", "12"),
        Some(DeviceCommand::SetTargetRange { probe: 2, min: degrees(12.0), max: degrees(20.5) })
    );
    assert_eq!(
        write(&mut bbq, "probe2", "mode", "None"),
        Some(DeviceCommand::RemoveTarget { probe: 2 })
    );
    assert_eq!(
        bbq.target(2),
        Target { mode: TargetMode::Off, temperature_min: degrees(12.0), temperature_max: degrees(20.5) }
    );
    assert_eq!(bbq.target(3), Target::default());
}

#[test]
fn same_write_twice_gives_same_command_and_state() {
    let mut bbq = session();
    write(&mut bbq, "probe0", "target_max", "70");
    let first = write(&mut bbq, "probe0", "mode", "Maximum only");
    let after_first = bbq.target(0);
    let second = write(&mut bbq, "probe0", "mode", "Maximum only");
    assert_eq!(first, Some(DeviceCommand::SetTargetTemp { probe: 0, target: degrees(70.0) }));
    assert_eq!(second, first);
    assert_eq!(bbq.target(0), after_first);

    let first = write(&mut bbq, "probe0", "target_max", "75");
    let second = write(&mut bbq, "probe0", "target_max", "75");
    assert_eq!(first, Some(DeviceCommand::SetTargetTemp { probe: 0, target: degrees(75.0) }));
    assert_eq!(second, first);
}

#[test]
fn startup_actions_are_in_order() {
    assert_eq!(
        session().startup_actions(),
        vec![
            Action::AddNode(NodeId::Battery),
            Action::AddNode(NodeId::Settings),
            Action::Device(DeviceCommand::SetTemperatureUnit(TemperatureUnit::Celcius)),
            publish(NodeId::Settings, PropertyId::DisplayUnit, Value::Unit(TemperatureUnit::Celcius)),
            Action::Subscribe(Subscription::SettingResults),
            Action::Subscribe(Subscription::RealTimeData),
            Action::Device(DeviceCommand::EnableRealTimeData(true)),
            Action::Device(DeviceCommand::RequestBatteryLevel),
        ]
    );
}

#[test]
fn new_probe_is_added_and_missing_probe_removed() {
    let mut bbq = session();
    // Probe 1 is advertised, probe 0 is not.
    bbq.handle_realtime_data(&frame(vec![None, Some(50.0)]));
    assert!(!bbq.has_probe(0));
    assert!(bbq.has_probe(1));

    let actions = bbq.handle_realtime_data(&frame(vec![Some(23.5), None]));
    let mut expected = restore(0, DeviceCommand::RemoveTarget { probe: 0 }, TargetMode::Off, 0.0, 0.0);
    expected.push(temperature(0, 23.5));
    expected.push(Action::RemoveNode(NodeId::Probe(1)));
    assert_eq!(actions, expected);
    let adds = actions.iter().filter(|a| matches!(a, Action::AddNode(_))).count();
    let removes = actions.iter().filter(|a| matches!(a, Action::RemoveNode(_))).count();
    assert_eq!(adds, 1);
    assert_eq!(removes, 1);
    assert!(bbq.has_probe(0));
    assert!(!bbq.has_probe(1));
}

#[test]
fn known_probe_only_publishes_and_absent_probe_does_nothing() {
    let mut bbq = session();
    bbq.handle_realtime_data(&frame(vec![Some(20.0), None]));
    let actions = bbq.handle_realtime_data(&frame(vec![Some(21.0), None]));
    assert_eq!(actions, vec![temperature(0, 21.0)]);
    assert!(bbq.handle_realtime_data(&frame(vec![])).is_empty());
    assert!(bbq.has_probe(0));
}

#[test]
fn target_is_restored_when_probe_reappears() {
    for probe in [0u8, 3, 5] {
        let mut bbq = session();
        let node = format!("probe{}", probe);
        write(&mut bbq, &node, "mode", "Range");
        write(&mut bbq, &node, "target_min", "10");
        write(&mut bbq, &node, "target_max", "20");

        let mut present = vec![Some(30.0); 6];
        let mut absent = present.clone();
        absent[probe as usize] = None;
        bbq.handle_realtime_data(&frame(present.clone()));
        bbq.handle_realtime_data(&frame(absent));
        assert!(!bbq.has_probe(probe));

        present[probe as usize] = Some(42.0);
        let actions = bbq.handle_realtime_data(&frame(present));
        let mut expected = restore(
            probe,
            DeviceCommand::SetTargetRange { probe, min: degrees(10.0), max: degrees(20.0) },
            TargetMode::Range,
            10.0,
            20.0,
        );
        expected.push(temperature(probe, 42.0));
        let start = probe as usize;
        assert_eq!(&actions[start..start + 6], &expected[..]);
        assert_eq!(actions.len(), 11);
    }
}

#[test]
fn probe_node_is_named_from_configuration_or_numbered() {
    let mut config = Config::default();
    config.set_device(
        &address(),
        DeviceConfig { name: Some("Smoker".to_string()), probe_names: vec!["Brisket".to_string()] },
    );
    let bbq = Bbq::new(address(), "iBBQ".to_string(), config);
    assert_eq!(bbq.identity().name, "Smoker");
    let named = bbq.node_for_probe(0);
    assert_eq!(named.id, NodeId::Probe(0));
    assert_eq!(named.name, "Brisket");
    assert_eq!(named.node_type, "Temperature probe");
    assert_eq!(bbq.node_for_probe(1).name, "Probe 2");
    assert_eq!(bbq.node_for_probe(9).name, "Probe 10");
    assert_eq!(bbq.node_for_probe(255).name, "Probe 256");

    let properties = named.properties;
    assert_eq!(properties.len(), 4);
    let ids: Vec<PropertyId> = properties.iter().map(|p| p.id).collect();
    assert_eq!(
        ids,
        vec![
            PropertyId::Temperature,
            PropertyId::TargetTemperatureMin,
            PropertyId::TargetTemperatureMax,
            PropertyId::TargetMode
        ]
    );
    let names: Vec<&str> = properties.iter().map(|p| p.name).collect();
    assert_eq!(
        names,
        vec!["Temperature", "Minimum temperature", "Target/maximum temperature", "Target mode"]
    );
    let settable: Vec<bool> = properties.iter().map(|p| p.settable).collect();
    assert_eq!(settable, vec![false, true, true, true]);
    assert!(properties.iter().all(|p| p.retained));
    assert_eq!(properties[0].datatype, Datatype::Float);
    assert_eq!(properties[3].datatype, Datatype::TargetMode);
    assert_eq!(properties[0].unit, Some("ºC"));
    assert_eq!(properties[3].unit, None);
}

#[test]
fn session_goes_by_bluetooth_name_without_configuration() {
    let bbq = session();
    assert_eq!(bbq.identity().name, "iBBQ");
    assert_eq!(bbq.identity().mac_address, address());
    assert!(bbq.identity().device_config.probe_names.is_empty());
    assert_eq!(bbq.device_base(), "homie/cloudbbq-112233AABBCC");
}

#[test]
fn static_nodes_are_described() {
    let battery = battery_node();
    assert_eq!(battery.id, NodeId::Battery);
    assert_eq!(battery.name, "Battery");
    assert_eq!(battery.node_type, "Battery level");
    assert_eq!(battery.properties.len(), 2);
    assert_eq!(battery.properties[0].id, PropertyId::Voltage);
    assert_eq!(battery.properties[0].name, "Voltage");
    assert_eq!(battery.properties[0].unit, None);
    assert_eq!(battery.properties[1].id, PropertyId::Percentage);
    assert_eq!(battery.properties[1].unit, Some("%"));
    assert!(battery.properties.iter().all(|p| !p.settable && p.retained));
    assert!(battery.properties.iter().all(|p| p.datatype == Datatype::Integer));

    let settings = settings_node();
    assert_eq!(settings.id, NodeId::Settings);
    assert_eq!(settings.name, "Settings");
    assert_eq!(settings.node_type, "Settings");
    assert_eq!(settings.properties.len(), 2);
    assert_eq!(settings.properties[0].id, PropertyId::DisplayUnit);
    assert_eq!(settings.properties[0].datatype, Datatype::DisplayUnit);
    assert!(settings.properties[0].settable && settings.properties[0].retained);
    assert_eq!(settings.properties[1].id, PropertyId::Alarm);
    assert_eq!(settings.properties[1].datatype, Datatype::Boolean);
    assert!(settings.properties[1].settable && !settings.properties[1].retained);
}
