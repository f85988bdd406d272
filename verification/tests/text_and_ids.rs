use cloudbbq_homie::target::InvalidTargetMode;
use cloudbbq_homie::target::TargetMode;
use cloudbbq_homie::text::parse_bool;
use cloudbbq_homie::text::parse_u8;
use cloudbbq_homie::text::str_eq;
use cloudbbq_homie::device::parse_display_unit;
use cloudbbq_homie::tree::probe_id_to_index;
use cloudbbq_homie::tree::Datatype;
use cloudbbq_homie::tree::NodeId;
use cloudbbq_homie::tree::PropertyId;
use cloudbbq_homie::device::TemperatureUnit;

#[test]
fn str_eq_compares_characters() {
    assert!(str_eq("", ""));
    assert!(str_eq("ºC", "ºC"));
    assert!(!str_eq("ºC", "ºF"));
    assert!(!str_eq("probe", "probe0"));
}

#[test]
fn parse_u8_reads_digits_only() {
    for n in 0..=255u8 {
        assert_eq!(parse_u8(&format!("{}", n)), Some(n));
    }
    assert_eq!(parse_u8("007"), Some(7));
    assert_eq!(parse_u8("0255"), Some(255));
    let refused = [
        "", "+", "-", "+0", "-0", "+1", "+255", "256", "0256", "999999999999999999999", "1a",
        " 1", "1 ", "++1", "１", "0x1", "2 5", "1.0",
    ];
    for text in refused {
        assert_eq!(parse_u8(text), None, "{:?}", text);
    }
}

#[test]
fn parse_bool_accepts_two_words() {
    assert_eq!(parse_bool("true"), Some(true));
    assert_eq!(parse_bool("false"), Some(false));
    assert_eq!(parse_bool("True"), None);
    assert_eq!(parse_bool("1"), None);
    assert_eq!(parse_bool(""), None);
}

#[test]
fn probe_ids_are_read() {
    assert_eq!(probe_id_to_index("probe0"), Some(0));
    assert_eq!(probe_id_to_index("probe5"), Some(5));
    assert_eq!(probe_id_to_index("probe255"), Some(255));
    assert_eq!(probe_id_to_index("probe007"), Some(7));
}

#[test]
fn ids_without_a_numeric_suffix_name_no_probe() {
    let refused = [
        "settings", "battery", "", "probe", "Probe1", "xprobe1", "prob1", "probe 1", "probe1a",
        "probe1x", "probe-1", "probe+1", "probe+7", "probe+", "probe1.0", "probe256", "probe300",
        "probeº",
    ];
    for id in refused {
        assert_eq!(probe_id_to_index(id), None, "{:?}", id);
        if id != "settings" && id != "battery" {
            assert_eq!(NodeId::parse(id), None, "{:?}", id);
        }
    }
}

#[test]
fn node_ids_round_trip() {
    assert_eq!(NodeId::Battery.to_string(), "battery");
    assert_eq!(NodeId::Settings.to_string(), "settings");
    assert_eq!(NodeId::Probe(0).to_string(), "probe0");
    assert_eq!(NodeId::Probe(42).to_string(), "probe42");
    assert_eq!(NodeId::Probe(255).to_string(), "probe255");
    for index in 0..=255u8 {
        let node = NodeId::Probe(index);
        assert_eq!(NodeId::parse(&node.to_string()), Some(node));
    }
    assert_eq!(NodeId::parse("battery"), Some(NodeId::Battery));
    assert_eq!(NodeId::parse("settings"), Some(NodeId::Settings));
    assert_eq!(NodeId::parse("kitchen"), None);
}

#[test]
fn property_ids_have_their_text() {
    assert_eq!(PropertyId::Voltage.as_str(), "voltage");
    assert_eq!(PropertyId::Percentage.as_str(), "percentage");
    assert_eq!(PropertyId::DisplayUnit.as_str(), "unit");
    assert_eq!(PropertyId::Alarm.as_str(), "alarm");
    assert_eq!(PropertyId::Temperature.as_str(), "temperature");
    assert_eq!(PropertyId::TargetTemperatureMin.as_str(), "target_min");
    assert_eq!(PropertyId::TargetTemperatureMax.as_str(), "target_max");
    assert_eq!(PropertyId::TargetMode.as_str(), "mode");
}

#[test]
fn target_modes_are_read_and_written() {
    assert_eq!(TargetMode::Off.as_str(), "None");
    assert_eq!(TargetMode::Single.as_str(), "Maximum only");
    assert_eq!(TargetMode::Range.as_str(), "Range");
    for mode in [TargetMode::Off, TargetMode::Single, TargetMode::Range] {
        assert_eq!(TargetMode::from_str(mode.as_str()), Ok(mode));
    }
    assert_eq!(TargetMode::default(), TargetMode::Off);
}

#[test]
fn invalid_target_mode_is_reported() {
    let error = TargetMode::from_str("range").unwrap_err();
    assert_eq!(error, InvalidTargetMode { text: "range".to_string() });
    assert_eq!(error.message(), "Invalid target mode range");
    assert!(TargetMode::from_str("").is_err());
    assert!(TargetMode::from_str("Maximum  only").is_err());
}

#[test]
fn display_units_are_read_and_written() {
    assert_eq!(parse_display_unit("ºC"), Some(TemperatureUnit::Celcius));
    assert_eq!(parse_display_unit("ºF"), Some(TemperatureUnit::Fahrenheit));
    assert_eq!(parse_display_unit("°C"), None);
    assert_eq!(parse_display_unit("C"), None);
    assert_eq!(parse_display_unit(""), None);
    assert_eq!(TemperatureUnit::Celcius.as_str(), "ºC");
    assert_eq!(TemperatureUnit::Fahrenheit.as_str(), "ºF");
}

#[test]
fn enumerations_list_their_labels() {
    assert_eq!(Datatype::DisplayUnit.enumeration_values(), vec!["ºC", "ºF"]);
    assert_eq!(Datatype::TargetMode.enumeration_values(), vec!["None", "Maximum only", "Range"]);
    assert!(Datatype::Float.enumeration_values().is_empty());
    assert!(Datatype::Integer.enumeration_values().is_empty());
    assert!(Datatype::Boolean.enumeration_values().is_empty());
}
